use vstd::prelude::*;
use vstd::string::*;

use crate::course::Course;
use crate::engine::{build_context, build_engine, render_template};
use crate::error::Error;
use crate::settings::{path_join, spec_join, Settings};
use crate::template::Template;

verus! {

/// The keys of a supplied context, in order.
pub open spec fn context_keys(ctx: Seq<(String, serde_json::Value)>) -> Seq<Seq<char>> {
    ctx.map_values(|p: (String, serde_json::Value)| p.0@)
}

/// The first key, in context order, that the parameter whitelist does not
/// hold; `None` when every key is declared.
pub open spec fn spec_first_missing(params: Seq<Seq<char>>, keys: Seq<Seq<char>>) -> Option<
    Seq<char>,
>
    decreases keys,
{
    if keys.len() == 0 {
        Option::None
    } else if !params.contains(keys[0]) {
        Option::Some(keys[0])
    } else {
        spec_first_missing(params, keys.drop_first())
    }
}

/// Validation misses a key exactly when some key is outside the whitelist,
/// and what it names is a supplied key that the whitelist does not hold.
pub proof fn lemma_first_missing_finds(params: Seq<Seq<char>>, keys: Seq<Seq<char>>)
    ensures
        (exists|i: int| 0 <= i < keys.len() && !params.contains(keys[i])) <==> spec_first_missing(
            params,
            keys,
        ) is Some,
        spec_first_missing(params, keys) matches Option::Some(k) ==> !params.contains(k)
            && keys.contains(k),
    decreases keys,
{
    if keys.len() > 0 {
        lemma_first_missing_finds(params, keys.drop_first());
        if params.contains(keys[0]) {
            match spec_first_missing(params, keys.drop_first()) {
                Option::Some(k) => {
                    let j = choose|j: int|
                        0 <= j < keys.drop_first().len() && keys.drop_first()[j] == k;
                    assert(keys[j + 1] == k);
                },
                Option::None => {
                    assert forall|i: int|
                        0 <= i < keys.len() implies #[trigger] params.contains(keys[i]) by {
                        if i > 0 {
                            assert(keys.drop_first()[i - 1] == keys[i]);
                        }
                    }
                },
            }
        }
    }
}

/// Whether some element of `v` reads `s`.
fn contains_string(v: &Vec<String>, s: &String) -> (r: bool)
    ensures
        r == v@.map_values(|x: String| x@).contains(s@),
{
    let ghost pv = v@.map_values(|x: String| x@);
    let n = v.len();
    let mut i: usize = 0;
    while i < n
        invariant
            i <= n,
            n == v@.len(),
            pv == v@.map_values(|x: String| x@),
            forall|k: int| 0 <= k < i ==> pv[k] != s@,
        decreases n - i,
    {
        if v[i] == *s {
            proof {
                assert(pv[i as int] == s@);
            }
            return true;
        }
        i += 1;
    }
    proof {
        assert forall|k: int| 0 <= k < pv.len() implies pv[k] != s@ by {}
    }
    false
}

/// Copies a list of string pairs.
fn clone_pairs(v: &Vec<(String, String)>) -> (r: Vec<(String, String)>)
    ensures
        r@ == v@,
{
    let mut r: Vec<(String, String)> = Vec::new();
    let n = v.len();
    let mut i: usize = 0;
    while i < n
        invariant
            i <= n,
            n == v@.len(),
            r@.len() == i,
            forall|k: int| 0 <= k < i ==> r@[k] == v@[k],
        decreases n - i,
    {
        r.push((v[i].0.clone(), v[i].1.clone()));
        i += 1;
    }
    proof {
        assert(r@ =~= v@);
    }
    r
}

/// A render whose context passed validation and whose directory name has
/// been rendered: the target path is fixed. Nothing has touched the
/// filesystem yet; the driver must next report whether `target` exists.
pub struct RenderStarted {
    pub engine: tera::Tera,
    pub context: tera::Context,
    pub files: Vec<(String, String)>,
    pub command_source: String,
    pub directory_name: String,
    pub target: String,
}

/// A render whose target was found absent: the driver creates the target
/// directory (with its ancestors) and reports back.
pub struct RenderDirChecked {
    pub engine: tera::Tera,
    pub context: tera::Context,
    pub files: Vec<(String, String)>,
    pub command_source: String,
    pub target: String,
}

/// A render whose target directory exists and whose command has been
/// rendered: the driver runs `command` in a shell with `target` as working
/// directory and reports the exit status and captured standard error.
pub struct RenderCommandReady {
    pub engine: tera::Tera,
    pub context: tera::Context,
    pub files: Vec<(String, String)>,
    pub target: String,
    pub command: String,
}

/// A render whose command succeeded: what is left is rendering the files and
/// writing them under `target`.
pub struct RenderFilesReady {
    pub engine: tera::Tera,
    pub context: tera::Context,
    pub files: Vec<(String, String)>,
    pub target: String,
}

/// One rendered file: a path relative to the render target, and content.
pub struct RenderedFile {
    pub path: String,
    pub content: String,
}

impl RenderedFile {
    /// The file's absolute path under the render target.
    pub fn full_path(&self, target: &str) -> (r: String)
        ensures
            r@ == spec_join(target@, self.path@),
    {
        path_join(target, self.path.as_str())
    }
}

impl Template {
    /// Starts a render: validates every supplied context key against the
    /// declared parameters, compiles the engine with the filter library,
    /// renders the directory name, and computes the target path
    /// `<course dir>/<pluralized name>/<rendered directory name>`. The first
    /// undeclared key, in context order, fails the render before anything
    /// else happens; this step performs no filesystem effect.
    pub fn render_start(
        &self,
        settings: &Settings,
        course: &Course,
        context: &Vec<(String, serde_json::Value)>,
    ) -> (r: Result<RenderStarted, Error>)
        ensures
            match spec_first_missing(self@.context_parameters, context_keys(context@)) {
                Option::Some(k) => r matches Result::Err(
                    Error::TemplateContextParameterDoesNotExist(s),
                ) && s@ == k,
                Option::None => match r {
                    Result::Ok(st) => {
                        &&& st.files@ == self.files@
                        &&& st.command_source@ == self.command@
                        &&& st.target@ == spec_join(
                            spec_join(
                                spec_join(settings.path@, course.code@),
                                self.pluralized_name@,
                            ),
                            st.directory_name@,
                        )
                    },
                    Result::Err(e) => e is Render,
                },
            },
    {
        let ghost params = self@.context_parameters;
        let ghost keys = context_keys(context@);
        let n = context.len();
        let mut i: usize = 0;
        proof {
            assert(keys.skip(0) =~= keys);
        }
        while i < n
            invariant
                i <= n,
                n == context@.len(),
                params == self@.context_parameters,
                keys == context_keys(context@),
                keys.len() == n,
                forall|k: int| 0 <= k < n ==> keys[k] == context@[k].0@,
                spec_first_missing(params, keys) == spec_first_missing(
                    params,
                    keys.skip(i as int),
                ),
            decreases n - i,
        {
            proof {
                assert(keys.skip(i as int)[0] == keys[i as int]);
                assert(keys.skip(i as int).drop_first() =~= keys.skip(i + 1));
            }
            if !contains_string(&self.context_parameters, &context[i].0) {
                return Result::Err(
                    Error::TemplateContextParameterDoesNotExist(context[i].0.clone()),
                );
            }
            i += 1;
        }
        proof {
            assert(keys.skip(n as int) =~= Seq::<Seq<char>>::empty());
        }
        let mut engine = build_engine();
        let ctx = build_context(context);
        let directory_name = match render_template(
            &mut engine,
            self.directory_name.as_str(),
            &ctx,
        ) {
            Result::Ok(s) => s,
            Result::Err(m) => {
                return Result::Err(Error::Render(m));
            },
        };
        let course_dir = course.dir(settings);
        let collection = path_join(course_dir.as_str(), self.pluralized_name.as_str());
        let target = path_join(collection.as_str(), directory_name.as_str());
        Result::Ok(
            RenderStarted {
                engine,
                context: ctx,
                files: clone_pairs(&self.files),
                command_source: self.command.clone(),
                directory_name,
                target,
            },
        )
    }
}

impl RenderStarted {
    /// Consumes the driver's answer to "does the target exist?". An existing
    /// target fails the render with `RenderAlreadyExists` and nothing is
    /// written anywhere: a render never overwrites or merges into an
    /// existing instance.
    pub fn target_checked(self, target_exists: bool) -> (r: Result<RenderDirChecked, Error>)
        ensures
            target_exists ==> r == Result::<RenderDirChecked, Error>::Err(
                Error::RenderAlreadyExists(self.directory_name),
            ),
            !target_exists ==> (r matches Result::Ok(st) && st.engine == self.engine
                && st.context == self.context && st.files == self.files && st.command_source
                == self.command_source && st.target == self.target),
    {
        if target_exists {
            Result::Err(Error::RenderAlreadyExists(self.directory_name))
        } else {
            Result::Ok(
                RenderDirChecked {
                    engine: self.engine,
                    context: self.context,
                    files: self.files,
                    command_source: self.command_source,
                    target: self.target,
                },
            )
        }
    }
}

impl RenderDirChecked {
    /// Continues once the driver has created the target directory: renders
    /// the command the driver must run next.
    pub fn directory_created(self) -> (r: Result<RenderCommandReady, Error>)
        ensures
            match r {
                Result::Ok(st) => st.files == self.files && st.target == self.target,
                Result::Err(e) => e is Render,
            },
    {
        let mut this = self;
        let command = match render_template(&mut this.engine, this.command_source.as_str(), &this.context) {
            Result::Ok(s) => s,
            Result::Err(m) => {
                return Result::Err(Error::Render(m));
            },
        };
        Result::Ok(
            RenderCommandReady {
                engine: this.engine,
                context: this.context,
                files: this.files,
                target: this.target,
                command,
            },
        )
    }
}

impl RenderCommandReady {
    /// Consumes the command's outcome. A non-zero exit fails the render with
    /// the rendered command line and the captured standard error; the target
    /// directory stays on disk as it is — there is no rollback.
    pub fn command_finished(self, success: bool, stderr: String) -> (r: Result<
        RenderFilesReady,
        Error,
    >)
        ensures
            !success ==> r == Result::<RenderFilesReady, Error>::Err(
                Error::TemplateCommandFailed(self.command, stderr),
            ),
            success ==> (r matches Result::Ok(st) && st.engine == self.engine && st.context
                == self.context && st.files == self.files && st.target == self.target),
    {
        if !success {
            Result::Err(Error::TemplateCommandFailed(self.command, stderr))
        } else {
            Result::Ok(
                RenderFilesReady {
                    engine: self.engine,
                    context: self.context,
                    files: self.files,
                    target: self.target,
                },
            )
        }
    }
}

impl RenderFilesReady {
    /// Renders every file's path and content against the context, in
    /// declaration order, failing fast on the first render error. The driver
    /// writes each rendered file under the target, creating missing parent
    /// directories, overwriting whatever the command step may have left.
    pub fn render_files(self) -> (r: Result<Vec<RenderedFile>, Error>)
        ensures
            match r {
                Result::Ok(v) => v@.len() == self.files@.len(),
                Result::Err(e) => e is Render,
            },
    {
        let mut this = self;
        let ghost files0 = this.files@;
        let mut out: Vec<RenderedFile> = Vec::new();
        let n = this.files.len();
        let mut i: usize = 0;
        while i < n
            invariant
                i <= n,
                this.files@ == files0,
                n == files0.len(),
                out@.len() == i,
            decreases n - i,
        {
            let path = match render_template(&mut this.engine, this.files[i].0.as_str(), &this.context) {
                Result::Ok(s) => s,
                Result::Err(m) => {
                    return Result::Err(Error::Render(m));
                },
            };
            let content = match render_template(&mut this.engine, this.files[i].1.as_str(), &this.context) {
                Result::Ok(s) => s,
                Result::Err(m) => {
                    return Result::Err(Error::Render(m));
                },
            };
            out.push(RenderedFile { path, content });
            i += 1;
        }
        Result::Ok(out)
    }
}

/// A rendered command must be non-empty to be run: names the exact inputs on
/// which a command is rejected as empty.
pub fn validate_command(command: &str) -> (r: Result<(), Error>)
    ensures
        command@.len() == 0 ==> r == Result::<(), Error>::Err(Error::TemplateCommandIsEmpty),
        command@.len() > 0 ==> r is Ok,
{
    if command.is_empty() {
        Result::Err(Error::TemplateCommandIsEmpty)
    } else {
        Result::Ok(())
    }
}

} // verus!
