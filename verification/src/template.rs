use vstd::prelude::*;
use vstd::string::*;

use crate::doc::{
    doc_entries_view, doc_of_yaml_text, doc_view, docs_view, lemma_doc_entries_view,
    lemma_docs_view, spec_lookup, spec_tree_entries_of_doc, spec_tree_of_doc, tree_of_doc,
    yaml_text_of, Doc, DocView,
};
use crate::error::Error;
use crate::file_tree::{pairs_view, prefix_entries, spec_flatten, spec_flatten_entries, spec_join_path, FileTreeView};
use crate::settings::{spec_join, Settings};

verus! {

/// A persisted template definition: a directory-name pattern, a flattened
/// tree of templated files, and a shell command, all parameterized over the
/// declared context parameters.
pub struct Template {
    /// The template's identifier; derived from the definition file's
    /// location, never stored in its body.
    pub name: String,
    /// Names the collection sub-directory under a course.
    pub pluralized_name: String,
    /// The whitelist of context keys the template's sources may reference.
    pub context_parameters: Vec<String>,
    /// Template source for the name of the directory a render creates.
    pub directory_name: String,
    /// The flattened file tree: relative path to template source, in the
    /// order the declaration listed them.
    pub files: Vec<(String, String)>,
    /// Template source for the shell command a render executes.
    pub command: String,
}

/// The mathematical shape of a [`Template`].
pub struct TemplateView {
    pub name: Seq<char>,
    pub pluralized_name: Seq<char>,
    pub context_parameters: Seq<Seq<char>>,
    pub directory_name: Seq<char>,
    pub files: Seq<(Seq<char>, Seq<char>)>,
    pub command: Seq<char>,
}

impl View for Template {
    type V = TemplateView;

    open spec fn view(&self) -> TemplateView {
        TemplateView {
            name: self.name@,
            pluralized_name: self.pluralized_name@,
            context_parameters: self.context_parameters@.map_values(|s: String| s@),
            directory_name: self.directory_name@,
            files: pairs_view(self.files@),
            command: self.command@,
        }
    }
}

impl Template {
    /// Makes a fresh, empty-bodied template: the pluralized name defaults to
    /// the name with an `s` appended.
    pub fn from_name(name: String, pluralized_name: Option<String>) -> (r: Template)
        ensures
            r.name == name,
            match pluralized_name {
                Option::Some(p) => r.pluralized_name == p,
                Option::None => r.pluralized_name@ == name@ + "s"@,
            },
            r@.context_parameters.len() == 0,
            r@.directory_name.len() == 0,
            r@.files.len() == 0,
            r@.command.len() == 0,
    {
        let plural = match pluralized_name {
            Option::Some(p) => p,
            Option::None => {
                let mut p = name.clone();
                p.append("s");
                p
            },
        };
        Template {
            name,
            pluralized_name: plural,
            context_parameters: Vec::new(),
            directory_name: String::new(),
            files: Vec::new(),
            command: String::new(),
        }
    }

    /// The template's name.
    pub fn name(&self) -> (r: &str)
        ensures
            r@ == self.name@,
    {
        self.name.as_str()
    }

    /// The template's pluralized name.
    pub fn pluralized_name(&self) -> (r: &str)
        ensures
            r@ == self.pluralized_name@,
    {
        self.pluralized_name.as_str()
    }

    /// The template's declared context parameters.
    pub fn context_parameters(&self) -> (r: &Vec<String>)
        ensures
            r == &self.context_parameters,
    {
        &self.context_parameters
    }

    /// The path of this template's definition file in the global store.
    pub fn path(&self, settings: &Settings) -> (r: String)
        ensures
            r@ == spec_join(
                spec_join(spec_join(settings.path@, ".unii"@), "templates"@),
                self.name@,
            ) + ".yml"@,
    {
        settings.template_path(Option::None, self.name.as_str())
    }
}

/// The document a template's body serializes to: the name is positional and
/// stays out; the files go in flattened.
pub open spec fn spec_to_doc(t: TemplateView) -> DocView {
    DocView::Entries(
        seq![
            ("pluralized-name"@, DocView::Text(t.pluralized_name)),
            (
                "context-parameters"@,
                DocView::Items(t.context_parameters.map_values(|s: Seq<char>| DocView::Text(s))),
            ),
            ("directory-name"@, DocView::Text(t.directory_name)),
            (
                "files"@,
                DocView::Entries(
                    t.files.map_values(|p: (Seq<char>, Seq<char>)| (p.0, DocView::Text(p.1))),
                ),
            ),
            ("command"@, DocView::Text(t.command)),
        ],
    )
}

/// Whether every document in the list is plain text.
pub open spec fn all_texts(items: Seq<DocView>) -> bool {
    forall|i: int| 0 <= i < items.len() ==> items[i] is Text
}

/// The strings of a list of text documents.
pub open spec fn text_values(items: Seq<DocView>) -> Seq<Seq<char>> {
    items.map_values(|d: DocView| d->Text_0)
}

/// The template a document describes, if it has the right shape: a map whose
/// `pluralized-name`, `directory-name` and `command` are strings, whose
/// `context-parameters` is a list of strings, and whose `files` declares a
/// file tree, which is flattened. The name comes from the lookup key, not
/// from the body.
pub open spec fn spec_from_doc(name: Seq<char>, d: DocView) -> Option<TemplateView> {
    match d {
        DocView::Entries(es) => spec_from_entries(name, es),
        _ => Option::None,
    }
}

/// [`spec_from_doc`], given the body's entries.
pub open spec fn spec_from_entries(name: Seq<char>, es: Seq<(Seq<char>, DocView)>) -> Option<
    TemplateView,
> {
    match (
        spec_lookup(es, "pluralized-name"@),
        spec_lookup(es, "context-parameters"@),
        spec_lookup(es, "directory-name"@),
        spec_lookup(es, "files"@),
        spec_lookup(es, "command"@),
    ) {
        (
            Option::Some(DocView::Text(plural)),
            Option::Some(DocView::Items(params)),
            Option::Some(DocView::Text(dir)),
            Option::Some(filesd),
            Option::Some(DocView::Text(cmd)),
        ) => {
            if all_texts(params) {
                match spec_tree_of_doc(filesd) {
                    Option::Some(tree) => Option::Some(
                        TemplateView {
                            name,
                            pluralized_name: plural,
                            context_parameters: text_values(params),
                            directory_name: dir,
                            files: spec_flatten(tree),
                            command: cmd,
                        },
                    ),
                    Option::None => Option::None,
                }
            } else {
                Option::None
            }
        },
        _ => Option::None,
    }
}

impl Template {
    /// Serializes the template's body as a document.
    pub fn to_doc(&self) -> (r: Doc)
        ensures
            r@ == spec_to_doc(self@),
    {
        let mut params: Vec<Doc> = Vec::new();
        let n = self.context_parameters.len();
        let mut i: usize = 0;
        while i < n
            invariant
                i <= n,
                n == self.context_parameters@.len(),
                params@.len() == i,
                forall|k: int|
                    0 <= k < i ==> params@[k] == Doc::Text(self.context_parameters@[k]),
            decreases n - i,
        {
            params.push(Doc::Text(self.context_parameters[i].clone()));
            i += 1;
        }
        let mut files: Vec<(String, Doc)> = Vec::new();
        let m = self.files.len();
        let mut j: usize = 0;
        while j < m
            invariant
                j <= m,
                m == self.files@.len(),
                files@.len() == j,
                forall|k: int|
                    0 <= k < j ==> files@[k] == (self.files@[k].0, Doc::Text(self.files@[k].1)),
            decreases m - j,
        {
            files.push((self.files[j].0.clone(), Doc::Text(self.files[j].1.clone())));
            j += 1;
        }
        proof {
            lemma_docs_view(params@);
            assert(docs_view(params@) =~= self@.context_parameters.map_values(
                |s: Seq<char>| DocView::Text(s),
            ));
            lemma_doc_entries_view(files@);
            assert(doc_entries_view(files@) =~= self@.files.map_values(
                |p: (Seq<char>, Seq<char>)| (p.0, DocView::Text(p.1)),
            ));
        }
        let mut es: Vec<(String, Doc)> = Vec::new();
        es.push(("pluralized-name".to_owned(), Doc::Text(self.pluralized_name.clone())));
        es.push(("context-parameters".to_owned(), Doc::Items(params)));
        es.push(("directory-name".to_owned(), Doc::Text(self.directory_name.clone())));
        es.push(("files".to_owned(), Doc::Entries(files)));
        es.push(("command".to_owned(), Doc::Text(self.command.clone())));
        let r = Doc::Entries(es);
        proof {
            lemma_doc_entries_view(es@);
            assert(r@ =~= spec_to_doc(self@)) by {
                assert(doc_entries_view(es@) =~= spec_to_doc(self@)->Entries_0);
            }
        }
        r
    }

    /// Reads a template out of a document, attaching the given name; any
    /// document of the wrong shape is a deserialization error.
    pub fn from_doc(name: String, d: &Doc) -> (r: Result<Template, Error>)
        ensures
            match spec_from_doc(name@, d@) {
                Option::Some(tv) => r matches Result::Ok(t) && t@ == tv,
                Option::None => r matches Result::Err(e) && e is Yaml,
            },
            r matches Result::Ok(t) ==> t.name == name,
    {
        let es = match d {
            Doc::Entries(es) => es,
            _ => {
                return Result::Err(Error::Yaml("template body is not a mapping".to_owned()));
            },
        };
        let plural = match crate::doc::doc_lookup(es, "pluralized-name") {
            Option::Some(Doc::Text(s)) => s.clone(),
            _ => {
                return Result::Err(
                    Error::Yaml("pluralized-name is missing or not a string".to_owned()),
                );
            },
        };
        let params_docs = match crate::doc::doc_lookup(es, "context-parameters") {
            Option::Some(Doc::Items(xs)) => xs,
            _ => {
                return Result::Err(
                    Error::Yaml("context-parameters is missing or not a list".to_owned()),
                );
            },
        };
        let dir = match crate::doc::doc_lookup(es, "directory-name") {
            Option::Some(Doc::Text(s)) => s.clone(),
            _ => {
                return Result::Err(
                    Error::Yaml("directory-name is missing or not a string".to_owned()),
                );
            },
        };
        let files_doc = match crate::doc::doc_lookup(es, "files") {
            Option::Some(fd) => fd,
            Option::None => {
                return Result::Err(Error::Yaml("files is missing".to_owned()));
            },
        };
        let command = match crate::doc::doc_lookup(es, "command") {
            Option::Some(Doc::Text(s)) => s.clone(),
            _ => {
                return Result::Err(Error::Yaml("command is missing or not a string".to_owned()));
            },
        };
        let ghost params_views = docs_view(params_docs@);
        let ghost sfd = spec_from_doc(name@, d@);
        let ghost fdv = doc_view(*files_doc);
        proof {
            lemma_docs_view(params_docs@);
            assert(sfd == spec_from_entries(name@, doc_entries_view(d->Entries_0@)));
        }
        let mut params: Vec<String> = Vec::new();
        let n = params_docs.len();
        let mut i: usize = 0;
        while i < n
            invariant
                i <= n,
                n == params_docs@.len(),
                params_views == docs_view(params_docs@),
                params_views.len() == n,
                forall|k: int| 0 <= k < n ==> params_views[k] == doc_view(params_docs@[k]),
                params@.len() == i,
                forall|k: int| 0 <= k < i ==> params_views[k] is Text,
                forall|k: int| 0 <= k < i ==> params@[k]@ == params_views[k]->Text_0,
                sfd == spec_from_doc(name@, d@),
                fdv == doc_view(*files_doc),
                !all_texts(params_views) ==> sfd is None,
                all_texts(params_views) ==> sfd == (match spec_tree_of_doc(fdv) {
                    Option::Some(tree) => Option::Some(
                        TemplateView {
                            name: name@,
                            pluralized_name: plural@,
                            context_parameters: text_values(params_views),
                            directory_name: dir@,
                            files: spec_flatten(tree),
                            command: command@,
                        },
                    ),
                    Option::None => Option::None,
                }),
            decreases n - i,
        {
            match &params_docs[i] {
                Doc::Text(s) => {
                    params.push(s.clone());
                },
                _ => {
                    proof {
                        assert(!(params_views[i as int] is Text));
                        assert(!all_texts(params_views));
                    }
                    return Result::Err(
                        Error::Yaml("context-parameters holds a non-string".to_owned()),
                    );
                },
            }
            i += 1;
        }
        proof {
            assert(all_texts(params_views));
        }
        let tree = match tree_of_doc(files_doc) {
            Option::Some(t) => t,
            Option::None => {
                return Result::Err(Error::Yaml("files does not declare a file tree".to_owned()));
            },
        };
        let files = tree.into_hashmap();
        let t = Template {
            name,
            pluralized_name: plural,
            context_parameters: params,
            directory_name: dir,
            files,
            command,
        };
        proof {
            let tv = spec_from_doc(name@, d@)->0;
            assert(t@.context_parameters =~= text_values(params_views));
            assert(t@ == tv);
        }
        Result::Ok(t)
    }

    /// Serializes the template's body as YAML text: the text of the
    /// template's serialized document.
    pub fn to_yaml_string(&self) -> (r: Result<String, Error>)
        ensures
            match r {
                Result::Ok(s) => yaml_text_of(spec_to_doc(self@)) == Result::<
                    Seq<char>,
                    Seq<char>,
                >::Ok(s@),
                Result::Err(e) => e matches Error::Yaml(m) && yaml_text_of(spec_to_doc(self@))
                    == Result::<Seq<char>, Seq<char>>::Err(m@),
            },
    {
        let d = self.to_doc();
        match d.to_yaml_string() {
            Result::Ok(s) => Result::Ok(s),
            Result::Err(m) => Result::Err(Error::Yaml(m)),
        }
    }

    /// Parses YAML text as a template body and attaches the given name: the
    /// template its parsed document describes, a deserialization error on
    /// text that is no YAML or whose document has the wrong shape.
    pub fn from_yaml_str(name: String, text: &str) -> (r: Result<Template, Error>)
        ensures
            match doc_of_yaml_text(text@) {
                Result::Ok(Option::Some(dv)) => match spec_from_doc(name@, dv) {
                    Option::Some(tv) => r matches Result::Ok(t) && t@ == tv && t.name == name,
                    Option::None => r matches Result::Err(e) && e is Yaml,
                },
                Result::Ok(Option::None) => r matches Result::Err(e) && e is Yaml,
                Result::Err(m) => r matches Result::Err(e) && e matches Error::Yaml(mm) && mm@
                    == m,
            },
    {
        match Doc::from_yaml_str(text) {
            Result::Ok(Option::Some(d)) => Template::from_doc(name, &d),
            Result::Ok(Option::None) => Result::Err(
                Error::Yaml("template body holds a value that is not a string, list or mapping".to_owned()),
            ),
            Result::Err(m) => Result::Err(Error::Yaml(m)),
        }
    }

    /// Consumes the driver's answer to "does a definition file already exist
    /// at this template's path?". An existing definition refuses creation
    /// with `TemplateAlreadyExists`; otherwise the template may be written.
    pub fn create_checked(self, definition_exists: bool) -> (r: Result<Template, Error>)
        ensures
            definition_exists ==> r == Result::<Template, Error>::Err(
                Error::TemplateAlreadyExists(self.name),
            ),
            !definition_exists ==> r == Result::<Template, Error>::Ok(self),
    {
        if definition_exists {
            Result::Err(Error::TemplateAlreadyExists(self.name))
        } else {
            Result::Ok(self)
        }
    }
}

/// The template name a file name in the template store denotes: the stem of
/// a `.yml` file name; any other name (a different extension, or a name that
/// is nothing but the extension) denotes none.
pub fn template_file_stem(file_name: &str) -> (r: Option<String>)
    ensures
        ({
            let n = file_name@.len() as int;
            match r {
                Option::Some(stem) => n > 4 && file_name@.subrange(n - 4, n) == ".yml"@ && stem@
                    == file_name@.take(n - 4),
                Option::None => n <= 4 || file_name@.subrange(n - 4, n) != ".yml"@,
            }
        }),
{
    let n = file_name.unicode_len();
    if n <= 4 {
        return Option::None;
    }
    let ext = file_name.substring_char(n - 4, n).to_owned();
    let yml = ".yml".to_owned();
    if ext == yml {
        Option::Some(file_name.substring_char(0, n - 4).to_owned())
    } else {
        Option::None
    }
}

/// A flat list of `(path, content)` pairs, read back as a file-tree document,
/// declares the one-level tree whose flattening is that list again.
pub proof fn lemma_tree_of_flat_doc(
    files: Seq<(Seq<char>, Seq<char>)>,
    fd: Seq<(Seq<char>, DocView)>,
)
    requires
        fd.len() == files.len(),
        forall|i: int| 0 <= i < files.len() ==> fd[i] == (files[i].0, DocView::Text(files[i].1)),
    ensures
        spec_tree_entries_of_doc(fd) is Some,
        spec_flatten_entries(spec_tree_entries_of_doc(fd)->0) == files,
    decreases files.len(),
{
    if files.len() == 0 {
        assert(fd.len() == 0);
        assert(spec_flatten_entries(spec_tree_entries_of_doc(fd)->0) =~= files);
    } else {
        let rest = files.drop_first();
        let fd_rest = fd.drop_first();
        assert(forall|i: int|
            0 <= i < rest.len() ==> fd_rest[i] == (rest[i].0, DocView::Text(rest[i].1)));
        lemma_tree_of_flat_doc(rest, fd_rest);
        assert(fd[0] == (files[0].0, DocView::Text(files[0].1)));
        assert(spec_tree_of_doc(fd[0].1) == Option::Some(FileTreeView::File(files[0].1)));
        let trees = spec_tree_entries_of_doc(fd)->0;
        let rest_trees = spec_tree_entries_of_doc(fd_rest)->0;
        assert(trees == seq![(files[0].0, FileTreeView::File(files[0].1))] + rest_trees);
        assert(trees[0] == (files[0].0, FileTreeView::File(files[0].1)));
        assert(trees.drop_first() =~= rest_trees);
        assert(spec_flatten(FileTreeView::File(files[0].1)) == seq![
            (Seq::<char>::empty(), files[0].1),
        ]);
        assert(prefix_entries(files[0].0, spec_flatten(FileTreeView::File(files[0].1))) =~= seq![
            (files[0].0, files[0].1),
        ]) by {
            assert(spec_join_path(files[0].0, Seq::<char>::empty()) == files[0].0);
        }
        assert(spec_flatten_entries(trees) == prefix_entries(
            trees[0].0,
            spec_flatten(trees[0].1),
        ) + spec_flatten_entries(trees.drop_first()));
        assert(spec_flatten_entries(trees) =~= files) by {
            assert(seq![(files[0].0, files[0].1)] + rest =~= files);
            assert(files[0] == (files[0].0, files[0].1));
        }
    }
}

/// Serializing a template and reading the document back yields a template
/// with the same pluralized name, context parameters, directory name,
/// flattened files and command; the name is positional metadata attached by
/// the reader.
pub proof fn lemma_template_round_trip(name: Seq<char>, t: TemplateView)
    ensures
        spec_from_doc(name, spec_to_doc(t)) == Option::Some(
            TemplateView {
                name,
                pluralized_name: t.pluralized_name,
                context_parameters: t.context_parameters,
                directory_name: t.directory_name,
                files: t.files,
                command: t.command,
            },
        ),
{
    reveal_strlit("pluralized-name");
    reveal_strlit("context-parameters");
    reveal_strlit("directory-name");
    reveal_strlit("files");
    reveal_strlit("command");
    reveal_with_fuel(spec_lookup, 6);
    let d = spec_to_doc(t);
    let es = d->Entries_0;
    assert(es.len() == 5);
    assert(es.drop_first() =~= seq![es[1], es[2], es[3], es[4]]);
    assert(es.drop_first().drop_first() =~= seq![es[2], es[3], es[4]]);
    assert(es.drop_first().drop_first().drop_first() =~= seq![es[3], es[4]]);
    assert(es.drop_first().drop_first().drop_first().drop_first() =~= seq![es[4]]);
    assert("pluralized-name"@.len() == 15);
    assert("context-parameters"@.len() == 18);
    assert("directory-name"@.len() == 14);
    assert("files"@.len() == 5);
    assert("command"@.len() == 7);
    assert(es[0].0 == "pluralized-name"@ && es[1].0 == "context-parameters"@ && es[2].0
        == "directory-name"@ && es[3].0 == "files"@ && es[4].0 == "command"@);
    assert(spec_lookup(es, "pluralized-name"@) == Option::Some(es[0].1));
    assert(spec_lookup(es, "context-parameters"@) == Option::Some(es[1].1));
    assert(spec_lookup(es, "directory-name"@) == Option::Some(es[2].1));
    assert(spec_lookup(es, "files"@) == Option::Some(es[3].1));
    assert(spec_lookup(es, "command"@) == Option::Some(es[4].1));
    assert(es[0].1 == DocView::Text(t.pluralized_name));
    assert(es[2].1 == DocView::Text(t.directory_name));
    assert(es[4].1 == DocView::Text(t.command));

    let params = es[1].1->Items_0;
    assert(params.len() == t.context_parameters.len());
    assert(forall|i: int|
        0 <= i < params.len() ==> params[i] == DocView::Text(t.context_parameters[i]));
    assert(all_texts(params));
    assert(text_values(params) =~= t.context_parameters);

    let fd = es[3].1->Entries_0;
    assert(fd.len() == t.files.len());
    assert(forall|i: int|
        0 <= i < fd.len() ==> fd[i] == (t.files[i].0, DocView::Text(t.files[i].1)));
    lemma_tree_of_flat_doc(t.files, fd);
    let trees = spec_tree_entries_of_doc(fd)->0;
    assert(spec_tree_of_doc(es[3].1) == Option::Some(FileTreeView::Directory(trees)));
    assert(spec_flatten(FileTreeView::Directory(trees)) == t.files);
    assert(spec_from_entries(name, es) == Option::Some(
        TemplateView {
            name,
            pluralized_name: t.pluralized_name,
            context_parameters: text_values(params),
            directory_name: t.directory_name,
            files: spec_flatten(FileTreeView::Directory(trees)),
            command: t.command,
        },
    ));
}

} // verus!
