use vstd::prelude::*;
use vstd::string::*;

use crate::file_tree::{tree_view, FileTree, FileTreeView};

verus! {

/// A structured document: what a persisted template body is made of once the
/// serialization format's text has been read. Strings, lists and string-keyed
/// maps are all a template definition ever holds.
#[derive(Debug)]
pub enum Doc {
    /// A plain string.
    Text(String),
    /// A list of documents.
    Items(Vec<Doc>),
    /// A map with string keys, in order.
    Entries(Vec<(String, Doc)>),
}

/// The mathematical shape of a [`Doc`].
pub enum DocView {
    Text(Seq<char>),
    Items(Seq<DocView>),
    Entries(Seq<(Seq<char>, DocView)>),
}

/// The view of a document.
pub open spec fn doc_view(d: Doc) -> DocView
    decreases d,
{
    match d {
        Doc::Text(s) => DocView::Text(s@),
        Doc::Items(xs) => DocView::Items(docs_view(xs@)),
        Doc::Entries(es) => DocView::Entries(doc_entries_view(es@)),
    }
}

/// The views of a list of documents.
pub open spec fn docs_view(xs: Seq<Doc>) -> Seq<DocView>
    decreases xs,
{
    if xs.len() == 0 {
        Seq::empty()
    } else {
        seq![doc_view(xs[0])] + docs_view(xs.drop_first())
    }
}

/// The views of a document map's entries.
pub open spec fn doc_entries_view(es: Seq<(String, Doc)>) -> Seq<(Seq<char>, DocView)>
    decreases es,
{
    if es.len() == 0 {
        Seq::empty()
    } else {
        seq![(es[0].0@, doc_view(es[0].1))] + doc_entries_view(es.drop_first())
    }
}

impl View for Doc {
    type V = DocView;

    open spec fn view(&self) -> DocView {
        doc_view(*self)
    }
}

/// Document views line up with the documents, index by index.
pub proof fn lemma_docs_view(xs: Seq<Doc>)
    ensures
        docs_view(xs).len() == xs.len(),
        forall|i: int| 0 <= i < xs.len() ==> docs_view(xs)[i] == doc_view(xs[i]),
    decreases xs,
{
    if xs.len() > 0 {
        lemma_docs_view(xs.drop_first());
        assert forall|i: int| 0 <= i < xs.len() implies docs_view(xs)[i] == doc_view(xs[i]) by {
            if i > 0 {
                assert(xs.drop_first()[i - 1] == xs[i]);
            }
        }
    }
}

/// Entry views line up with the entries, index by index.
pub proof fn lemma_doc_entries_view(es: Seq<(String, Doc)>)
    ensures
        doc_entries_view(es).len() == es.len(),
        forall|i: int|
            0 <= i < es.len() ==> doc_entries_view(es)[i] == (es[i].0@, doc_view(es[i].1)),
    decreases es,
{
    if es.len() > 0 {
        lemma_doc_entries_view(es.drop_first());
        assert forall|i: int| 0 <= i < es.len() implies doc_entries_view(es)[i] == (
            es[i].0@,
            doc_view(es[i].1),
        ) by {
            if i > 0 {
                assert(es.drop_first()[i - 1] == es[i]);
            }
        }
    }
}

/// The value under the first entry with the given key, if any.
pub open spec fn spec_lookup(es: Seq<(Seq<char>, DocView)>, key: Seq<char>) -> Option<DocView>
    decreases es,
{
    if es.len() == 0 {
        Option::None
    } else if es[0].0 == key {
        Option::Some(es[0].1)
    } else {
        spec_lookup(es.drop_first(), key)
    }
}

/// Looks up the first entry with the given key.
pub fn doc_lookup<'a>(es: &'a Vec<(String, Doc)>, key: &str) -> (r: Option<&'a Doc>)
    ensures
        match r {
            Option::Some(d) => spec_lookup(doc_entries_view(es@), key@) == Option::Some(doc_view(*d)),
            Option::None => spec_lookup(doc_entries_view(es@), key@) is None,
        },
{
    let ghost ev = doc_entries_view(es@);
    proof {
        lemma_doc_entries_view(es@);
    }
    let owned_key = key.to_owned();
    let n = es.len();
    let mut i: usize = 0;
    proof {
        assert(ev.skip(0) =~= ev);
    }
    while i < n
        invariant
            i <= n,
            n == es@.len(),
            ev == doc_entries_view(es@),
            ev.len() == n,
            owned_key@ == key@,
            forall|k: int| 0 <= k < n ==> ev[k] == (es@[k].0@, doc_view(es@[k].1)),
            spec_lookup(ev, key@) == spec_lookup(ev.skip(i as int), key@),
        decreases n - i,
    {
        if es[i].0 == owned_key {
            proof {
                assert(ev.skip(i as int)[0] == ev[i as int]);
            }
            return Option::Some(&es[i].1);
        }
        proof {
            assert(ev.skip(i as int)[0] == ev[i as int]);
            assert(ev.skip(i as int).drop_first() =~= ev.skip(i + 1));
        }
        i += 1;
    }
    proof {
        assert(ev.skip(n as int) =~= Seq::<(Seq<char>, DocView)>::empty());
    }
    Option::None
}

/// The file tree a document declares: a string is a file's content, a map is
/// a directory of named sub-trees, and a list is no tree at all.
pub open spec fn spec_tree_of_doc(d: DocView) -> Option<FileTreeView>
    decreases d,
{
    match d {
        DocView::Text(s) => Option::Some(FileTreeView::File(s)),
        DocView::Items(_) => Option::None,
        DocView::Entries(es) => match spec_tree_entries_of_doc(es) {
            Option::Some(tes) => Option::Some(FileTreeView::Directory(tes)),
            Option::None => Option::None,
        },
    }
}

/// The trees a document map's entries declare, all or nothing.
pub open spec fn spec_tree_entries_of_doc(es: Seq<(Seq<char>, DocView)>) -> Option<
    Seq<(Seq<char>, FileTreeView)>,
>
    decreases es,
{
    if es.len() == 0 {
        Option::Some(Seq::empty())
    } else {
        match spec_tree_of_doc(es[0].1) {
            Option::Some(t) => match spec_tree_entries_of_doc(es.drop_first()) {
                Option::Some(rest) => Option::Some(seq![(es[0].0, t)] + rest),
                Option::None => Option::None,
            },
            Option::None => Option::None,
        }
    }
}

/// Reads a document as a nested file-tree declaration.
pub fn tree_of_doc(d: &Doc) -> (r: Option<FileTree>)
    ensures
        match r {
            Option::Some(t) => spec_tree_of_doc(d@) == Option::Some(tree_view(t)),
            Option::None => spec_tree_of_doc(d@) is None,
        },
    decreases *d,
{
    match d {
        Doc::Text(s) => Option::Some(FileTree::File(s.clone())),
        Doc::Items(_) => Option::None,
        Doc::Entries(es) => {
            let ghost dv = doc_entries_view(es@);
            proof {
                lemma_doc_entries_view(es@);
            }
            let mut built: Vec<(String, FileTree)> = Vec::new();
            let n = es.len();
            let mut i: usize = 0;
            proof {
                assert(dv.skip(0) =~= dv);
                assert(crate::file_tree::entries_view(built@)
                    =~= Seq::<(Seq<char>, FileTreeView)>::empty());
            }
            while i < n
                invariant
                    i <= n,
                    n == es@.len(),
                    *d == Doc::Entries(*es),
                    dv == doc_entries_view(es@),
                    dv.len() == n,
                    forall|k: int| 0 <= k < n ==> dv[k] == (es@[k].0@, doc_view(es@[k].1)),
                    crate::file_tree::entries_view(built@).len() == i,
                    match spec_tree_entries_of_doc(dv.skip(i as int)) {
                        Option::Some(rest) => spec_tree_entries_of_doc(dv) == Option::Some(
                            crate::file_tree::entries_view(built@) + rest,
                        ),
                        Option::None => spec_tree_entries_of_doc(dv) is None,
                    },
                decreases n - i,
            {
                proof {
                    assert(*d == Doc::Entries(*es));
                    assert(decreases_to!(*d => d->Entries_0));
                    assert(decreases_to!(d->Entries_0 => d->Entries_0@));
                    assert(decreases_to!(d->Entries_0@ => d->Entries_0@[i as int]));
                    assert(decreases_to!(d->Entries_0@[i as int] => d->Entries_0@[i as int].1));
                    assert(d->Entries_0@[i as int].1 == es@[i as int].1);
                    assert(decreases_to!(*d => es@[i as int].1));
                }
                let sub = tree_of_doc(&es[i].1);
                proof {
                    assert(dv.skip(i as int)[0] == dv[i as int]);
                    assert(dv.skip(i as int).drop_first() =~= dv.skip(i + 1));
                }
                match sub {
                    Option::None => {
                        return Option::None;
                    },
                    Option::Some(t) => {
                        let ghost built_pre = built@;
                        built.push((es[i].0.clone(), t));
                        proof {
                            crate::file_tree::lemma_entries_view(built_pre);
                            crate::file_tree::lemma_entries_view(built@);
                            assert(built@ == built_pre.push((es@[i as int].0, t)));
                            assert(crate::file_tree::entries_view(built@)
                                =~= crate::file_tree::entries_view(built_pre).push(
                                (es@[i as int].0@, tree_view(t)),
                            ));
                            match spec_tree_entries_of_doc(dv.skip(i + 1)) {
                                Option::Some(rest) => {
                                    assert(spec_tree_entries_of_doc(dv.skip(i as int))
                                        == Option::Some(
                                        seq![(dv[i as int].0, tree_view(t))] + rest,
                                    ));
                                    assert(crate::file_tree::entries_view(built_pre) + (
                                    seq![(dv[i as int].0, tree_view(t))] + rest)
                                        =~= crate::file_tree::entries_view(built@) + rest);
                                },
                                Option::None => {},
                            }
                        }
                        i += 1;
                    },
                }
            }
            proof {
                assert(dv.skip(n as int) =~= Seq::<(Seq<char>, DocView)>::empty());
                assert(crate::file_tree::entries_view(built@) + Seq::<
                    (Seq<char>, FileTreeView),
                >::empty() =~= crate::file_tree::entries_view(built@));
            }
            Option::Some(FileTree::Directory(built))
        },
    }
}

#[verifier::external_type_specification]
#[verifier::external_body]
pub struct ExYamlValue(serde_yaml::Value);

/// Relies on serde_yaml's `Value` constructors: builds the YAML value with
/// the same strings, lists and string-keyed mappings as the document.
#[verifier::external_body]
fn yaml_of_doc(d: &Doc) -> serde_yaml::Value {
    match d {
        Doc::Text(s) => serde_yaml::Value::String(s.clone()),
        Doc::Items(xs) => serde_yaml::Value::Sequence(xs.iter().map(yaml_of_doc).collect()),
        Doc::Entries(es) => serde_yaml::Value::Mapping(
            es.iter().map(
                |e| (serde_yaml::Value::String(e.0.clone()), yaml_of_doc(&e.1)),
            ).collect(),
        ),
    }
}

/// Relies on serde_yaml's `Value` variants: reads strings, sequences and
/// string-keyed mappings back into a document, one arm per variant; any
/// other shape is no document.
#[verifier::external_body]
fn doc_of_yaml(v: &serde_yaml::Value) -> Option<Doc> {
    match v {
        serde_yaml::Value::String(s) => Some(Doc::Text(s.clone())),
        serde_yaml::Value::Sequence(xs) => {
            xs.iter().map(doc_of_yaml).collect::<Option<Vec<Doc>>>().map(Doc::Items)
        },
        serde_yaml::Value::Mapping(m) => m.iter().map(|(k, val)| match k {
            serde_yaml::Value::String(ks) => doc_of_yaml(val).map(|d| (ks.clone(), d)),
            _ => None,
        }).collect::<Option<Vec<(String, Doc)>>>().map(Doc::Entries),
        _ => None,
    }
}

/// The YAML text a document serializes to, or the serializer's message when
/// it refuses; a function of the document alone.
pub uninterp spec fn yaml_text_of(d: DocView) -> Result<Seq<char>, Seq<char>>;

/// What YAML text parses to: a document, `None` for YAML whose values are
/// not all strings, sequences and string-keyed mappings, or the parser's
/// message on text that is no YAML; a function of the text alone.
pub uninterp spec fn doc_of_yaml_text(s: Seq<char>) -> Result<Option<DocView>, Seq<char>>;

/// Relies on serde_yaml::to_string: serialization of a value is a function
/// of the value alone, and the value here is built from the document alone.
#[verifier::external_body]
fn yaml_emit_doc(d: &Doc) -> (r: Result<String, String>)
    ensures
        match r {
            Result::Ok(s) => yaml_text_of(d@) == Result::<Seq<char>, Seq<char>>::Ok(s@),
            Result::Err(m) => yaml_text_of(d@) == Result::<Seq<char>, Seq<char>>::Err(m@),
        },
{
    serde_yaml::to_string(&yaml_of_doc(d)).map_err(|e| e.to_string())
}

/// Relies on serde_yaml::from_str: the parse of YAML text is a function of
/// the text alone, and the parsed value converts to a document or to `None`
/// by its shape alone.
#[verifier::external_body]
fn yaml_parse_doc(text: &str) -> (r: Result<Option<Doc>, String>)
    ensures
        match r {
            Result::Ok(Option::Some(d)) => doc_of_yaml_text(text@) == Result::<
                Option<DocView>,
                Seq<char>,
            >::Ok(Option::Some(d@)),
            Result::Ok(Option::None) => doc_of_yaml_text(text@) == Result::<
                Option<DocView>,
                Seq<char>,
            >::Ok(Option::None),
            Result::Err(m) => doc_of_yaml_text(text@) == Result::<
                Option<DocView>,
                Seq<char>,
            >::Err(m@),
        },
{
    match serde_yaml::from_str::<serde_yaml::Value>(text) {
        Ok(v) => Ok(doc_of_yaml(&v)),
        Err(e) => Err(e.to_string()),
    }
}

impl Doc {
    /// Serializes the document as YAML text.
    pub fn to_yaml_string(&self) -> (r: Result<String, String>)
        ensures
            match r {
                Result::Ok(s) => yaml_text_of(self@) == Result::<Seq<char>, Seq<char>>::Ok(s@),
                Result::Err(m) => yaml_text_of(self@) == Result::<Seq<char>, Seq<char>>::Err(m@),
            },
    {
        yaml_emit_doc(self)
    }

    /// Parses YAML text into a document; an error message on text that is no
    /// YAML, `Ok(None)` on YAML whose values are not all strings, sequences
    /// and string-keyed mappings.
    pub fn from_yaml_str(text: &str) -> (r: Result<Option<Doc>, String>)
        ensures
            match r {
                Result::Ok(Option::Some(d)) => doc_of_yaml_text(text@) == Result::<
                    Option<DocView>,
                    Seq<char>,
                >::Ok(Option::Some(d@)),
                Result::Ok(Option::None) => doc_of_yaml_text(text@) == Result::<
                    Option<DocView>,
                    Seq<char>,
                >::Ok(Option::None),
                Result::Err(m) => doc_of_yaml_text(text@) == Result::<
                    Option<DocView>,
                    Seq<char>,
                >::Err(m@),
            },
    {
        yaml_parse_doc(text)
    }
}

} // verus!
