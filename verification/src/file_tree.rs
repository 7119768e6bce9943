use vstd::prelude::*;
use vstd::string::*;

use crate::settings::path_join;

verus! {

/// A nested directory/file declaration: a leaf holds template source text, an
/// interior node holds named sub-trees. Trees are built once when a template
/// definition is read, flattened, and discarded.
#[derive(Debug)]
pub enum FileTree {
    /// A file with template-source content.
    File(String),
    /// A directory: named entries, sibling names unique in any meaningful tree.
    Directory(Vec<(String, FileTree)>),
}

/// The mathematical shape of a [`FileTree`].
pub enum FileTreeView {
    File(Seq<char>),
    Directory(Seq<(Seq<char>, FileTreeView)>),
}

/// The view of a tree, entry by entry.
pub open spec fn tree_view(t: FileTree) -> FileTreeView
    decreases t,
{
    match t {
        FileTree::File(content) => FileTreeView::File(content@),
        FileTree::Directory(entries) => FileTreeView::Directory(entries_view(entries@)),
    }
}

/// The view of a directory's entry list.
pub open spec fn entries_view(es: Seq<(String, FileTree)>) -> Seq<(Seq<char>, FileTreeView)>
    decreases es,
{
    if es.len() == 0 {
        Seq::empty()
    } else {
        seq![(es[0].0@, tree_view(es[0].1))] + entries_view(es.drop_first())
    }
}

impl View for FileTree {
    type V = FileTreeView;

    open spec fn view(&self) -> FileTreeView {
        tree_view(*self)
    }
}

/// Entry views line up with the entries, index by index.
pub proof fn lemma_entries_view(es: Seq<(String, FileTree)>)
    ensures
        entries_view(es).len() == es.len(),
        forall|i: int|
            0 <= i < es.len() ==> entries_view(es)[i] == (es[i].0@, tree_view(es[i].1)),
    decreases es,
{
    if es.len() > 0 {
        lemma_entries_view(es.drop_first());
        assert forall|i: int| 0 <= i < es.len() implies entries_view(es)[i] == (
            es[i].0@,
            tree_view(es[i].1),
        ) by {
            if i > 0 {
                assert(es.drop_first()[i - 1] == es[i]);
            }
        }
    }
}

/// `name` and `sub` joined by `/`, except that an empty `sub` leaves the name
/// alone: the path of a leaf relative to the node `name` names.
pub open spec fn spec_join_path(name: Seq<char>, sub: Seq<char>) -> Seq<char> {
    if sub.len() == 0 {
        name
    } else {
        name + seq!['/'] + sub
    }
}

/// Every key of `m` prefixed with `name` as by [`spec_join_path`].
pub open spec fn prefix_entries(name: Seq<char>, m: Seq<(Seq<char>, Seq<char>)>) -> Seq<
    (Seq<char>, Seq<char>),
> {
    m.map_values(|p: (Seq<char>, Seq<char>)| (spec_join_path(name, p.0), p.1))
}

/// The flattened form of a tree: one `(relative path, content)` pair per leaf.
/// A bare file has the empty path; a directory contributes each sub-tree's
/// pairs with the entry name joined in front.
pub open spec fn spec_flatten(t: FileTreeView) -> Seq<(Seq<char>, Seq<char>)>
    decreases t,
{
    match t {
        FileTreeView::File(content) => seq![(Seq::<char>::empty(), content)],
        FileTreeView::Directory(es) => spec_flatten_entries(es),
    }
}

/// The flattened forms of a directory's entries, concatenated in order.
pub open spec fn spec_flatten_entries(es: Seq<(Seq<char>, FileTreeView)>) -> Seq<
    (Seq<char>, Seq<char>),
>
    decreases es,
{
    if es.len() == 0 {
        Seq::empty()
    } else {
        prefix_entries(es[0].0, spec_flatten(es[0].1)) + spec_flatten_entries(es.drop_first())
    }
}

/// How many `File` leaves a tree has.
pub open spec fn leaf_count(t: FileTreeView) -> nat
    decreases t,
{
    match t {
        FileTreeView::File(_) => 1,
        FileTreeView::Directory(es) => leaf_count_entries(es),
    }
}

/// How many `File` leaves a directory's entries hold together.
pub open spec fn leaf_count_entries(es: Seq<(Seq<char>, FileTreeView)>) -> nat
    decreases es,
{
    if es.len() == 0 {
        0
    } else {
        leaf_count(es[0].1) + leaf_count_entries(es.drop_first())
    }
}

/// An entry name that can serve as a path segment: non-empty and without `/`.
pub open spec fn name_ok(n: Seq<char>) -> bool {
    n.len() > 0 && forall|i: int| 0 <= i < n.len() ==> n[i] != '/'
}

/// A well-formed tree: in every directory the entry names are non-empty,
/// free of `/`, and pairwise distinct.
pub open spec fn spec_wf(t: FileTreeView) -> bool
    decreases t,
{
    match t {
        FileTreeView::File(_) => true,
        FileTreeView::Directory(es) => spec_wf_entries(es),
    }
}

/// Well-formedness of a directory's entry list.
pub open spec fn spec_wf_entries(es: Seq<(Seq<char>, FileTreeView)>) -> bool
    decreases es,
{
    (forall|i: int| 0 <= i < es.len() ==> name_ok(#[trigger] es[i].0)) && (forall|i: int, j: int|
        0 <= i < j < es.len() ==> es[i].0 != es[j].0) && (forall|i: int|
        0 <= i < es.len() ==> spec_wf(#[trigger] es[i].1))
}

/// No two pairs of `m` share a key.
pub open spec fn unique_keys(m: Seq<(Seq<char>, Seq<char>)>) -> bool {
    forall|i: int, j: int| 0 <= i < j < m.len() ==> m[i].0 != m[j].0
}

/// `key` is some entry's name joined with a remainder.
pub open spec fn key_from(es: Seq<(Seq<char>, FileTreeView)>, key: Seq<char>) -> bool {
    exists|k: int, w: Seq<char>|
        0 <= k < es.len() && key == #[trigger] spec_join_path(es[k].0, w)
}

/// Every key of `m` comes from some entry of `es`.
pub open spec fn all_keys_joined(
    es: Seq<(Seq<char>, FileTreeView)>,
    m: Seq<(Seq<char>, Seq<char>)>,
) -> bool {
    forall|i: int| 0 <= i < m.len() ==> key_from(es, #[trigger] m[i].0)
}

/// Joining the same segment-safe name with two remainders is injective in the
/// remainder.
pub proof fn lemma_join_inj(a: Seq<char>, x: Seq<char>, y: Seq<char>)
    requires
        name_ok(a),
        spec_join_path(a, x) == spec_join_path(a, y),
    ensures
        x == y,
{
    if x.len() == 0 && y.len() == 0 {
        assert(x =~= y);
    } else if x.len() == 0 {
        assert(a.len() == a.len() + 1 + y.len());
    } else if y.len() == 0 {
        assert(a.len() + 1 + x.len() == a.len());
    } else {
        let s = a + seq!['/'] + x;
        let u = a + seq!['/'] + y;
        assert(s == u);
        assert(s.len() == a.len() + 1 + x.len());
        assert(u.len() == a.len() + 1 + y.len());
        assert(x.len() == y.len());
        assert forall|i: int| 0 <= i < x.len() implies x[i] == y[i] by {
            assert(s[a.len() + 1 + i] == x[i]);
            assert(s[a.len() + 1 + i] == y[i]);
        }
        assert(x =~= y);
    }
}

/// Keys joined from distinct segment-safe names never collide, whatever the
/// remainders are.
pub proof fn lemma_join_disjoint(a: Seq<char>, b: Seq<char>, x: Seq<char>, y: Seq<char>)
    requires
        name_ok(a),
        name_ok(b),
        a != b,
    ensures
        spec_join_path(a, x) != spec_join_path(b, y),
{
    if spec_join_path(a, x) == spec_join_path(b, y) {
        if x.len() == 0 && y.len() == 0 {
            assert(a =~= b);
        } else if x.len() == 0 {
            // a == b + '/' + y, so a would contain '/'
            let s = b + seq!['/'] + y;
            assert(a[b.len() as int] == s[b.len() as int]);
            assert(a[b.len() as int] == '/');
        } else if y.len() == 0 {
            let s = a + seq!['/'] + x;
            assert(b[a.len() as int] == s[a.len() as int]);
            assert(b[a.len() as int] == '/');
        } else {
            let s = a + seq!['/'] + x;
            let u = b + seq!['/'] + y;
            if a.len() == b.len() {
                assert forall|i: int| 0 <= i < a.len() implies a[i] == b[i] by {
                    assert(s[i] == a[i]);
                    assert(u[i] == b[i]);
                }
                assert(a =~= b);
            } else if a.len() < b.len() {
                assert(s[a.len() as int] == '/');
                assert(u[a.len() as int] == b[a.len() as int]);
            } else {
                assert(u[b.len() as int] == '/');
                assert(s[b.len() as int] == a[b.len() as int]);
            }
        }
    }
}

/// Flattening yields exactly one pair per leaf.
pub proof fn lemma_flatten_len(t: FileTreeView)
    ensures
        spec_flatten(t).len() == leaf_count(t),
    decreases t,
{
    match t {
        FileTreeView::File(_) => {},
        FileTreeView::Directory(es) => {
            lemma_flatten_entries_len(es);
        },
    }
}

/// The entries of a directory contribute exactly their leaves, summed.
pub proof fn lemma_flatten_entries_len(es: Seq<(Seq<char>, FileTreeView)>)
    ensures
        spec_flatten_entries(es).len() == leaf_count_entries(es),
    decreases es,
{
    if es.len() > 0 {
        lemma_flatten_len(es[0].1);
        lemma_flatten_entries_len(es.drop_first());
    }
}

/// Flattening a well-formed tree yields pairwise distinct keys.
pub proof fn lemma_flatten_unique(t: FileTreeView)
    requires
        spec_wf(t),
    ensures
        unique_keys(spec_flatten(t)),
    decreases t,
{
    match t {
        FileTreeView::File(_) => {},
        FileTreeView::Directory(es) => {
            lemma_flatten_entries_unique(es);
        },
    }
}

/// Flattening the entries of a well-formed directory yields pairwise distinct
/// keys, each of which starts with the name of the entry it came from.
pub proof fn lemma_flatten_entries_unique(es: Seq<(Seq<char>, FileTreeView)>)
    requires
        spec_wf_entries(es),
    ensures
        unique_keys(spec_flatten_entries(es)),
        all_keys_joined(es, spec_flatten_entries(es)),
    decreases es,
{
    if es.len() > 0 {
        let a = es[0].0;
        let flat0 = spec_flatten(es[0].1);
        let head = prefix_entries(a, flat0);
        let rest = es.drop_first();
        let tail = spec_flatten_entries(rest);
        let whole = spec_flatten_entries(es);
        assert(whole == head + tail);

        lemma_flatten_unique(es[0].1);
        assert(spec_wf_entries(rest)) by {
            assert(forall|i: int| 0 <= i < rest.len() ==> rest[i] == es[i + 1]);
        }
        lemma_flatten_entries_unique(rest);

        // keys within the head are distinct
        assert forall|i: int, j: int| 0 <= i < j < head.len() implies head[i].0 != head[j].0 by {
            if head[i].0 == head[j].0 {
                lemma_join_inj(a, flat0[i].0, flat0[j].0);
            }
        }
        // every head key comes from entry 0, every tail key from a later entry
        assert forall|i: int| 0 <= i < whole.len() implies key_from(es, whole[i].0) by {
            if i < head.len() {
                assert(whole[i] == head[i]);
                assert(whole[i].0 == spec_join_path(es[0].0, flat0[i].0));
            } else {
                let j = i - head.len();
                assert(whole[i] == tail[j]);
                assert(key_from(rest, tail[j].0));
                let (k, w) = choose|k: int, w: Seq<char>|
                    0 <= k < rest.len() && tail[j].0 == #[trigger] spec_join_path(rest[k].0, w);
                assert(rest[k] == es[k + 1]);
                assert(whole[i].0 == spec_join_path(es[k + 1].0, w));
            }
        }
        // keys across head and tail differ because the names differ
        assert forall|i: int, j: int| 0 <= i < j < whole.len() implies whole[i].0 != whole[j].0 by {
            if i < head.len() && j >= head.len() {
                let jj = j - head.len();
                assert(whole[i] == head[i]);
                assert(whole[j] == tail[jj]);
                assert(key_from(rest, tail[jj].0));
                let (k, w) = choose|k: int, w: Seq<char>|
                    0 <= k < rest.len() && tail[jj].0 == #[trigger] spec_join_path(rest[k].0, w);
                assert(rest[k] == es[k + 1]);
                assert(es[0].0 != es[k + 1].0);
                lemma_join_disjoint(es[0].0, es[k + 1].0, flat0[i].0, w);
            } else if i >= head.len() {
                assert(whole[i] == tail[i - head.len()]);
                assert(whole[j] == tail[j - head.len()]);
            } else {
                assert(whole[i] == head[i]);
                assert(whole[j] == head[j]);
            }
        }
    }
}

/// The views of a list of `(path, content)` string pairs.
pub open spec fn pairs_view(s: Seq<(String, String)>) -> Seq<(Seq<char>, Seq<char>)> {
    s.map_values(|p: (String, String)| (p.0@, p.1@))
}

/// Viewing commutes with appending one pair.
pub proof fn lemma_pairs_view_push(s: Seq<(String, String)>, p: (String, String))
    ensures
        pairs_view(s.push(p)) == pairs_view(s).push((p.0@, p.1@)),
{
    assert(pairs_view(s.push(p)) =~= pairs_view(s).push((p.0@, p.1@)));
}

/// Joins an entry name in front of a relative sub-path; an empty sub-path is
/// the entry itself.
pub fn join_path_segment(name: &str, sub: &str) -> (r: String)
    ensures
        r@ == spec_join_path(name@, sub@),
{
    if sub.is_empty() {
        name.to_owned()
    } else {
        let r = path_join(name, sub);
        proof {
            assert(r@ =~= spec_join_path(name@, sub@));
        }
        r
    }
}

impl FileTree {
    /// Flattens the tree into `(relative path, content)` pairs, one per leaf:
    /// each path is the `/`-joined list of directory names above the leaf.
    /// For a well-formed tree the paths are pairwise distinct.
    pub fn into_hashmap(self) -> (r: Vec<(String, String)>)
        ensures
            pairs_view(r@) == spec_flatten(self@),
            r@.len() == leaf_count(self@),
            spec_wf(self@) ==> unique_keys(pairs_view(r@)),
    {
        let r = flatten_tree(&self);
        proof {
            lemma_flatten_len(self@);
            if spec_wf(self@) {
                lemma_flatten_unique(self@);
            }
        }
        r
    }
}

/// Flattens a borrowed tree; see [`FileTree::into_hashmap`].
fn flatten_tree(t: &FileTree) -> (r: Vec<(String, String)>)
    ensures
        pairs_view(r@) == spec_flatten(t@),
    decreases *t,
{
    match t {
        FileTree::File(content) => {
            let mut r: Vec<(String, String)> = Vec::new();
            r.push((String::new(), content.clone()));
            proof {
                assert(pairs_view(r@) =~= spec_flatten(t@));
            }
            r
        },
        FileTree::Directory(entries) => {
            let ghost ev = entries_view(entries@);
            proof {
                lemma_entries_view(entries@);
            }
            let mut r: Vec<(String, String)> = Vec::new();
            let n = entries.len();
            let mut i: usize = 0;
            proof {
                assert(ev.skip(0) =~= ev);
            }
            while i < n
                invariant
                    i <= n,
                    n == entries@.len(),
                    *t == FileTree::Directory(*entries),
                    ev == entries_view(entries@),
                    ev.len() == n,
                    forall|k: int|
                        0 <= k < n ==> ev[k] == (entries@[k].0@, tree_view(entries@[k].1)),
                    pairs_view(r@) + spec_flatten_entries(ev.skip(i as int))
                        == spec_flatten_entries(ev),
                decreases n - i,
            {
                let name: &String = &entries[i].0;
                let sub: &FileTree = &entries[i].1;
                proof {
                    assert(*t == FileTree::Directory(*entries));
                    assert(decreases_to!(*t => t->Directory_0));
                    assert(decreases_to!(t->Directory_0 => t->Directory_0@));
                    assert(decreases_to!(t->Directory_0@ => t->Directory_0@[i as int]));
                    assert(decreases_to!(t->Directory_0@[i as int] => t->Directory_0@[i as int].1));
                    assert(t->Directory_0@[i as int].1 == entries@[i as int].1);
                    assert(decreases_to!(*t => entries@[i as int].1));
                }
                let sub_flat = flatten_tree(sub);
                let ghost fm = spec_flatten(sub@);
                let ghost prefixed = prefix_entries(name@, fm);
                let ghost r_before = pairs_view(r@);
                let m = sub_flat.len();
                let mut j: usize = 0;
                proof {
                    assert(prefixed.take(0) =~= Seq::<(Seq<char>, Seq<char>)>::empty());
                    assert(r_before + prefixed.take(0) =~= r_before);
                }
                while j < m
                    invariant
                        j <= m,
                        m == sub_flat@.len(),
                        pairs_view(sub_flat@) == fm,
                        prefixed == prefix_entries(name@, fm),
                        pairs_view(r@) == r_before + prefixed.take(j as int),
                    decreases m - j,
                {
                    let rp = join_path_segment(name.as_str(), sub_flat[j].0.as_str());
                    let rc = sub_flat[j].1.clone();
                    proof {
                        assert(pairs_view(sub_flat@)[j as int] == (
                            sub_flat@[j as int].0@,
                            sub_flat@[j as int].1@,
                        ));
                    }
                    let ghost r_pre = r@;
                    r.push((rp, rc));
                    proof {
                        lemma_pairs_view_push(r_pre, (rp, rc));
                        assert(prefixed[j as int] == (
                            spec_join_path(name@, fm[j as int].0),
                            fm[j as int].1,
                        ));
                        assert((rp@, rc@) == prefixed[j as int]);
                        assert(prefixed.take(j + 1) =~= prefixed.take(j as int).push(
                            prefixed[j as int],
                        ));
                        assert(pairs_view(r@) =~= r_before + prefixed.take(j + 1));
                    }
                    j += 1;
                }
                proof {
                    assert(prefixed.take(m as int) =~= prefixed);
                    assert(ev.skip(i as int)[0] == ev[i as int]);
                    assert(ev.skip(i as int).drop_first() =~= ev.skip(i + 1));
                    assert(spec_flatten_entries(ev.skip(i as int)) == prefix_entries(
                        ev[i as int].0,
                        spec_flatten(ev[i as int].1),
                    ) + spec_flatten_entries(ev.skip(i + 1)));
                    assert(prefixed == prefix_entries(ev[i as int].0, spec_flatten(ev[i as int].1)));
                    assert(pairs_view(r@) + spec_flatten_entries(ev.skip(i + 1))
                        =~= spec_flatten_entries(ev));
                }
                i += 1;
            }
            proof {
                assert(ev.skip(n as int) =~= Seq::<(Seq<char>, FileTreeView)>::empty());
                assert(pairs_view(r@) =~= spec_flatten_entries(ev));
            }
            r
        },
    }
}

} // verus!
