use vstd::prelude::*;
use crate::machine::{Phase, Unfolding};
use crate::model::{apply, apply_all, ops_view, Fs, Node, OpModel};
use crate::paths::joined;
use crate::resolve::{is_chain, lemma_walk_chain, walk, LinkTable};
use crate::unfold::{entries_distinct, copy_plan, dir_plan, entry_link, relink_plan, revert_plan};

verus! {

/// Running `a` and then `b` is running `a + b`.
proof fn lemma_apply_all_append(fs: Fs, a: Seq<OpModel>, b: Seq<OpModel>)
    ensures
        apply_all(fs, a + b) == apply_all(apply_all(fs, a), b),
    decreases a.len(),
{
    if a.len() > 0 {
        assert((a + b).drop_first() =~= a.drop_first() + b);
        lemma_apply_all_append(apply(fs, a[0]), a.drop_first(), b);
    }
}

proof fn lemma_apply_one(fs: Fs, a: OpModel)
    ensures
        apply_all(fs, seq![a]) == apply(fs, a),
{
    assert(seq![a].drop_first() =~= Seq::<OpModel>::empty());
    assert(apply_all(apply(fs, a), Seq::<OpModel>::empty()) == apply(fs, a));
}

proof fn lemma_apply_two(fs: Fs, a: OpModel, b: OpModel)
    ensures
        apply_all(fs, seq![a, b]) == apply(apply(fs, a), b),
{
    assert(seq![a, b].drop_first() =~= seq![b]);
    lemma_apply_one(apply(fs, a), b);
}

proof fn lemma_entry_links(fs: Fs, link: Seq<char>, target: Seq<char>, names: Seq<Seq<char>>)
    requires
        entries_distinct(link, names),
    ensures
        ({
            let r = apply_all(fs, names.map_values(|n: Seq<char>| entry_link(link, target, n)));
            &&& forall|i: int|
                0 <= i < names.len() ==> r.index_opt(#[trigger] joined(link, names[i])) == Some(
                    Node::Link(joined(target, names[i])),
                )
            &&& r.index_opt(link) == fs.index_opt(link)
        }),
    decreases names.len(),
{
    let ops = names.map_values(|n: Seq<char>| entry_link(link, target, n));
    if names.len() > 0 {
        let rest = names.drop_first();
        let fs1 = apply(fs, ops[0]);
        assert(ops.drop_first() =~= rest.map_values(|n: Seq<char>| entry_link(link, target, n)));
        assert forall|i: int| 0 <= i < rest.len() implies #[trigger] joined(link, rest[i]) != link by {
            assert(rest[i] == names[i + 1]);
        }
        assert forall|i: int, j: int|
            0 <= i < rest.len() && 0 <= j < rest.len() && i != j implies #[trigger] joined(
                link,
                rest[i],
            ) != #[trigger] joined(link, rest[j]) by {
            assert(rest[i] == names[i + 1]);
            assert(rest[j] == names[j + 1]);
        }
        lemma_entry_links(fs1, link, target, rest);
        let r = apply_all(fs1, ops.drop_first());
        assert(joined(link, names[0]) != link);
        assert forall|i: int|
            0 <= i < names.len() implies r.index_opt(#[trigger] joined(link, names[i])) == Some(
                Node::Link(joined(target, names[i])),
            ) by {
            if i > 0 {
                assert(rest[i - 1] == names[i]);
            } else {
                assert forall|j: int| 0 <= j < rest.len() implies joined(link, rest[j]) != joined(
                    link,
                    names[0],
                ) by {
                    assert(rest[j] == names[j + 1]);
                }
                lemma_entry_links_keep(fs1, link, target, rest, joined(link, names[0]));
            }
        }
    }
}

proof fn lemma_entry_links_keep(
    fs: Fs,
    link: Seq<char>,
    target: Seq<char>,
    names: Seq<Seq<char>>,
    k: Seq<char>,
)
    requires
        forall|j: int| 0 <= j < names.len() ==> joined(link, names[j]) != k,
    ensures
        apply_all(fs, names.map_values(|n: Seq<char>| entry_link(link, target, n))).index_opt(k)
            == fs.index_opt(k),
    decreases names.len(),
{
    let ops = names.map_values(|n: Seq<char>| entry_link(link, target, n));
    if names.len() > 0 {
        let rest = names.drop_first();
        assert(ops.drop_first() =~= rest.map_values(|n: Seq<char>| entry_link(link, target, n)));
        assert forall|j: int| 0 <= j < rest.len() implies joined(link, rest[j]) != k by {
            assert(rest[j] == names[j + 1]);
        }
        lemma_entry_links_keep(apply(fs, ops[0]), link, target, rest, k);
    }
}

/// A link to a regular file, unfolded, is that file's content under the
/// link's name, no longer a link.
pub proof fn law_file_unfold(fs: Fs, link: Seq<char>, target: Seq<char>, content: Seq<u8>)
    requires
        fs.index_opt(target) == Some(Node::File(content)),
        link != target,
    ensures
        apply_all(fs, copy_plan(link, target)).index_opt(link) == Some(Node::File(content)),
{
    let fs1 = apply(fs, OpModel::RemoveLink(link));
    assert(fs1.index_opt(target) == Some(Node::File(content)));
    lemma_apply_two(fs, OpModel::RemoveLink(link), OpModel::CopyFile(target, link));
}

/// `fs` holds a real directory at `link`, and, for each entry name, a link
/// under it to the entry of the same name in `target`.
pub open spec fn dir_unfolded(fs: Fs, link: Seq<char>, target: Seq<char>, names: Seq<Seq<char>>) -> bool {
    &&& fs.index_opt(link) == Some(Node::Dir)
    &&& forall|i: int|
        0 <= i < names.len() ==> fs.index_opt(#[trigger] joined(link, names[i])) == Some(
            Node::Link(joined(target, names[i])),
        )
}

/// A link to a directory, unfolded, is a real directory; each entry found in
/// the target directory has, under the new directory, a link to
/// `target/entry`.
pub proof fn law_dir_unfold(fs: Fs, link: Seq<char>, target: Seq<char>, names: Seq<Seq<char>>)
    requires
        entries_distinct(link, names),
    ensures
        dir_unfolded(apply_all(fs, dir_plan(link, target, names)), link, target, names),
{
    let head = seq![OpModel::RemoveLink(link), OpModel::CreateDir(link)];
    let entries = names.map_values(|n: Seq<char>| entry_link(link, target, n));
    lemma_apply_all_append(fs, head, entries);
    let fs2 = apply_all(fs, head);
    lemma_apply_two(fs, OpModel::RemoveLink(link), OpModel::CreateDir(link));
    assert(fs2.index_opt(link) == Some(Node::Dir));
    lemma_entry_links(fs2, link, target, names);
}

/// In a chain of `N` links (`c` holds `N + 1` paths), unfolding with
/// `0 < k < N` layers leaves a link whose value is the path `k + 1`
/// positions down the chain: the resolved target is itself a link, and the
/// unfold moves one step past it.
pub proof fn law_partial_chain(t: LinkTable, c: Seq<Seq<char>>, k: nat, fs: Fs)
    requires
        is_chain(t, c),
        0 < k < c.len() - 1,
    ensures
        walk(t, c[0], k) == c[k as int],
        t.contains_key(walk(t, c[0], k)),
        walk(t, walk(t, c[0], k), 1) == c[(k + 1) as int],
        apply_all(fs, relink_plan(c[0], walk(t, walk(t, c[0], k), 1))).index_opt(c[0]) == Some(
            Node::Link(c[(k + 1) as int]),
        ),
{
    lemma_walk_chain(t, c, 0, k);
    lemma_walk_chain(t, c, k as int, 1);
    assert(t.contains_key(c[k as int]));
    lemma_apply_two(fs, OpModel::RemoveLink(c[0]), OpModel::CreateLink(c[(k + 1) as int], c[0]));
}

/// In a chain of `N` links to a regular file, unfolding with `k >= N` layers
/// resolves to the source itself and gives a copy of its content.
pub proof fn law_full_chain(t: LinkTable, c: Seq<Seq<char>>, k: nat, fs: Fs, content: Seq<u8>)
    requires
        is_chain(t, c),
        c.len() >= 2,
        k >= c.len() - 1,
        fs.index_opt(c.last()) == Some(Node::File(content)),
        c[0] != c.last(),
    ensures
        walk(t, c[0], k) == c.last(),
        !t.contains_key(walk(t, c[0], k)),
        apply_all(fs, copy_plan(c[0], walk(t, c[0], k))).index_opt(c[0]) == Some(
            Node::File(content),
        ),
{
    lemma_walk_chain(t, c, 0, k);
    law_file_unfold(fs, c[0], c.last(), content);
}

/// Whatever stands at the link's path after a failed unfold, the revert
/// leaves a link there whose value is the link's original one-layer target.
pub proof fn law_revert_restores(
    fs: Fs,
    link: Seq<char>,
    immediate: Seq<char>,
    exists: bool,
    is_file: bool,
    is_dir: bool,
)
    ensures
        apply_all(fs, revert_plan(link, immediate, exists, is_file, is_dir)).index_opt(link) == Some(
            Node::Link(immediate),
        ),
{
    let back = OpModel::CreateLink(immediate, link);
    if exists && is_file {
        lemma_apply_two(fs, OpModel::RemoveFile(link), back);
    } else if exists && is_dir {
        lemma_apply_two(fs, OpModel::RemoveTree(link), back);
    } else {
        lemma_apply_one(fs, back);
    }
}

/// When an unfold fails and its revert runs to the end, the link's path
/// holds a link again, whose value is the one-layer target recorded before
/// anything was changed.
pub proof fn law_unfolding_revert(u: Unfolding, fs: Fs)
    requires
        u.wf(),
        u.phase == Phase::RevertPerform,
    ensures
        apply_all(fs, ops_view(u.ops@)).index_opt(u.link@) == Some(Node::Link(u.immediate@)),
{
    law_revert_restores(fs, u.link@, u.immediate@, u.found.0, u.found.1, u.found.2);
}

} // verus!
