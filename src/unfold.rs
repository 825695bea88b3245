use vstd::prelude::*;
use crate::errors::{Failure, UnfoldError};
use crate::model::{ops_view, Op, OpModel};
use crate::paths::{join_path, joined};

verus! {

/// The kind of the node that a resolved target names, links not followed.
#[derive(Clone, Copy, Debug, PartialEq, Eq, Structural)]
pub enum NodeKind {
    Symlink,
    File,
    Dir,
    /// Missing, or of some other kind.
    Other,
}

/// What replaces a link, by the kind of its resolved target.
#[derive(Clone, Copy, Debug, PartialEq, Eq, Structural)]
pub enum Replacement {
    /// A link one step further along the chain.
    Relink,
    /// A copy of the target file.
    Copy,
    /// A directory of links to the target directory's entries.
    DirOfLinks,
}

/// Checks that `path` is a symbolic link that does not dangle, from whether
/// it is a link and whether its target exists (`None`: that could not be told).
pub fn validate(path: &String, is_link: bool, exists: Option<bool>) -> (r: Result<(), UnfoldError>)
    ensures
        !is_link ==> r == Err::<(), UnfoldError>(UnfoldError::NotASymlink(*path)),
        is_link && exists != Some(true) ==> r == Err::<(), UnfoldError>(
            UnfoldError::BrokenSymlink(*path),
        ),
        r is Ok <==> is_link && exists == Some(true),
{
    if !is_link {
        Err(UnfoldError::NotASymlink(path.clone()))
    } else {
        match exists {
            Some(true) => Ok(()),
            _ => Err(UnfoldError::BrokenSymlink(path.clone())),
        }
    }
}

/// The replacement for a link whose resolved target has kind `kind`.
pub open spec fn replacement_of(kind: NodeKind) -> Option<Replacement> {
    match kind {
        NodeKind::Symlink => Some(Replacement::Relink),
        NodeKind::File => Some(Replacement::Copy),
        NodeKind::Dir => Some(Replacement::DirOfLinks),
        NodeKind::Other => None,
    }
}

/// Chooses how the link at `link` is replaced, from the kind of its
/// resolved target; a target of no kind that can be unfolded is an error.
pub fn choose_replacement(link: &String, kind: NodeKind) -> (r: Result<Replacement, UnfoldError>)
    ensures
        match replacement_of(kind) {
            Some(rep) => r == Ok::<Replacement, UnfoldError>(rep),
            None => r == Err::<Replacement, UnfoldError>(UnfoldError::UnfoldableTarget(*link)),
        },
{
    match kind {
        NodeKind::Symlink => Ok(Replacement::Relink),
        NodeKind::File => Ok(Replacement::Copy),
        NodeKind::Dir => Ok(Replacement::DirOfLinks),
        NodeKind::Other => Err(UnfoldError::UnfoldableTarget(link.clone())),
    }
}

/// The operations that replace the link at `link` by a link to `next`, the
/// node one step past its resolved target.
pub open spec fn relink_plan(link: Seq<char>, next: Seq<char>) -> Seq<OpModel> {
    seq![OpModel::RemoveLink(link), OpModel::CreateLink(next, link)]
}

pub fn relink_ops(link: &String, next: &String) -> (r: Vec<Op>)
    ensures
        ops_view(r@) == relink_plan(link@, next@),
{
    let r = vec![Op::RemoveLink(link.clone()), Op::CreateLink(next.clone(), link.clone())];
    assert(ops_view(r@) =~= relink_plan(link@, next@));
    r
}

/// The operations that replace the link at `link` by a copy of the file `target`.
pub open spec fn copy_plan(link: Seq<char>, target: Seq<char>) -> Seq<OpModel> {
    seq![OpModel::RemoveLink(link), OpModel::CopyFile(target, link)]
}

pub fn copy_ops(link: &String, target: &String) -> (r: Vec<Op>)
    ensures
        ops_view(r@) == copy_plan(link@, target@),
{
    let r = vec![Op::RemoveLink(link.clone()), Op::CopyFile(target.clone(), link.clone())];
    assert(ops_view(r@) =~= copy_plan(link@, target@));
    r
}

/// The link that stands for the entry `name` of the directory `target`
/// inside the new directory at `link`.
pub open spec fn entry_link(link: Seq<char>, target: Seq<char>, name: Seq<char>) -> OpModel {
    OpModel::CreateLink(joined(target, name), joined(link, name))
}

/// The operations that replace the link at `link` by a directory whose
/// entries are links to the entries `names` of the directory `target`.
pub open spec fn dir_plan(link: Seq<char>, target: Seq<char>, names: Seq<Seq<char>>) -> Seq<OpModel> {
    seq![OpModel::RemoveLink(link), OpModel::CreateDir(link)] + names.map_values(
        |n: Seq<char>| entry_link(link, target, n),
    )
}

pub fn dir_ops(link: &String, target: &String, names: &Vec<String>) -> (r: Vec<Op>)
    ensures
        ops_view(r@) == dir_plan(link@, target@, names@.map_values(|n: String| n@)),
{
    let mut r = vec![Op::RemoveLink(link.clone()), Op::CreateDir(link.clone())];
    let ghost head = seq![OpModel::RemoveLink(link@), OpModel::CreateDir(link@)];
    assert(ops_view(r@) =~= head);
    let mut i: usize = 0;
    while i < names.len()
        invariant
            0 <= i <= names.len(),
            ops_view(r@) =~= head + names@.take(i as int).map_values(
                |n: String| entry_link(link@, target@, n@),
            ),
        decreases names.len() - i,
    {
        let name = &names[i];
        let op = Op::CreateLink(join_path(target, name), join_path(link, name));
        let ghost prev = r@;
        r.push(op);
        assert(ops_view(r@) =~= ops_view(prev).push(entry_link(link@, target@, name@)));
        assert(names@.take(i + 1) =~= names@.take(i as int).push(names@[i as int]));
        i = i + 1;
    }
    assert(names@.take(names.len() as int) =~= names@);
    assert(names@.map_values(|n: String| entry_link(link@, target@, n@)) =~= names@.map_values(
        |n: String| n@,
    ).map_values(|n: Seq<char>| entry_link(link@, target@, n)));
    r
}

/// The entry links of a directory at `link` over `names` have distinct paths,
/// none of them `link` itself.
pub open spec fn entries_distinct(link: Seq<char>, names: Seq<Seq<char>>) -> bool {
    &&& forall|i: int| 0 <= i < names.len() ==> #[trigger] joined(link, names[i]) != link
    &&& forall|i: int, j: int|
        0 <= i < names.len() && 0 <= j < names.len() && i != j ==> #[trigger] joined(link, names[i])
            != #[trigger] joined(link, names[j])
}

/// Whether the entries `names` give, under a directory at `link`, paths
/// that differ from each other and from `link` itself.
pub fn entry_paths_distinct(link: &String, names: &Vec<String>) -> (r: bool)
    ensures
        r == entries_distinct(link@, names@.map_values(|n: String| n@)),
{
    let ghost ns = names@.map_values(|n: String| n@);
    let mut paths: Vec<String> = Vec::new();
    let mut i: usize = 0;
    while i < names.len()
        invariant
            0 <= i <= names.len(),
            ns == names@.map_values(|n: String| n@),
            paths@.len() == i,
            forall|k: int| 0 <= k < i ==> #[trigger] paths@[k]@ == joined(link@, ns[k]),
            forall|k: int| 0 <= k < i ==> #[trigger] joined(link@, ns[k]) != link@,
            forall|k: int, l: int|
                0 <= k < i && 0 <= l < i && k != l ==> #[trigger] joined(link@, ns[k])
                    != #[trigger] joined(link@, ns[l]),
        decreases names.len() - i,
    {
        let p = join_path(link, &names[i]);
        assert(ns[i as int] == names@[i as int]@);
        if p == *link {
            return false;
        }
        let mut j: usize = 0;
        while j < i
            invariant
                0 <= j <= i,
                i < names.len(),
                ns == names@.map_values(|n: String| n@),
                p@ == joined(link@, ns[i as int]),
                paths@.len() == i,
                forall|k: int| 0 <= k < i ==> #[trigger] paths@[k]@ == joined(link@, ns[k]),
                forall|l: int| 0 <= l < j ==> joined(link@, ns[l]) != p@,
            decreases i - j,
        {
            if paths[j] == p {
                assert(joined(link@, ns[j as int]) == joined(link@, ns[i as int]));
                return false;
            }
            j = j + 1;
        }
        paths.push(p);
        i = i + 1;
        assert forall|k: int| 0 <= k < i implies #[trigger] paths@[k]@ == joined(link@, ns[k]) by {
        }
    }
    true
}

/// The operations that clear what stands at `link`, given whether it exists
/// and is a file or a directory, and put back a link to `immediate`, the
/// link's original one-layer target.
pub open spec fn revert_plan(
    link: Seq<char>,
    immediate: Seq<char>,
    exists: bool,
    is_file: bool,
    is_dir: bool,
) -> Seq<OpModel> {
    if exists && is_file {
        seq![OpModel::RemoveFile(link), OpModel::CreateLink(immediate, link)]
    } else if exists && is_dir {
        seq![OpModel::RemoveTree(link), OpModel::CreateLink(immediate, link)]
    } else {
        seq![OpModel::CreateLink(immediate, link)]
    }
}

pub fn revert_ops(link: &String, immediate: &String, exists: bool, is_file: bool, is_dir: bool) -> (r:
    Vec<Op>)
    ensures
        ops_view(r@) == revert_plan(link@, immediate@, exists, is_file, is_dir),
{
    let mut r: Vec<Op> = Vec::new();
    if exists && is_file {
        r.push(Op::RemoveFile(link.clone()));
    } else if exists && is_dir {
        r.push(Op::RemoveTree(link.clone()));
    }
    r.push(Op::CreateLink(immediate.clone(), link.clone()));
    assert(ops_view(r@) =~= revert_plan(link@, immediate@, exists, is_file, is_dir));
    r
}

/// The failure reported for the link at `link` whose unfold failed with
/// `error`, once the revert has run with outcome `revert`.
pub fn settle(link: &String, error: UnfoldError, revert: Result<(), String>) -> (r: Failure)
    ensures
        match revert {
            Ok(()) => r == Failure::Unfold(error),
            Err(m) => r == Failure::RevertFailed(error, *link, m),
        },
{
    match revert {
        Ok(()) => Failure::Unfold(error),
        Err(m) => Failure::RevertFailed(error, link.clone(), m),
    }
}

} // verus!
