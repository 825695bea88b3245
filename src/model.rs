use vstd::prelude::*;
use crate::paths::joined;

verus! {

/// A node of the filesystem, as the laws of the engine see it.
pub enum Node {
    /// A symbolic link with its stored value.
    Link(Seq<char>),
    /// A regular file with its content.
    File(Seq<u8>),
    /// A directory.
    Dir,
}

/// A filesystem: each path that exists, with its node.
pub type Fs = Map<Seq<char>, Node>;

/// One filesystem operation, as the engine asks the caller to perform it.
#[derive(Clone, Debug, PartialEq, Eq)]
pub enum Op {
    /// Remove the symbolic link at the path.
    RemoveLink(String),
    /// Remove the regular file at the path.
    RemoveFile(String),
    /// Remove the directory at the path with all that it holds.
    RemoveTree(String),
    /// Copy the content of the first path to a new file at the second.
    CopyFile(String, String),
    /// Create an empty directory at the path.
    CreateDir(String),
    /// Create a symbolic link at the second path whose value is the first.
    CreateLink(String, String),
}

impl Op {
    /// The path that the operation changes.
    pub open spec fn spec_path(&self) -> String {
        match self {
            Op::RemoveLink(p) => *p,
            Op::RemoveFile(p) => *p,
            Op::RemoveTree(p) => *p,
            Op::CopyFile(_, d) => *d,
            Op::CreateDir(p) => *p,
            Op::CreateLink(_, p) => *p,
        }
    }

    pub fn path(&self) -> (r: &String)
        ensures
            *r == self.spec_path(),
    {
        match self {
            Op::RemoveLink(p) => p,
            Op::RemoveFile(p) => p,
            Op::RemoveTree(p) => p,
            Op::CopyFile(_, d) => d,
            Op::CreateDir(p) => p,
            Op::CreateLink(_, p) => p,
        }
    }

    /// A copy of the operation.
    pub fn duplicate(&self) -> (r: Op)
        ensures
            r == *self,
    {
        match self {
            Op::RemoveLink(p) => Op::RemoveLink(p.clone()),
            Op::RemoveFile(p) => Op::RemoveFile(p.clone()),
            Op::RemoveTree(p) => Op::RemoveTree(p.clone()),
            Op::CopyFile(s, d) => Op::CopyFile(s.clone(), d.clone()),
            Op::CreateDir(p) => Op::CreateDir(p.clone()),
            Op::CreateLink(t, p) => Op::CreateLink(t.clone(), p.clone()),
        }
    }
}

/// An operation over paths as sequences of characters.
pub enum OpModel {
    RemoveLink(Seq<char>),
    RemoveFile(Seq<char>),
    RemoveTree(Seq<char>),
    CopyFile(Seq<char>, Seq<char>),
    CreateDir(Seq<char>),
    CreateLink(Seq<char>, Seq<char>),
}

impl View for Op {
    type V = OpModel;

    open spec fn view(&self) -> OpModel {
        match self {
            Op::RemoveLink(p) => OpModel::RemoveLink(p@),
            Op::RemoveFile(p) => OpModel::RemoveFile(p@),
            Op::RemoveTree(p) => OpModel::RemoveTree(p@),
            Op::CopyFile(s, d) => OpModel::CopyFile(s@, d@),
            Op::CreateDir(p) => OpModel::CreateDir(p@),
            Op::CreateLink(t, p) => OpModel::CreateLink(t@, p@),
        }
    }
}

/// The operations of `ops`, over paths as sequences of characters.
pub open spec fn ops_view(ops: Seq<Op>) -> Seq<OpModel> {
    ops.map_values(|o: Op| o@)
}

/// The paths that a directory at `p` holds directly.
pub open spec fn is_entry_of(p: Seq<char>, k: Seq<char>) -> bool {
    exists|n: Seq<char>| k == joined(p, n)
}

/// The filesystem after one operation that succeeds.
pub open spec fn apply(fs: Fs, op: OpModel) -> Fs {
    match op {
        OpModel::RemoveLink(p) => fs.remove(p),
        OpModel::RemoveFile(p) => fs.remove(p),
        OpModel::RemoveTree(p) => fs.remove_keys(Set::new(|k: Seq<char>| k == p || is_entry_of(p, k))),
        OpModel::CopyFile(s, d) => match fs.index_opt(s) {
            Some(Node::File(bytes)) => fs.insert(d, Node::File(bytes)),
            _ => fs,
        },
        OpModel::CreateDir(p) => fs.insert(p, Node::Dir),
        OpModel::CreateLink(t, p) => fs.insert(p, Node::Link(t)),
    }
}

/// The filesystem after the operations of `ops`, in order, all succeed.
pub open spec fn apply_all(fs: Fs, ops: Seq<OpModel>) -> Fs
    decreases ops.len(),
{
    if ops.len() == 0 {
        fs
    } else {
        apply_all(apply(fs, ops[0]), ops.drop_first())
    }
}

} // verus!
