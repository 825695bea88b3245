use vstd::prelude::*;
use crate::errors::UnfoldError;
use crate::options::Bound;
use crate::paths::{link_step, resolve_link_value};

verus! {

/// A table of links: each link's path, mapped to the path it points at.
pub type LinkTable = Map<Seq<char>, Seq<char>>;

/// The node reached from `p` by following at most `k` links of `t`.
pub open spec fn walk(t: LinkTable, p: Seq<char>, k: nat) -> Seq<char>
    decreases k,
{
    if k == 0 || !t.contains_key(p) {
        p
    } else {
        walk(t, t[p], (k - 1) as nat)
    }
}

/// What the caller found when it read the node that a resolver stands at.
#[derive(Clone, Debug, PartialEq, Eq)]
pub enum LinkRead {
    /// The node is not a symbolic link.
    NotALink,
    /// The node is a link with this stored value.
    Value(String),
    /// The node could not be read.
    Unreadable,
}

/// `t` agrees with what was read at `p`.
pub open spec fn agrees(t: LinkTable, p: Seq<char>, read: LinkRead) -> bool {
    match read {
        LinkRead::NotALink => !t.contains_key(p),
        LinkRead::Value(v) => t.contains_key(p) && link_step(p, v@) == Some(t[p]),
        LinkRead::Unreadable => false,
    }
}

/// Where one step from `cur` leads, given what was read there: a link is
/// followed relative to its own directory, any other node is where the walk
/// stays; `None` where the read failed or the link has no directory.
pub open spec fn read_step(cur: Seq<char>, read: LinkRead) -> Option<Seq<char>> {
    match read {
        LinkRead::NotALink => Some(cur),
        LinkRead::Value(v) => link_step(cur, v@),
        LinkRead::Unreadable => None,
    }
}

/// Walks a chain of links from a start path under a bound, one read at a time.
///
/// Under `Layers(n)` the caller reads the node at `current` and hands the
/// result to `follow`, until `finished`. Under `ToSource` the caller
/// canonicalizes `current` and hands the result to `canonical`.
pub struct Resolver {
    pub current: String,
    pub remaining: u8,
    pub to_source: bool,
    pub finished: bool,
}

impl Resolver {
    pub open spec fn wf(&self) -> bool {
        &&& self.to_source ==> self.remaining == 0
        &&& (!self.to_source && !self.finished) ==> self.remaining > 0
        &&& self.finished ==> self.remaining == 0
    }

    /// Where the walk ends, for a table that agrees with every read to come.
    pub open spec fn outcome(&self, t: LinkTable) -> Seq<char> {
        walk(t, self.current@, self.remaining as nat)
    }

    /// A resolver at `start` under `bound`.
    pub fn new(start: String, bound: Bound) -> (r: Resolver)
        ensures
            r.wf(),
            r.current == start,
            r.to_source == (bound == Bound::ToSource),
            r.finished == (bound == Bound::Layers(0)),
            forall|n: u8| bound == Bound::Layers(n) ==> r.remaining == n && r.finished == (n == 0),
    {
        match bound {
            Bound::Layers(n) => Resolver { current: start, remaining: n, to_source: false, finished: n == 0 },
            Bound::ToSource => Resolver { current: start, remaining: 0, to_source: true, finished: false },
        }
    }

    /// Takes one step on what was read at `current`: a link is followed,
    /// relative to its own directory, and any other node ends the walk.
    pub fn follow(&mut self, read: LinkRead) -> (r: Result<(), UnfoldError>)
        requires
            old(self).wf(),
            !old(self).to_source,
            !old(self).finished,
        ensures
            final(self).wf(),
            final(self).to_source == old(self).to_source,
            match read {
                LinkRead::NotALink => r is Ok && final(self).finished && final(self).current
                    == old(self).current,
                LinkRead::Value(v) => match link_step(old(self).current@, v@) {
                    Some(next) => r is Ok && final(self).current@ == next && final(self).remaining
                        == old(self).remaining - 1 && final(self).finished == (
                    final(self).remaining == 0),
                    None => r == Err::<(), UnfoldError>(UnfoldError::LinkReadError(old(self).current)),
                },
                LinkRead::Unreadable => r == Err::<(), UnfoldError>(
                    UnfoldError::LinkReadError(old(self).current),
                ),
            },
            forall|t: LinkTable|
                r is Ok && agrees(t, old(self).current@, read) ==> #[trigger] old(self).outcome(t)
                    == final(self).outcome(t),
    {
        match read {
            LinkRead::NotALink => {
                self.finished = true;
                self.remaining = 0;
                Ok(())
            },
            LinkRead::Value(v) => match resolve_link_value(&self.current, &v) {
                Some(next) => {
                    self.current = next;
                    self.remaining = self.remaining - 1;
                    self.finished = self.remaining == 0;
                    Ok(())
                },
                None => Err(UnfoldError::LinkReadError(self.current.clone())),
            },
            LinkRead::Unreadable => Err(UnfoldError::LinkReadError(self.current.clone())),
        }
    }

    /// Takes the canonical form of `current`, as the caller found it, or
    /// `None` where the chain could not be resolved.
    pub fn canonical(&mut self, found: Option<String>) -> (r: Result<(), UnfoldError>)
        requires
            old(self).wf(),
            old(self).to_source,
            !old(self).finished,
        ensures
            final(self).wf(),
            final(self).to_source,
            match found {
                Some(c) => r is Ok && final(self).finished && final(self).current == c,
                None => r == Err::<(), UnfoldError>(UnfoldError::UnreachablePath(old(self).current)),
            },
    {
        match found {
            Some(c) => {
                self.current = c;
                self.finished = true;
                Ok(())
            },
            None => Err(UnfoldError::UnreachablePath(self.current.clone())),
        }
    }

    /// The path where the walk ended.
    pub fn target(&self) -> (r: &String)
        requires
            self.finished,
        ensures
            r == self.current,
    {
        &self.current
    }
}

/// `c` is a chain of links in `t`: each of its paths but the last is a link
/// to the next, and the last is no link.
pub open spec fn is_chain(t: LinkTable, c: Seq<Seq<char>>) -> bool {
    &&& c.len() >= 1
    &&& forall|i: int| 0 <= i < c.len() - 1 ==> #[trigger] t.contains_key(c[i]) && t[c[i]] == c[i + 1]
    &&& !t.contains_key(c.last())
}

/// From the path at position `i` of a chain, `k` layers lead `k` positions on,
/// up to the end of the chain.
pub proof fn lemma_walk_chain(t: LinkTable, c: Seq<Seq<char>>, i: int, k: nat)
    requires
        is_chain(t, c),
        0 <= i < c.len(),
    ensures
        walk(t, c[i], k) == if i + k < c.len() { c[i + k] } else { c.last() },
    decreases k,
{
    if k > 0 && i < c.len() - 1 {
        assert(t.contains_key(c[i]));
        lemma_walk_chain(t, c, i + 1, (k - 1) as nat);
    }
}


} // verus!
