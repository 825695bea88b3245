use vstd::prelude::*;
use crate::errors::{Failure, UnfoldError};
use crate::laws::{dir_unfolded, law_dir_unfold};
use crate::model::{apply_all, ops_view, Fs, Op};
use crate::options::Bound;
use crate::resolve::{agrees, read_step, LinkRead, LinkTable, Resolver};
use crate::unfold::{
    choose_replacement, copy_ops, copy_plan, dir_ops, dir_plan, entries_distinct, entry_paths_distinct, relink_ops, relink_plan,
    replacement_of, revert_ops, revert_plan, settle, validate, NodeKind, Replacement,
};

verus! {

/// Where the unfold of one link stands.
#[derive(Clone, Copy, Debug, PartialEq, Eq, Structural)]
pub enum Phase {
    /// Checking that the path is a link that does not dangle.
    Validate,
    /// Finding the link's one-layer target, kept for a revert.
    Immediate,
    /// Resolving the link under the run's bound.
    Resolve,
    /// Learning the kind of the resolved target.
    Classify,
    /// Finding the node one step past a resolved target that is a link.
    Next,
    /// Listing the entries of a resolved target that is a directory.
    List,
    /// Performing the operations that replace the link.
    Transform,
    /// Learning what stands at the link's path, to revert it.
    RevertInspect,
    /// Performing the operations that put the original link back.
    RevertPerform,
    /// Over; the outcome is known.
    Done,
}

/// What the caller is asked to do next, and to report with the matching `on_` method.
#[derive(Clone, Debug, PartialEq, Eq)]
pub enum Request {
    /// Tell whether the path is a symbolic link and whether its target exists: `on_inspected`.
    Inspect(String),
    /// Read the node at the path: `on_read`.
    ReadLink(String),
    /// Canonicalize the path: `on_canonical`.
    Canonicalize(String),
    /// Tell the kind of the node at the path, links not followed: `on_kind`.
    Classify(String),
    /// List the names of the directory's entries: `on_listed`.
    ListDir(String),
    /// Perform the operation: `on_performed`.
    Perform(Op),
    /// Tell whether the path exists, and whether it is a file or a directory: `on_found`.
    InspectForRevert(String),
    /// Nothing: the outcome is ready.
    Finished,
}

/// The unfold of one link, as a machine that asks its caller for each
/// reading and each change of the filesystem.
///
/// It validates the link, records its one-layer target before anything is
/// changed, resolves it under the bound, and performs the replacement that
/// the target's kind calls for. Once it has got past validation and the
/// one-layer target, any failure leads to a revert: what stands at the
/// link's path is removed and a link to the recorded target put back.
pub struct Unfolding {
    pub phase: Phase,
    pub link: String,
    pub bound: Bound,
    pub resolver: Resolver,
    pub immediate: String,
    pub target: String,
    pub ops: Vec<Op>,
    pub at: usize,
    pub error: UnfoldError,
    /// Whether the link's path existed, was a file and was a directory when
    /// the revert began.
    pub found: (bool, bool, bool),
    pub outcome: Option<Result<String, Failure>>,
}

impl Unfolding {
    pub open spec fn wf(&self) -> bool {
        &&& self.resolver.wf()
        &&& (self.phase == Phase::Immediate || self.phase == Phase::Next) ==> !self.resolver.to_source
            && !self.resolver.finished && self.resolver.remaining == 1
        &&& self.phase == Phase::Resolve ==> !self.resolver.finished && self.resolver.to_source == (
        self.bound == Bound::ToSource)
        &&& (self.phase == Phase::Transform || self.phase == Phase::RevertPerform) ==> self.at
            < self.ops.len()
        &&& self.phase == Phase::Transform ==> self.is_plan()
        &&& self.phase == Phase::RevertPerform ==> self.is_revert()
        &&& self.phase == Phase::Done <==> self.outcome is Some
    }

    /// The operations under way replace the link as one of the unfold plans.
    pub open spec fn is_plan(&self) -> bool {
        ||| ops_view(self.ops@) == copy_plan(self.link@, self.target@)
        ||| exists|next: Seq<char>| ops_view(self.ops@) == relink_plan(self.link@, next)
        ||| exists|names: Seq<Seq<char>>|
            ops_view(self.ops@) == dir_plan(self.link@, self.target@, names) && entries_distinct(
                self.link@,
                names,
            )
    }

    /// The operations under way clear the link's path and put back a link
    /// to the recorded one-layer target.
    pub open spec fn is_revert(&self) -> bool {
        ops_view(self.ops@) == revert_plan(
            self.link@,
            self.immediate@,
            self.found.0,
            self.found.1,
            self.found.2,
        )
    }

    /// What stays fixed through every step: the link, the bound, and, once
    /// found, the one-layer target.
    pub open spec fn keeps(&self, next: &Unfolding) -> bool {
        &&& next.link == self.link
        &&& next.bound == self.bound
        &&& self.phase != Phase::Validate && self.phase != Phase::Immediate ==> next.immediate
            == self.immediate
    }

    /// Where the link resolves under the bound, for a table that agrees with
    /// every read to come.
    pub open spec fn resolves_to(&self, t: LinkTable) -> Seq<char> {
        if self.phase == Phase::Resolve {
            self.resolver.outcome(t)
        } else {
            self.target@
        }
    }

    /// The request that goes with each phase.
    pub open spec fn spec_request(&self) -> Request {
        match self.phase {
            Phase::Validate => Request::Inspect(self.link),
            Phase::Immediate | Phase::Next => Request::ReadLink(self.resolver.current),
            Phase::Resolve => if self.resolver.to_source {
                Request::Canonicalize(self.resolver.current)
            } else {
                Request::ReadLink(self.resolver.current)
            },
            Phase::Classify => Request::Classify(self.target),
            Phase::List => Request::ListDir(self.target),
            Phase::Transform | Phase::RevertPerform => Request::Perform(self.ops@[self.at as int]),
            Phase::RevertInspect => Request::InspectForRevert(self.link),
            Phase::Done => Request::Finished,
        }
    }

    /// The unfold of the link at `link` under `bound`, not begun.
    pub fn new(link: String, bound: Bound) -> (r: Unfolding)
        ensures
            r.wf(),
            r.phase == Phase::Validate,
            r.link == link,
            r.bound == bound,
    {
        let resolver = Resolver::new(link.clone(), Bound::Layers(1));
        Unfolding {
            phase: Phase::Validate,
            link: link.clone(),
            bound,
            resolver,
            immediate: link.clone(),
            target: link,
            ops: Vec::new(),
            at: 0,
            error: UnfoldError::UnreachablePath(String::new()),
            found: (false, false, false),
            outcome: None,
        }
    }

    /// What the caller is asked to do next.
    pub fn request(&self) -> (r: Request)
        requires
            self.wf(),
        ensures
            r == self.spec_request(),
    {
        match self.phase {
            Phase::Validate => Request::Inspect(self.link.clone()),
            Phase::Immediate | Phase::Next => Request::ReadLink(self.resolver.current.clone()),
            Phase::Resolve => if self.resolver.to_source {
                Request::Canonicalize(self.resolver.current.clone())
            } else {
                Request::ReadLink(self.resolver.current.clone())
            },
            Phase::Classify => Request::Classify(self.target.clone()),
            Phase::List => Request::ListDir(self.target.clone()),
            Phase::Transform | Phase::RevertPerform => Request::Perform(self.ops[self.at].duplicate()),
            Phase::RevertInspect => Request::InspectForRevert(self.link.clone()),
            Phase::Done => Request::Finished,
        }
    }

    /// The outcome, once the machine is done: the resolved target the link
    /// was unfolded to, or why it was not.
    pub fn outcome(&self) -> (r: Result<String, Failure>)
        requires
            self.wf(),
            self.phase == Phase::Done,
        ensures
            self.outcome == Some(r),
    {
        match &self.outcome {
            Some(Ok(t)) => Ok(t.clone()),
            Some(Err(f)) => Err(copy_failure(f)),
            None => Err(Failure::Unfold(copy_error(&self.error))),
        }
    }

    fn fail(&mut self, e: UnfoldError)
        requires
            old(self).resolver.wf(),
            old(self).outcome is None,
        ensures
            final(self).wf(),
            final(self).phase == Phase::RevertInspect,
            final(self).error == e,
            old(self).keeps(&*final(self)),
            final(self).immediate == old(self).immediate,
            final(self).target == old(self).target,
    {
        self.phase = Phase::RevertInspect;
        self.error = e;
    }

    fn finish(&mut self, r: Result<String, Failure>)
        requires
            old(self).resolver.wf(),
        ensures
            final(self).wf(),
            final(self).phase == Phase::Done,
            final(self).outcome == Some(r),
            old(self).keeps(&*final(self)),
            final(self).immediate == old(self).immediate,
            final(self).target == old(self).target,
    {
        self.phase = Phase::Done;
        self.outcome = Some(r);
    }

    /// Takes whether the path is a symbolic link and whether its target
    /// exists (`None`: that could not be told).
    pub fn on_inspected(&mut self, is_link: bool, exists: Option<bool>)
        requires
            old(self).wf(),
            old(self).phase == Phase::Validate,
        ensures
            final(self).wf(),
            old(self).keeps(&*final(self)),
            !is_link ==> final(self).outcome == Some(
                Err::<String, Failure>(Failure::Unfold(UnfoldError::NotASymlink(old(self).link))),
            ),
            is_link && exists != Some(true) ==> final(self).outcome == Some(
                Err::<String, Failure>(Failure::Unfold(UnfoldError::BrokenSymlink(old(self).link))),
            ),
            is_link && exists == Some(true) ==> final(self).phase == Phase::Immediate
                && final(self).resolver.current == old(self).link && final(self).resolver.remaining
                == 1,
    {
        match validate(&self.link, is_link, exists) {
            Ok(()) => {
                self.resolver = Resolver::new(self.link.clone(), Bound::Layers(1));
                self.phase = Phase::Immediate;
            },
            Err(e) => self.finish(Err(Failure::Unfold(e))),
        }
    }

    fn enter_resolve(&mut self)
        requires
            old(self).outcome is None,
        ensures
            final(self).wf(),
            old(self).keeps(&*final(self)),
            final(self).immediate == old(self).immediate,
            final(self).phase == Phase::Resolve || final(self).phase == Phase::Classify,
            final(self).phase == Phase::Classify ==> final(self).target == old(self).link
                && old(self).bound == Bound::Layers(0),
            final(self).phase == Phase::Resolve ==> final(self).resolver.current == old(self).link
                && final(self).resolver.to_source == (old(self).bound == Bound::ToSource)
                && forall|n: u8| old(self).bound == Bound::Layers(n) ==> final(self).resolver.remaining == n,
    {
        self.resolver = Resolver::new(self.link.clone(), self.bound);
        if self.resolver.finished {
            self.target = self.link.clone();
            self.phase = Phase::Classify;
        } else {
            self.phase = Phase::Resolve;
        }
    }

    /// Takes what was read at the node that `ReadLink` named.
    pub fn on_read(&mut self, read: LinkRead)
        requires
            old(self).wf(),
            old(self).phase == Phase::Immediate || old(self).phase == Phase::Next || (old(self).phase
                == Phase::Resolve && !old(self).resolver.to_source),
        ensures
            final(self).wf(),
            old(self).keeps(&*final(self)),
            old(self).phase == Phase::Immediate ==> match read_step(old(self).resolver.current@, read) {
                Some(n) => final(self).immediate@ == n && (final(self).phase == Phase::Resolve
                    || final(self).phase == Phase::Classify) && (final(self).phase == Phase::Classify
                    <==> old(self).bound == Bound::Layers(0)) && (final(self).phase == Phase::Classify
                    ==> final(self).target == old(self).link) && (final(self).phase == Phase::Resolve
                    ==> final(self).resolver.current == old(self).link
                    && final(self).resolver.to_source == (old(self).bound == Bound::ToSource)
                    && forall|m: u8|
                    old(self).bound == Bound::Layers(m) ==> final(self).resolver.remaining == m),
                None => final(self).outcome == Some(
                    Err::<String, Failure>(
                        Failure::Unfold(UnfoldError::LinkReadError(old(self).resolver.current)),
                    ),
                ),
            },
            old(self).phase == Phase::Resolve ==> match read_step(old(self).resolver.current@, read) {
                Some(n) => (final(self).phase == Phase::Resolve || final(self).phase == Phase::Classify)
                    && (final(self).phase == Phase::Classify <==> (read == LinkRead::NotALink
                    || old(self).resolver.remaining == 1)) && (final(self).phase == Phase::Classify
                    ==> final(self).target@ == n) && (final(self).phase == Phase::Resolve
                    ==> final(self).resolver.current@ == n && final(self).resolver.remaining
                    == old(self).resolver.remaining - 1 && !final(self).resolver.to_source)
                    && forall|t: LinkTable|
                    agrees(t, old(self).resolver.current@, read) ==> #[trigger] old(self).resolves_to(t)
                        == final(self).resolves_to(t),
                None => final(self).phase == Phase::RevertInspect && final(self).error
                    == UnfoldError::LinkReadError(old(self).resolver.current),
            },
            old(self).phase == Phase::Next ==> match read_step(old(self).resolver.current@, read) {
                Some(n) => final(self).phase == Phase::Transform && final(self).at == 0 && ops_view(
                    final(self).ops@,
                ) == relink_plan(old(self).link@, n),
                None => final(self).phase == Phase::RevertInspect && final(self).error
                    == UnfoldError::LinkReadError(old(self).resolver.current),
            },
    {
        if self.phase == Phase::Immediate {
            match self.resolver.follow(read) {
                Err(e) => self.finish(Err(Failure::Unfold(e))),
                Ok(()) => {
                    self.immediate = self.resolver.current.clone();
                    self.enter_resolve();
                },
            }
        } else if self.phase == Phase::Resolve {
            match self.resolver.follow(read) {
                Err(e) => self.fail(e),
                Ok(()) => {
                    if self.resolver.finished {
                        self.target = self.resolver.current.clone();
                        self.phase = Phase::Classify;
                    }
                },
            }
        } else {
            match self.resolver.follow(read) {
                Err(e) => self.fail(e),
                Ok(()) => {
                    self.ops = relink_ops(&self.link, &self.resolver.current);
                    self.at = 0;
                    self.phase = Phase::Transform;
                    assert(ops_view(self.ops@).len() == self.ops@.len());
                    assert(self.is_plan());
                },
            }
        }
    }

    /// Takes the canonical form of the path that `Canonicalize` named, or
    /// `None` where it could not be found.
    pub fn on_canonical(&mut self, found: Option<String>)
        requires
            old(self).wf(),
            old(self).phase == Phase::Resolve,
            old(self).resolver.to_source,
        ensures
            final(self).wf(),
            old(self).keeps(&*final(self)),
            match found {
                Some(c) => final(self).phase == Phase::Classify && final(self).target == c,
                None => final(self).phase == Phase::RevertInspect && final(self).error
                    == UnfoldError::UnreachablePath(old(self).resolver.current),
            },
    {
        match self.resolver.canonical(found) {
            Err(e) => self.fail(e),
            Ok(()) => {
                self.target = self.resolver.current.clone();
                self.phase = Phase::Classify;
            },
        }
    }

    /// Takes the kind of the resolved target that `Classify` named.
    pub fn on_kind(&mut self, kind: NodeKind)
        requires
            old(self).wf(),
            old(self).phase == Phase::Classify,
        ensures
            final(self).wf(),
            old(self).keeps(&*final(self)),
            final(self).target == old(self).target,
            match replacement_of(kind) {
                None => final(self).phase == Phase::RevertInspect && final(self).error
                    == UnfoldError::UnfoldableTarget(old(self).link),
                Some(Replacement::Copy) => final(self).phase == Phase::Transform && final(self).at == 0
                    && ops_view(final(self).ops@) == copy_plan(old(self).link@, old(self).target@),
                Some(Replacement::Relink) => final(self).phase == Phase::Next
                    && final(self).resolver.current == old(self).target,
                Some(Replacement::DirOfLinks) => final(self).phase == Phase::List,
            },
    {
        match choose_replacement(&self.link, kind) {
            Err(e) => self.fail(e),
            Ok(Replacement::Copy) => {
                self.ops = copy_ops(&self.link, &self.target);
                self.at = 0;
                self.phase = Phase::Transform;
                assert(ops_view(self.ops@).len() == self.ops@.len());
            },
            Ok(Replacement::Relink) => {
                self.resolver = Resolver::new(self.target.clone(), Bound::Layers(1));
                self.phase = Phase::Next;
            },
            Ok(Replacement::DirOfLinks) => {
                self.phase = Phase::List;
            },
        }
    }

    /// Takes the names of the entries of the directory that `ListDir`
    /// named, or the system's message where it could not be listed.
    pub fn on_listed(&mut self, names: Result<Vec<String>, String>)
        requires
            old(self).wf(),
            old(self).phase == Phase::List,
        ensures
            final(self).wf(),
            old(self).keeps(&*final(self)),
            final(self).target == old(self).target,
            match names {
                Ok(ns) => if entries_distinct(old(self).link@, ns@.map_values(|n: String| n@)) {
                    &&& final(self).phase == Phase::Transform
                    &&& final(self).at == 0
                    &&& ops_view(final(self).ops@) == dir_plan(
                        old(self).link@,
                        old(self).target@,
                        ns@.map_values(|n: String| n@),
                    )
                    &&& forall|fs: Fs|
                        dir_unfolded(
                            #[trigger] apply_all(fs, ops_view(final(self).ops@)),
                            old(self).link@,
                            old(self).target@,
                            ns@.map_values(|n: String| n@),
                        )
                } else {
                    final(self).phase == Phase::RevertInspect && match final(self).error {
                        UnfoldError::FilesystemOperationFailed(p, m) => p == old(self).target && m@
                            == colliding_entries_message(),
                        _ => false,
                    }
                },
                Err(m) => final(self).phase == Phase::RevertInspect && final(self).error
                    == UnfoldError::FilesystemOperationFailed(old(self).target, m),
            },
    {
        match names {
            Ok(ns) => {
                if entry_paths_distinct(&self.link, &ns) {
                    self.ops = dir_ops(&self.link, &self.target, &ns);
                    self.at = 0;
                    self.phase = Phase::Transform;
                    assert(ops_view(self.ops@).len() == self.ops@.len());
                    assert(self.is_plan());
                    let ghost nv = ns@.map_values(|n: String| n@);
                    assert forall|fs: Fs|
                        dir_unfolded(
                            #[trigger] apply_all(fs, ops_view(self.ops@)),
                            self.link@,
                            self.target@,
                            nv,
                        ) by {
                        law_dir_unfold(fs, self.link@, self.target@, nv);
                    }
                } else {
                    let e = UnfoldError::FilesystemOperationFailed(self.target.clone(), colliding_entries());
                    self.fail(e);
                }
            },
            Err(m) => {
                let e = UnfoldError::FilesystemOperationFailed(self.target.clone(), m);
                self.fail(e);
            },
        }
    }

    /// Takes the outcome of the operation that `Perform` named: nothing, or
    /// the system's message.
    pub fn on_performed(&mut self, done: Result<(), String>)
        requires
            old(self).wf(),
            old(self).phase == Phase::Transform || old(self).phase == Phase::RevertPerform,
        ensures
            final(self).wf(),
            old(self).keeps(&*final(self)),
            final(self).immediate == old(self).immediate,
            old(self).phase == Phase::Transform ==> match done {
                Ok(()) => if old(self).at + 1 == old(self).ops.len() {
                    final(self).outcome == Some(Ok::<String, Failure>(old(self).target))
                } else {
                    final(self).phase == Phase::Transform && final(self).at == old(self).at + 1
                        && final(self).ops == old(self).ops
                },
                Err(m) => final(self).phase == Phase::RevertInspect && final(self).error
                    == UnfoldError::FilesystemOperationFailed(
                    old(self).ops@[old(self).at as int].spec_path(),
                    m,
                ),
            },
            old(self).phase == Phase::RevertPerform ==> match done {
                Ok(()) => if old(self).at + 1 == old(self).ops.len() {
                    final(self).outcome == Some(
                        Err::<String, Failure>(Failure::Unfold(old(self).error)),
                    )
                } else {
                    final(self).phase == Phase::RevertPerform && final(self).at == old(self).at + 1
                        && final(self).ops == old(self).ops
                },
                Err(m) => final(self).outcome == Some(
                    Err::<String, Failure>(Failure::RevertFailed(old(self).error, old(self).link, m)),
                ),
            },
    {
        if self.phase == Phase::Transform {
            match done {
                Ok(()) => {
                    if self.at + 1 == self.ops.len() {
                        let t = self.target.clone();
                        self.finish(Ok(t));
                    } else {
                        self.at = self.at + 1;
                        assert(self.is_plan());
                    }
                },
                Err(m) => {
                    let e = UnfoldError::FilesystemOperationFailed(self.ops[self.at].path().clone(), m);
                    self.fail(e);
                },
            }
        } else {
            match done {
                Ok(()) => {
                    if self.at + 1 == self.ops.len() {
                        let f = settle(&self.link, copy_error(&self.error), Ok(()));
                        self.finish(Err(f));
                    } else {
                        self.at = self.at + 1;
                        assert(self.is_revert());
                    }
                },
                Err(m) => {
                    let f = settle(&self.link, copy_error(&self.error), Err(m));
                    self.finish(Err(f));
                },
            }
        }
    }

    /// Takes whether the link's path exists, is a file and is a directory,
    /// or the system's message where that could not be told.
    pub fn on_found(&mut self, found: Result<(bool, bool, bool), String>)
        requires
            old(self).wf(),
            old(self).phase == Phase::RevertInspect,
        ensures
            final(self).wf(),
            old(self).keeps(&*final(self)),
            final(self).immediate == old(self).immediate,
            match found {
                Ok((e, f, d)) => final(self).phase == Phase::RevertPerform && final(self).at == 0
                    && final(self).error == old(self).error && ops_view(final(self).ops@)
                    == revert_plan(old(self).link@, old(self).immediate@, e, f, d),
                Err(m) => final(self).outcome == Some(
                    Err::<String, Failure>(Failure::RevertFailed(old(self).error, old(self).link, m)),
                ),
            },
    {
        match found {
            Ok((e, f, d)) => {
                self.ops = revert_ops(&self.link, &self.immediate, e, f, d);
                self.found = (e, f, d);
                self.at = 0;
                self.phase = Phase::RevertPerform;
                assert(ops_view(self.ops@).len() == self.ops@.len());
                assert(ops_view(self.ops@) == revert_plan(self.link@, self.immediate@, e, f, d));
                assert(self.is_revert());
            },
            Err(m) => {
                let f = settle(&self.link, copy_error(&self.error), Err(m));
                self.finish(Err(f));
            },
        }
    }
}

/// The message for a listing whose entries would not give distinct paths.
pub fn colliding_entries() -> (r: String)
    ensures
        r@ == colliding_entries_message(),
{
    String::from_str("the directory's entries do not give distinct paths")
}

pub open spec fn colliding_entries_message() -> Seq<char> {
    "the directory's entries do not give distinct paths"@
}

fn copy_error(e: &UnfoldError) -> (r: UnfoldError)
    ensures
        r == *e,
{
    match e {
        UnfoldError::NotASymlink(p) => UnfoldError::NotASymlink(p.clone()),
        UnfoldError::BrokenSymlink(p) => UnfoldError::BrokenSymlink(p.clone()),
        UnfoldError::LinkReadError(p) => UnfoldError::LinkReadError(p.clone()),
        UnfoldError::UnreachablePath(p) => UnfoldError::UnreachablePath(p.clone()),
        UnfoldError::UnfoldableTarget(p) => UnfoldError::UnfoldableTarget(p.clone()),
        UnfoldError::FilesystemOperationFailed(p, m) => UnfoldError::FilesystemOperationFailed(
            p.clone(),
            m.clone(),
        ),
    }
}

fn copy_failure(f: &Failure) -> (r: Failure)
    ensures
        r == *f,
{
    match f {
        Failure::Unfold(e) => Failure::Unfold(copy_error(e)),
        Failure::RevertFailed(e, p, m) => Failure::RevertFailed(copy_error(e), p.clone(), m.clone()),
    }
}

} // verus!
