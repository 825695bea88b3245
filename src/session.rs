use vstd::prelude::*;
use crate::options::Bound;

verus! {

/// Where one argument of a run stands.
#[derive(Clone, Copy, Debug, PartialEq, Eq, Structural)]
pub enum ArgStatus {
    /// Not processed; the link has not been touched.
    Pending,
    /// Unfolded; it stays so whatever follows.
    Unfolded,
    /// Its unfold failed, and the run stopped there.
    Failed,
}

/// The order in which the arguments of a run are processed: one at a time,
/// in the order given, and none after the first that fails. Under a bound
/// of zero layers no argument is processed at all.
pub struct Session {
    bound: Bound,
    count: usize,
    next: usize,
    failed: bool,
}

impl Session {
    pub closed spec fn spec_bound(&self) -> Bound {
        self.bound
    }

    /// How many arguments the run was given.
    pub closed spec fn spec_count(&self) -> nat {
        self.count as nat
    }

    /// How many arguments have been processed.
    pub closed spec fn spec_done(&self) -> nat {
        if self.failed {
            (self.next + 1) as nat
        } else {
            self.next as nat
        }
    }

    pub closed spec fn spec_failed(&self) -> bool {
        self.failed
    }

    pub closed spec fn wf(&self) -> bool {
        &&& self.next <= self.count
        &&& self.failed ==> self.next < self.count
        &&& self.bound == Bound::Layers(0) ==> self.next == 0 && !self.failed
    }

    /// Where the argument at position `i` stands.
    pub open spec fn status(&self, i: int) -> ArgStatus {
        if self.spec_failed() && i == self.spec_done() - 1 {
            ArgStatus::Failed
        } else if i < self.spec_done() {
            ArgStatus::Unfolded
        } else {
            ArgStatus::Pending
        }
    }

    /// The position of the argument to process next, if any.
    pub open spec fn spec_next(&self) -> Option<nat> {
        if self.spec_bound().spec_is_noop() || self.spec_failed() || self.spec_done()
            >= self.spec_count() {
            None
        } else {
            Some(self.spec_done())
        }
    }

    /// The run is over, with every argument unfolded.
    pub open spec fn spec_succeeded(&self) -> bool {
        !self.spec_failed() && (self.spec_bound().spec_is_noop() || self.spec_done()
            == self.spec_count())
    }

    /// A run over `count` arguments under `bound`, none processed yet.
    pub fn new(count: usize, bound: Bound) -> (r: Session)
        ensures
            r.wf(),
            r.spec_count() == count,
            r.spec_bound() == bound,
            r.spec_done() == 0,
            !r.spec_failed(),
    {
        Session { bound, count, next: 0, failed: false }
    }

    /// The position of the argument to process next, or `None` once the run is over.
    pub fn next_argument(&self) -> (r: Option<usize>)
        requires
            self.wf(),
        ensures
            match r {
                Some(i) => self.spec_next() == Some(i as nat),
                None => self.spec_next() is None,
            },
    {
        if self.bound.is_noop() || self.failed || self.next >= self.count {
            None
        } else {
            Some(self.next)
        }
    }

    /// Records the outcome of the argument that `next_argument` gave.
    pub fn record(&mut self, unfolded: bool)
        requires
            old(self).wf(),
            old(self).spec_next() is Some,
        ensures
            final(self).wf(),
            final(self).spec_bound() == old(self).spec_bound(),
            final(self).spec_count() == old(self).spec_count(),
            final(self).spec_done() == old(self).spec_done() + 1,
            final(self).spec_failed() == !unfolded,
    {
        if unfolded {
            self.next = self.next + 1;
        } else {
            self.failed = true;
        }
    }

    /// Whether the run is over with every argument unfolded.
    pub fn succeeded(&self) -> (r: bool)
        requires
            self.wf(),
        ensures
            r == self.spec_succeeded(),
    {
        !self.failed && (self.bound.is_noop() || self.next == self.count)
    }

    /// Whether the run stopped on a failure.
    pub fn failed(&self) -> (r: bool)
        ensures
            r == self.spec_failed(),
    {
        self.failed
    }
}

/// A run under a bound of zero layers processes no argument and succeeds.
pub proof fn law_zero_layers_noop(s: Session)
    requires
        s.wf(),
        s.spec_bound() == Bound::Layers(0),
    ensures
        s.spec_next() is None,
        s.spec_succeeded(),
        forall|i: int| 0 <= i < s.spec_count() ==> #[trigger] s.status(i) == ArgStatus::Pending,
{
}

/// Once an argument fails, the run is over: the arguments before it stay
/// unfolded, and those after it are never touched.
pub proof fn law_stop_at_failure(s: Session)
    requires
        s.wf(),
        s.spec_failed(),
    ensures
        s.spec_next() is None,
        !s.spec_succeeded(),
        s.spec_done() >= 1,
        s.status(s.spec_done() - 1) == ArgStatus::Failed,
        forall|i: int| 0 <= i < s.spec_done() - 1 ==> #[trigger] s.status(i) == ArgStatus::Unfolded,
        forall|i: int| s.spec_done() <= i < s.spec_count() ==> #[trigger] s.status(i) == ArgStatus::Pending,
{
}

/// While no argument has failed, the arguments are taken in the order given:
/// the next one is the first not yet processed.
pub proof fn law_in_order(s: Session)
    requires
        s.wf(),
        !s.spec_failed(),
        !s.spec_bound().spec_is_noop(),
        s.spec_done() < s.spec_count(),
    ensures
        s.spec_next() == Some(s.spec_done()),
        forall|i: int| 0 <= i < s.spec_done() ==> #[trigger] s.status(i) == ArgStatus::Unfolded,
{
}

} // verus!
