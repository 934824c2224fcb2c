//! The barrier that orders irreversible side effects against shutdown.
//!
//! A waiter is known here by a number of its own. Whoever owns the barrier
//! wakes the waiters that an operation hands back.

use vstd::prelude::*;

verus! {

/// What a fence is made of: whether commits may begin, how many are running,
/// and who waits for the last of them.
#[verifier::ext_equal]
pub struct FenceView {
    pub open: bool,
    pub in_flight: nat,
    pub waiters: Seq<u64>,
}

impl FenceView {
    /// Open, with nothing running and nobody waiting.
    pub open spec fn fresh() -> FenceView {
        FenceView { open: true, in_flight: 0, waiters: Seq::empty() }
    }

    /// One more commit is running.
    pub open spec fn entered(self) -> FenceView {
        FenceView { in_flight: self.in_flight + 1, ..self }
    }

    /// No commit may begin any more. Waiters stay only while commits run.
    pub open spec fn closed(self) -> FenceView {
        FenceView { open: false, ..self }.settled()
    }

    /// One commit fewer is running.
    pub open spec fn left(self) -> FenceView {
        FenceView {
            in_flight: if self.in_flight > 0 {
                (self.in_flight - 1) as nat
            } else {
                0
            },
            ..self
        }.settled()
    }

    /// Nobody waits once nothing runs.
    pub open spec fn settled(self) -> FenceView {
        if self.in_flight == 0 {
            FenceView { waiters: Seq::empty(), ..self }
        } else {
            self
        }
    }

    /// The waiters that are due: all of them once nothing runs.
    pub open spec fn due(self) -> Seq<u64> {
        if self.in_flight == 0 {
            self.waiters
        } else {
            Seq::empty()
        }
    }

    /// One more waiter, unless it waits already.
    pub open spec fn awaited_by(self, waiter: u64) -> FenceView {
        if self.in_flight == 0 || self.waiters.contains(waiter) {
            self
        } else {
            FenceView { waiters: self.waiters.push(waiter), ..self }
        }
    }

    /// Nobody waits twice, and nobody waits for nothing.
    pub open spec fn wf(self) -> bool {
        &&& self.waiters.no_duplicates()
        &&& self.waiters.len() > 0 ==> self.in_flight > 0
    }
}

/// A session-scoped barrier guarding irreversible external side effects.
///
/// Output, temporary-text and history adapters call [`Self::begin_commit`]
/// immediately before their irreversible commit point and give the
/// [`CommitGuard`] back once that commit has finished. Once invalidated, no new
/// commit can begin.
pub struct LifecycleFence {
    open: bool,
    in_flight: usize,
    waiters: Vec<u64>,
    identity: Ghost<int>,
}

/// Proof that an irreversible commit began before session invalidation.
#[derive(Debug)]
pub struct CommitGuard {
    _held: (),
}

/// A wait for the commits that are already in progress behind one fence.
pub struct LifecycleQuiescence {
    awaited: Ghost<int>,
}

impl View for LifecycleFence {
    type V = FenceView;

    closed spec fn view(&self) -> FenceView {
        FenceView { open: self.open, in_flight: self.in_flight as nat, waiters: self.waiters@ }
    }
}

impl LifecycleFence {
    /// Which fence this is. It stays the same whatever happens to the fence, and
    /// nothing is known of how it relates to that of another one.
    pub closed spec fn identity(&self) -> int {
        self.identity@
    }

    pub fn new() -> (r: LifecycleFence)
        ensures
            r@ == FenceView::fresh(),
    {
        LifecycleFence {
            open: true,
            in_flight: 0,
            waiters: Vec::new(),
            identity: Ghost(arbitrary()),
        }
    }

    /// Whether commits may still begin.
    pub fn is_open(&self) -> (r: bool)
        ensures
            r == self@.open,
    {
        self.open
    }

    /// How many commits are running.
    pub fn in_flight(&self) -> (r: usize)
        ensures
            r == self@.in_flight,
    {
        self.in_flight
    }

    /// Starts an irreversible commit if this session is still valid.
    pub fn begin_commit(&mut self) -> (r: Option<CommitGuard>)
        requires
            old(self)@.in_flight < usize::MAX,
        ensures
            r is Some <==> old(self)@.open,
            final(self)@ == (if old(self)@.open {
                old(self)@.entered()
            } else {
                old(self)@
            }),
            final(self).identity() == old(self).identity(),
    {
        if !self.open {
            return None;
        }
        self.in_flight = self.in_flight + 1;
        Some(CommitGuard { _held: () })
    }

    /// Ends the commit that a guard stands for. The waiters that are due are
    /// handed back.
    pub fn end_commit(&mut self, guard: CommitGuard) -> (due: Vec<u64>)
        ensures
            final(self)@ == old(self)@.left(),
            due@ == (FenceView { waiters: old(self)@.waiters, ..old(self)@.left() }).due(),
            final(self).identity() == old(self).identity(),
    {
        self.in_flight = self.in_flight.saturating_sub(1);
        if self.in_flight == 0 {
            let mut due: Vec<u64> = Vec::new();
            std::mem::swap(&mut due, &mut self.waiters);
            due
        } else {
            Vec::new()
        }
    }

    /// Prevents any future commit from beginning. The waiters that are due are
    /// handed back.
    pub fn invalidate(&mut self) -> (due: Vec<u64>)
        ensures
            final(self)@ == old(self)@.closed(),
            due@ == old(self)@.due(),
            final(self).identity() == old(self).identity(),
    {
        self.open = false;
        if self.in_flight == 0 {
            let mut due: Vec<u64> = Vec::new();
            std::mem::swap(&mut due, &mut self.waiters);
            due
        } else {
            Vec::new()
        }
    }

    /// A wait that is over once every commit already in progress has completed.
    /// It is a wait for this fence.
    pub fn wait_quiescent(&self) -> (r: LifecycleQuiescence)
        ensures
            r.awaited() == self.identity(),
    {
        LifecycleQuiescence { awaited: self.identity }
    }

    /// Invalidates the session; the wait is over once all prior commits finish.
    pub fn invalidate_and_wait(&mut self) -> (r: (LifecycleQuiescence, Vec<u64>))
        ensures
            final(self)@ == old(self)@.closed(),
            final(self).identity() == old(self).identity(),
            r.0.awaited() == old(self).identity(),
            r.1@ == old(self)@.due(),
    {
        let due = self.invalidate();
        (self.wait_quiescent(), due)
    }

    fn is_awaited_by(&self, waiter: u64) -> (r: bool)
        ensures
            r == self@.waiters.contains(waiter),
    {
        let mut i: usize = 0;
        while i < self.waiters.len()
            invariant
                i <= self.waiters.len(),
                forall|j: int| 0 <= j < i ==> self.waiters@[j] != waiter,
            decreases self.waiters.len() - i,
        {
            if self.waiters[i] == waiter {
                assert(self.waiters@[i as int] == waiter);
                return true;
            }
            i = i + 1;
        }
        false
    }
}

impl Default for LifecycleFence {
    fn default() -> (r: LifecycleFence)
        ensures
            r@ == FenceView::fresh(),
    {
        LifecycleFence::new()
    }
}

impl LifecycleQuiescence {
    /// The fence that is waited for.
    pub closed spec fn awaited(&self) -> int {
        self.awaited@
    }

    /// Whether the wait for its fence is over. Where it is not, the waiter is on
    /// record from now on, once.
    pub fn poll(&self, fence: &mut LifecycleFence, waiter: u64) -> (ready: bool)
        requires
            self.awaited() == old(fence).identity(),
        ensures
            ready <==> old(fence)@.in_flight == 0,
            final(fence)@ == old(fence)@.awaited_by(waiter),
            final(fence).identity() == old(fence).identity(),
    {
        if fence.in_flight == 0 {
            return true;
        }
        if !fence.is_awaited_by(waiter) {
            fence.waiters.push(waiter);
        }
        false
    }
}

/// Once invalidated, a fence stays closed: no commit begins again, whatever
/// happens to the commits that are still running.
pub proof fn invalidated_fence_stays_closed(fence: FenceView, waiter: u64)
    ensures
        !fence.closed().open,
        !fence.open ==> !fence.left().open,
        !fence.open ==> !fence.closed().open,
        !fence.open ==> !fence.awaited_by(waiter).open,
{
}

/// Closing a fence leaves the running commits alone; each of them ends once.
pub proof fn closing_keeps_running_commits(fence: FenceView)
    ensures
        fence.closed().in_flight == fence.in_flight,
        fence.entered().left().in_flight == fence.in_flight,
{
}

/// Every operation keeps a fence well formed, and a commit that was the last
/// one running leaves no waiter behind.
pub proof fn fence_stays_well_formed(fence: FenceView, waiter: u64)
    requires
        fence.wf(),
    ensures
        FenceView::fresh().wf(),
        fence.entered().wf(),
        fence.left().wf(),
        fence.closed().wf(),
        fence.awaited_by(waiter).wf(),
        fence.left().in_flight == 0 ==> fence.left().waiters.len() == 0,
{
}

/// A fence counts what runs: one more that has entered, one fewer that has left and never
/// less than none. Who waits is woken exactly when the last one has left, all of them and
/// nobody else, and is on record once until then.
pub proof fn a_fence_wakes_who_waits_when_nothing_runs(fence: FenceView, waiter: u64)
    requires
        fence.wf(),
    ensures
        FenceView::fresh().open && FenceView::fresh().in_flight == 0,
        FenceView::fresh().waiters.len() == 0,
        fence.entered().in_flight == fence.in_flight + 1,
        fence.entered().open == fence.open && fence.entered().waiters == fence.waiters,
        fence.in_flight > 0 ==> fence.left().in_flight == fence.in_flight - 1,
        fence.in_flight == 0 ==> fence.left().in_flight == 0,
        fence.in_flight > 1 ==> fence.left().waiters == fence.waiters,
        fence.in_flight == 1 ==> (FenceView { waiters: fence.waiters, ..fence.left() }).due()
            == fence.waiters,
        fence.in_flight > 1 ==> (FenceView {
            waiters: fence.waiters,
            ..fence.left()
        }).due().len() == 0,
        fence.in_flight > 0 ==> fence.closed().waiters == fence.waiters,
        fence.in_flight > 0 ==> fence.awaited_by(waiter).waiters.contains(waiter),
        fence.in_flight == 0 ==> fence.awaited_by(waiter) == fence,
        forall|other: u64|
            other != waiter ==> (#[trigger] fence.awaited_by(waiter).waiters.contains(other)
                <==> fence.waiters.contains(other)),
{
    let waiters = fence.awaited_by(waiter).waiters;
    if fence.in_flight > 0 && !fence.waiters.contains(waiter) {
        assert(waiters == fence.waiters.push(waiter));
        assert(waiters[waiters.len() - 1] == waiter);
        assert forall|other: u64| other != waiter implies (#[trigger] waiters.contains(other)
            <==> fence.waiters.contains(other)) by {
            if fence.waiters.contains(other) {
                let i = choose|i: int| 0 <= i < fence.waiters.len() && fence.waiters[i] == other;
                assert(waiters[i] == other);
            }
            if waiters.contains(other) {
                let i = choose|i: int| 0 <= i < waiters.len() && waiters[i] == other;
                assert(fence.waiters[i] == other);
            }
        }
    }
}

} // verus!
