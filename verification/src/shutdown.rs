//! Cooperative shutdown: the write-once signal every polling loop
//! observes, the orchestrator's phase machine, and the rule that the whole
//! process fails as soon as any task failed.

use vstd::prelude::*;
use crate::error::TwitchBotError;

verus! {

/// The write-once shutdown flag. The only mutating operation sets it; no
/// operation resets it, so once observed it stays observed for the rest of
/// the process.
pub struct ShutdownSignal {
    pub fired: bool,
}

impl ShutdownSignal {
    pub fn new() -> (r: Self)
        ensures
            !r.fired,
    {
        ShutdownSignal { fired: false }
    }

    /// Sets the flag; idempotent, and never un-sets it.
    pub fn fire(&mut self)
        ensures
            final(self).fired,
    {
        self.fired = true;
    }

    /// Observes the flag without changing it.
    pub fn is_fired(&self) -> (b: bool)
        ensures
            b == self.fired,
    {
        self.fired
    }
}

/// The orchestrator's lifecycle.
pub enum RunPhase {
    /// All tasks are running.
    Running,
    /// The interrupt arrived: the listener is draining and the signal is
    /// set.
    ShuttingDown,
    /// Every task has finished; terminal.
    Stopped,
}

/// Coordinates the cross-task shutdown: holds the shared signal and the
/// current phase.
pub struct ShutdownCoordinator {
    pub phase: RunPhase,
    pub signal: ShutdownSignal,
}

impl ShutdownCoordinator {
    /// Once shutdown has begun, the signal is set.
    pub open spec fn wf(self) -> bool {
        !(self.phase is Running) ==> self.signal.fired
    }

    pub fn new() -> (r: Self)
        ensures
            r.phase is Running,
            !r.signal.fired,
            r.wf(),
    {
        ShutdownCoordinator { phase: RunPhase::Running, signal: ShutdownSignal::new() }
    }

    /// The external interrupt arrived. Shutting-down is entered exactly
    /// once: only the first interrupt changes anything, and only then must
    /// the caller stop the HTTP listener (the returned flag). Entering
    /// sets the cooperative signal.
    pub fn on_interrupt(&mut self) -> (stop_listener: bool)
        ensures
            old(self).phase is Running ==> final(self).phase is ShuttingDown,
            old(self).phase is Running ==> final(self).signal.fired && stop_listener,
            !(old(self).phase is Running) ==> (*final(self) == *old(self) && !stop_listener),
            old(self).wf() ==> final(self).wf(),
    {
        match self.phase {
            RunPhase::Running => {
                self.phase = RunPhase::ShuttingDown;
                self.signal.fire();
                true
            },
            _ => false,
        }
    }

    /// Every spawned task has completed; the coordinator reaches its
    /// terminal phase.
    pub fn on_all_tasks_done(&mut self)
        ensures
            old(self).phase is ShuttingDown ==> final(self).phase is Stopped,
            !(old(self).phase is ShuttingDown) ==> final(self).phase == old(self).phase,
            final(self).signal == old(self).signal,
            old(self).wf() ==> final(self).wf(),
    {
        match self.phase {
            RunPhase::ShuttingDown => {
                self.phase = RunPhase::Stopped;
            },
            _ => {},
        }
    }
}

/// The first task failure in the list, if any.
pub open spec fn spec_first_error(rs: Seq<Result<(), TwitchBotError>>) -> Result<
    (),
    TwitchBotError,
>
    decreases rs.len(),
{
    if rs.len() == 0 {
        Ok(())
    } else {
        match rs[0] {
            Err(e) => Err(e),
            Ok(_) => spec_first_error(rs.skip(1)),
        }
    }
}

proof fn lemma_first_error_skip(rs: Seq<Result<(), TwitchBotError>>, i: int)
    requires
        0 <= i <= rs.len(),
        forall|j: int| 0 <= j < i ==> (#[trigger] rs[j]) is Ok,
    ensures
        spec_first_error(rs) == spec_first_error(rs.skip(i)),
    decreases i,
{
    if i > 0 {
        assert(rs[0] is Ok);
        assert(forall|j: int| 0 <= j < i - 1 ==> (#[trigger] rs.skip(1)[j]) == rs[j + 1]);
        lemma_first_error_skip(rs.skip(1), i - 1);
        assert(rs.skip(1).skip(i - 1) =~= rs.skip(i));
    } else {
        assert(rs.skip(0) =~= rs);
    }
}

/// Joins the outcomes of every spawned task: if any task reported an
/// error, the whole process exits with the first one, regardless of the
/// others; there is no partial-success mode.
pub fn first_error(results: &Vec<Result<(), TwitchBotError>>) -> (r: Result<(), TwitchBotError>)
    ensures
        r == spec_first_error(results@),
{
    let n = results.len();
    let mut i: usize = 0;
    while i < n
        invariant
            i <= n,
            n == results@.len(),
            forall|j: int| 0 <= j < i ==> (#[trigger] results@[j]) is Ok,
        decreases n - i,
    {
        match results[i] {
            Err(e) => {
                proof {
                    lemma_first_error_skip(results@, i as int);
                }
                return Err(e);
            },
            Ok(_) => {},
        }
        i = i + 1;
    }
    proof {
        lemma_first_error_skip(results@, n as int);
        assert(results@.skip(n as int) =~= Seq::<Result<(), TwitchBotError>>::empty());
    }
    Ok(())
}

} // verus!
