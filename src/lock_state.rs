use vstd::prelude::*;

verus! {

/// Where one handle of the cooperative lock stands. Every handle, clones included, starts
/// idle and keeps its own phase.
#[derive(Debug, Clone, Copy, PartialEq, Eq, Structural)]
pub enum LockPhase {
    /// No acquisition is in flight and no guard is held.
    Idle,
    /// One acquisition is in flight.
    Acquiring,
    /// The handle holds the guard.
    Held,
}

/// What a handle does with the lock when its owner asks to be ready.
#[derive(Debug, Clone, Copy, PartialEq, Eq, Structural)]
pub enum PollAction {
    /// It already holds the guard: nothing to poll.
    Ready,
    /// Start a fresh acquisition and poll it.
    Start,
    /// Poll the acquisition in flight again.
    Resume,
}

/// One thing that happens to a handle.
pub enum LockEvent {
    /// The owner asks to be ready; when an acquisition is polled, `true` if it completed.
    Poll(bool),
    /// The owner uses the guard and gives it back.
    Release,
}

impl LockPhase {
    /// The action for a handle in this phase.
    pub open spec fn spec_action(self) -> PollAction {
        match self {
            LockPhase::Idle => PollAction::Start,
            LockPhase::Acquiring => PollAction::Resume,
            LockPhase::Held => PollAction::Ready,
        }
    }

    /// The phase after a poll whose acquisition completed when `granted`.
    pub open spec fn spec_after_poll(self, granted: bool) -> LockPhase {
        match self {
            LockPhase::Held => LockPhase::Held,
            _ => if granted {
                LockPhase::Held
            } else {
                LockPhase::Acquiring
            },
        }
    }

    /// The phase of a new handle, and of every clone of a handle.
    pub fn new() -> (r: LockPhase)
        ensures
            r == LockPhase::Idle,
    {
        LockPhase::Idle
    }

    /// What to do with the lock when the owner asks to be ready: an acquisition in flight
    /// is reused, a fresh one is started only when none is.
    pub fn poll_action(&self) -> (r: PollAction)
        ensures
            r == self.spec_action(),
    {
        match self {
            LockPhase::Idle => PollAction::Start,
            LockPhase::Acquiring => PollAction::Resume,
            LockPhase::Held => PollAction::Ready,
        }
    }

    /// The phase after the poll: a completed acquisition clears the one in flight and
    /// hands over the guard.
    pub fn after_poll(&self, granted: bool) -> (r: LockPhase)
        ensures
            r == self.spec_after_poll(granted),
    {
        match self {
            LockPhase::Held => LockPhase::Held,
            _ => if granted {
                LockPhase::Held
            } else {
                LockPhase::Acquiring
            },
        }
    }

    /// The phase after the guard is used and given back; `None` for a handle that does not
    /// hold it.
    pub fn release(&self) -> (r: Option<LockPhase>)
        ensures
            r == (if *self == LockPhase::Held {
                Some(LockPhase::Idle)
            } else {
                None::<LockPhase>
            }),
    {
        match self {
            LockPhase::Held => Some(LockPhase::Idle),
            _ => None,
        }
    }
}

/// The phase after one event; a release without the guard is refused and changes nothing.
pub open spec fn lock_step(p: LockPhase, e: LockEvent) -> LockPhase {
    match e {
        LockEvent::Poll(granted) => p.spec_after_poll(granted),
        LockEvent::Release => if p == LockPhase::Held {
            LockPhase::Idle
        } else {
            p
        },
    }
}

/// The phase after a sequence of events.
pub open spec fn lock_run(p: LockPhase, evs: Seq<LockEvent>) -> LockPhase
    decreases evs.len(),
{
    if evs.len() == 0 {
        p
    } else {
        lock_run(lock_step(p, evs[0]), evs.drop_first())
    }
}

/// How many acquisitions a run starts.
pub open spec fn starts(p: LockPhase, evs: Seq<LockEvent>) -> nat
    decreases evs.len(),
{
    if evs.len() == 0 {
        0
    } else {
        (if evs[0] is Poll && p == LockPhase::Idle {
            1nat
        } else {
            0nat
        }) + starts(lock_step(p, evs[0]), evs.drop_first())
    }
}

/// How many guards a run grants.
pub open spec fn grants(p: LockPhase, evs: Seq<LockEvent>) -> nat
    decreases evs.len(),
{
    if evs.len() == 0 {
        0
    } else {
        (if evs[0] == LockEvent::Poll(true) && p != LockPhase::Held {
            1nat
        } else {
            0nat
        }) + grants(lock_step(p, evs[0]), evs.drop_first())
    }
}

/// How many guards a run gives back.
pub open spec fn releases(p: LockPhase, evs: Seq<LockEvent>) -> nat
    decreases evs.len(),
{
    if evs.len() == 0 {
        0
    } else {
        (if evs[0] is Release && p == LockPhase::Held {
            1nat
        } else {
            0nat
        }) + releases(lock_step(p, evs[0]), evs.drop_first())
    }
}

/// 1 when `b` holds, else 0.
pub open spec fn one_if(b: bool) -> nat {
    if b {
        1
    } else {
        0
    }
}

/// Over any run of one handle, every started acquisition grants exactly one guard unless
/// it is still in flight, and the handle never holds two live guards: every guard it
/// was granted has been given back, but for the one it may hold now.
pub proof fn lemma_one_guard_per_acquisition(p: LockPhase, evs: Seq<LockEvent>)
    ensures
        starts(p, evs) + one_if(p == LockPhase::Acquiring) == grants(p, evs) + one_if(
            lock_run(p, evs) == LockPhase::Acquiring,
        ),
        grants(p, evs) + one_if(p == LockPhase::Held) == releases(p, evs) + one_if(
            lock_run(p, evs) == LockPhase::Held,
        ),
    decreases evs.len(),
{
    if evs.len() > 0 {
        lemma_one_guard_per_acquisition(lock_step(p, evs[0]), evs.drop_first());
    }
}

} // verus!
