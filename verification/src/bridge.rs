//! The notification bridge: one wake-up slot that every edge source signals
//! and that the control loop waits on.

use vstd::prelude::*;

verus! {

/// How long a wait may last, in ticks of the scheduler.
#[derive(Clone, Copy, Debug, PartialEq, Eq, Structural)]
pub enum WaitLimit {
    /// Wait until a signal arrives, however long that takes.
    Forever,
    /// Give up once this many ticks have passed without a signal.
    Ticks(u32),
}

/// What one look at the bridge tells the waiting task.
#[derive(Clone, Copy, Debug, PartialEq, Eq, Structural)]
pub enum WaitOutcome {
    /// A wake was pending and has been consumed.
    Woken,
    /// No wake arrived within the limit.
    TimedOut,
    /// No wake is pending and the limit has not run out: stay suspended.
    Suspended,
}

/// A single-slot wake channel with many producers and one consumer. Signals
/// that arrive before the consumer looks collapse into one pending wake.
#[derive(Clone, Copy, Debug, PartialEq, Eq, Structural)]
pub struct NotificationBridge {
    pub pending: bool,
}

/// The slot after one signal: a wake is pending, whether or not one was
/// pending before.
pub open spec fn signalled(bridge: NotificationBridge) -> NotificationBridge {
    NotificationBridge { pending: true }
}

/// The slot after `signals` signals in a row.
pub open spec fn after_signals(bridge: NotificationBridge, signals: nat) -> NotificationBridge
    decreases signals,
{
    if signals == 0 {
        bridge
    } else {
        signalled(after_signals(bridge, (signals - 1) as nat))
    }
}

/// What a wait returns when it finds the slot as `bridge` after `waited`
/// ticks of a wait limited by `limit`.
pub open spec fn wait_outcome(bridge: NotificationBridge, limit: WaitLimit, waited: u32)
    -> WaitOutcome {
    if bridge.pending {
        WaitOutcome::Woken
    } else {
        match limit {
            WaitLimit::Forever => WaitOutcome::Suspended,
            WaitLimit::Ticks(ticks) => if waited >= ticks {
                WaitOutcome::TimedOut
            } else {
                WaitOutcome::Suspended
            },
        }
    }
}

impl NotificationBridge {
    /// A bridge with no wake pending.
    pub fn new() -> (bridge: NotificationBridge)
        ensures
            !bridge.pending,
    {
        NotificationBridge { pending: false }
    }

    /// Marks a wake as pending. It neither blocks nor allocates, and a second
    /// signal before the wake is consumed changes nothing.
    pub fn signal(&mut self)
        ensures
            *final(self) == signalled(*old(self)),
    {
        self.pending = true;
    }

    /// Whether a wake is pending. Looking does not consume it.
    pub fn has_pending(&self) -> (pending: bool)
        ensures
            pending == self.pending,
    {
        self.pending
    }

    /// One look of the waiting task at the slot, `waited` ticks into a wait
    /// limited by `limit`. A pending wake is consumed and reported; without
    /// one the task stays suspended until the limit, if any, has run out.
    pub fn wait(&mut self, limit: WaitLimit, waited: u32) -> (outcome: WaitOutcome)
        ensures
            outcome == wait_outcome(*old(self), limit, waited),
            !final(self).pending,
    {
        if self.pending {
            self.pending = false;
            return WaitOutcome::Woken;
        }
        match limit {
            WaitLimit::Forever => WaitOutcome::Suspended,
            WaitLimit::Ticks(ticks) => {
                if waited >= ticks {
                    WaitOutcome::TimedOut
                } else {
                    WaitOutcome::Suspended
                }
            },
        }
    }
}

/// Any number of signals, one or more, leaves exactly the state that a single
/// signal leaves: one pending wake.
pub proof fn lemma_signals_collapse(bridge: NotificationBridge, signals: nat)
    requires
        signals >= 1,
    ensures
        after_signals(bridge, signals) == signalled(bridge),
        after_signals(bridge, signals).pending,
    decreases signals,
{
    if signals > 1 {
        lemma_signals_collapse(bridge, (signals - 1) as nat);
    }
}

/// After one or more signals the next wait wakes at once, whatever its limit,
/// and the wait after that finds nothing pending.
pub proof fn lemma_one_wake_per_burst(
    bridge: NotificationBridge,
    signals: nat,
    limit: WaitLimit,
    waited: u32,
)
    requires
        signals >= 1,
    ensures
        wait_outcome(after_signals(bridge, signals), limit, waited) == WaitOutcome::Woken,
        wait_outcome(NotificationBridge { pending: false }, limit, waited) != WaitOutcome::Woken,
{
    lemma_signals_collapse(bridge, signals);
}

} // verus!
