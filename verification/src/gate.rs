//! The cancellation gate: the one-shot signal that ends a capture, and the
//! termination policies built on it.
//!
//! The process interrupt handler is the sole sender and sends exactly one
//! notification; the controlling thread blocks until the notification
//! arrives or the sender is dropped. Blocking itself is the caller's I/O;
//! the signal's state and the decisions taken on it are verified here. A
//! second notification attempt must never crash the interrupt handler: it
//! is tolerated and changes nothing.

use vstd::prelude::*;

verus! {

/// The three states of the one-shot signal.
#[derive(Clone, Copy, Debug, PartialEq, Eq, Structural)]
enum GateState {
    /// No notification yet; the consumer keeps waiting.
    Pending,
    /// The single notification arrived; capture must stop.
    Fired,
    /// The sender is gone without firing; the wait fails.
    Abandoned,
}

/// What a consumer observing the signal should do.
#[derive(Clone, Copy, Debug, PartialEq, Eq, Structural)]
pub enum WaitOutcome {
    /// Nothing happened yet: keep blocking.
    KeepWaiting,
    /// The interrupt fired: stop capture now.
    Stop,
    /// The sender disappeared without firing: the wait has failed.
    Failed,
}

/// A one-sender, one-consumer one-shot signal.
pub struct CancellationGate {
    state: GateState,
}

impl CancellationGate {
    /// No notification has been sent yet.
    pub closed spec fn is_pending(self) -> bool {
        self.state is Pending
    }

    /// The single notification has been sent.
    pub closed spec fn is_fired(self) -> bool {
        self.state is Fired
    }

    /// The sender is gone without ever firing.
    pub closed spec fn is_abandoned(self) -> bool {
        self.state is Abandoned
    }

    /// A fresh gate, waiting for its single notification.
    pub fn new() -> (gate: CancellationGate)
        ensures
            gate.is_pending(),
    {
        CancellationGate { state: GateState::Pending }
    }

    /// The sender's notification. The first call fires the signal and
    /// reports that it was the one that did; any further attempt — a
    /// second interrupt, or one arriving after the consumer is done — is
    /// tolerated: it changes nothing and must never crash the handler.
    pub fn fire(&mut self) -> (fired_now: bool)
        ensures
            old(self).is_pending() ==> final(self).is_fired() && fired_now,
            !old(self).is_pending() ==> *final(self) == *old(self) && !fired_now,
    {
        match self.state {
            GateState::Pending => {
                self.state = GateState::Fired;
                true
            },
            _ => false,
        }
    }

    /// The sender is dropped without having fired. A sender that
    /// already fired leaves the verdict as it is.
    pub fn abandon(&mut self)
        ensures
            old(self).is_pending() ==> final(self).is_abandoned(),
            !old(self).is_pending() ==> *final(self) == *old(self),
    {
        match self.state {
            GateState::Pending => {
                self.state = GateState::Abandoned;
            },
            _ => {},
        }
    }

    /// The consumer's view of the signal: keep blocking while it is pending,
    /// stop once it fired, fail if the sender is gone.
    pub fn poll(&self) -> (outcome: WaitOutcome)
        ensures
            outcome is KeepWaiting <==> self.is_pending(),
            outcome is Stop <==> self.is_fired(),
            outcome is Failed <==> self.is_abandoned(),
    {
        match self.state {
            GateState::Pending => WaitOutcome::KeepWaiting,
            GateState::Fired => WaitOutcome::Stop,
            GateState::Abandoned => WaitOutcome::Failed,
        }
    }
}

/// When a capture ends: on the user's interrupt, or after a fixed
/// duration. Both policies are supported; nothing else ends a capture.
#[derive(Clone, Copy, Debug, PartialEq, Eq, Structural)]
pub enum TerminationPolicy {
    /// Capture until the one-shot signal resolves; there is no timeout.
    SignalBased,
    /// Capture for a fixed duration, in milliseconds.
    DurationBased { millis: u64 },
}

/// Whether capture is over under the chosen policy: for signal-based
/// capture exactly when the signal is no longer pending, for duration-based
/// capture exactly when the duration has elapsed.
pub fn should_stop(policy: TerminationPolicy, gate: &CancellationGate, elapsed_millis: u64) -> (stop:
    bool)
    ensures
        policy is SignalBased ==> (stop <==> !gate.is_pending()),
        policy matches TerminationPolicy::DurationBased { millis } ==> (stop <==> elapsed_millis
            >= millis),
{
    match policy {
        TerminationPolicy::SignalBased => {
            match gate.poll() {
                WaitOutcome::KeepWaiting => false,
                _ => true,
            }
        },
        TerminationPolicy::DurationBased { millis } => elapsed_millis >= millis,
    }
}

} // verus!
