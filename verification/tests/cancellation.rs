//! The one-shot cancellation gate and the termination policies.

use murmur::gate::should_stop;
use murmur::gate::CancellationGate;
use murmur::gate::TerminationPolicy;
use murmur::gate::WaitOutcome;

#[test]
fn gate_fires_exactly_once() {
    let mut gate = CancellationGate::new();
    assert_eq!(gate.poll(), WaitOutcome::KeepWaiting);
    assert!(gate.fire());
    assert_eq!(gate.poll(), WaitOutcome::Stop);
    // a second notification attempt is tolerated and changes nothing
    assert!(!gate.fire());
    assert_eq!(gate.poll(), WaitOutcome::Stop);
}

#[test]
fn dropped_sender_fails_the_wait() {
    let mut gate = CancellationGate::new();
    gate.abandon();
    assert_eq!(gate.poll(), WaitOutcome::Failed);
}

#[test]
fn abandon_after_fire_keeps_the_verdict() {
    let mut gate = CancellationGate::new();
    assert!(gate.fire());
    gate.abandon();
    assert_eq!(gate.poll(), WaitOutcome::Stop);
}

#[test]
fn signal_policy_stops_on_the_interrupt_only() {
    let mut gate = CancellationGate::new();
    assert!(!should_stop(TerminationPolicy::SignalBased, &gate, u64::MAX));
    gate.fire();
    assert!(should_stop(TerminationPolicy::SignalBased, &gate, 0));
}

#[test]
fn duration_policy_stops_when_the_time_is_up() {
    let gate = CancellationGate::new();
    let policy = TerminationPolicy::DurationBased { millis: 5000 };
    assert!(!should_stop(policy, &gate, 4999));
    assert!(should_stop(policy, &gate, 5000));
    assert!(should_stop(policy, &gate, 5001));
}
