use slakkotron::supervisor::{earliest_deadline, MAX_POLL_MS, STABILIZATION_MS};
use slakkotron::{OutputMode, State, Status, Supervisor};

fn ok() -> Status {
    Status::from_register(0x00)
}

fn fault() -> Status {
    Status::from_register(0x40)
}

#[test]
fn boot_enables_then_stabilizes() {
    let mut s = Supervisor::new(500);
    assert_eq!(s.state(), State::Disabled);
    let a = s.step(&ok(), 1000);
    assert_eq!(s.state(), State::Enabling);
    assert_eq!(a.mode, Some(OutputMode::Active));
    assert_eq!(a.indicator, Some(true));
    assert_eq!(a.wake_at, 1000 + STABILIZATION_MS);
    let a = s.step(&ok(), 1050);
    assert_eq!(s.state(), State::Enabling);
    assert_eq!(a.mode, None);
    let a = s.step(&ok(), 1101);
    assert_eq!(s.state(), State::Enabled);
    assert_eq!(a.overcurrent_secs, None);
    assert_eq!(a.wake_at, 1101 + MAX_POLL_MS);
}

#[test]
fn fault_to_recovery_sequence() {
    let mut s = Supervisor::new(500);
    s.step(&ok(), 0);
    s.step(&ok(), 101);
    assert_eq!(s.state(), State::Enabled);
    let mut states = vec![s.state()];
    let mut events = Vec::new();
    let mut record = |s: &Supervisor, a: slakkotron::Actions, states: &mut Vec<State>| {
        if *states.last().unwrap() != s.state() {
            states.push(s.state());
        }
        if let Some(secs) = a.overcurrent_secs {
            events.push(secs);
        }
        a
    };

    let a = s.step(&fault(), 10_000);
    let a = record(&s, a, &mut states);
    assert_eq!(a.mode, Some(OutputMode::SafeIdle));
    assert_eq!(a.indicator, Some(false));
    assert_eq!(a.wake_at, 10_500);

    // Fault clears, but the backoff has not elapsed: no active write.
    let a = s.step(&ok(), 10_200);
    let a = record(&s, a, &mut states);
    assert_eq!(a.mode, None);
    let a = s.step(&ok(), 10_500);
    let a = record(&s, a, &mut states);
    assert_eq!(a.mode, None);

    let a = s.step(&ok(), 10_501);
    let a = record(&s, a, &mut states);
    assert_eq!(a.mode, Some(OutputMode::Active));
    assert_eq!(a.indicator, Some(true));

    let a = s.step(&ok(), 12_700);
    record(&s, a, &mut states);

    assert_eq!(states, vec![State::Enabled, State::Ocp, State::Enabling, State::Enabled]);
    assert_eq!(events, vec![2]);
}

#[test]
fn second_fault_before_stabilization_extends_episode() {
    let mut s = Supervisor::new(500);
    s.step(&ok(), 0);
    s.step(&ok(), 101);
    let mut events = Vec::new();
    s.step(&fault(), 1_000);
    s.step(&ok(), 1_501);
    assert_eq!(s.state(), State::Enabling);
    let a = s.step(&fault(), 1_550);
    assert_eq!(s.state(), State::Ocp);
    assert_eq!(a.mode, Some(OutputMode::SafeIdle));
    assert_eq!(a.overcurrent_secs, None);
    let a = s.step(&ok(), 2_000);
    assert_eq!(a.mode, None);
    let a = s.step(&ok(), 2_051);
    assert_eq!(a.mode, Some(OutputMode::Active));
    for t in [2_100, 2_152, 5_000, 9_000] {
        if let Some(secs) = s.step(&ok(), t).overcurrent_secs {
            events.push(secs);
        }
    }
    assert_eq!(s.state(), State::Enabled);
    // One episode, measured from the first fault at 1 s to 2.152 s.
    assert_eq!(events, vec![1]);
}

#[test]
fn repeated_fault_reads_do_not_push_backoff() {
    let mut s = Supervisor::new(500);
    s.step(&ok(), 0);
    s.step(&ok(), 101);
    let a = s.step(&fault(), 1_000);
    assert_eq!(a.wake_at, 1_500);
    let a = s.step(&fault(), 1_400);
    assert_eq!(a.wake_at, 1_500);
    assert_eq!(s.backoff_until, Some(1_500));
    let a = s.step(&ok(), 1_501);
    assert_eq!(a.mode, Some(OutputMode::Active));
}

#[test]
fn short_circuit_is_a_fault_over_voltage_is_not() {
    let mut s = Supervisor::new(100);
    s.step(&ok(), 0);
    s.step(&Status::from_register(0x20), 200);
    assert_eq!(s.state(), State::Enabled);
    s.step(&Status::from_register(0x80), 300);
    assert_eq!(s.state(), State::Ocp);
}

#[test]
fn backoff_can_be_changed() {
    let mut s = Supervisor::new(500);
    s.set_backoff(2_000);
    assert_eq!(s.backoff_ms, 2_000);
    s.step(&ok(), 0);
    let a = s.step(&fault(), 50);
    assert_eq!(a.wake_at, 2_050);
}

#[test]
fn earliest_deadline_picks_minimum() {
    assert_eq!(earliest_deadline(&[]), None);
    assert_eq!(earliest_deadline(&[None, None]), None);
    assert_eq!(earliest_deadline(&[Some(5), None, Some(3), Some(9)]), Some(3));
    assert_eq!(earliest_deadline(&[None, Some(7)]), Some(7));
}
