use slakkotron::watchdog::{TICKET_CAPACITY, WATCHDOG_DEADLINE_MS};
use slakkotron::Watchdog;

#[test]
fn single_ticket_feeds_hardware_each_time() {
    let mut wd = Watchdog::new();
    let (t, hw) = wd.ticket();
    assert_eq!(t.position(), 0);
    assert!(hw);
    assert!(t.feed(&mut wd));
    assert!(t.feed(&mut wd));
}

#[test]
fn hardware_fed_only_when_all_tickets_reported() {
    let mut wd = Watchdog::new();
    let (a, _) = wd.ticket();
    let (b, hw_b) = wd.ticket();
    let (c, hw_c) = wd.ticket();
    assert_eq!((a.position(), b.position(), c.position()), (0, 1, 2));
    assert!(!hw_b);
    assert!(!hw_c);
    // b and c reported on issue; a completes the round.
    assert!(a.feed(&mut wd));
    // Mask cleared: fewer than all tickets, however often, never feed.
    for _ in 0..10 {
        assert!(!a.feed(&mut wd));
        assert!(!b.feed(&mut wd));
    }
    assert!(c.feed(&mut wd));
    assert!(!c.feed(&mut wd));
    assert!(!b.feed(&mut wd));
    assert!(a.feed(&mut wd));
}

#[test]
fn full_capacity_of_tickets() {
    let mut wd = Watchdog::new();
    let mut tickets = Vec::new();
    for _ in 0..TICKET_CAPACITY {
        tickets.push(wd.ticket().0);
    }
    let mut fed = 0;
    for t in &tickets {
        if t.feed(&mut wd) {
            fed += 1;
        }
    }
    assert_eq!(fed, 1);
    assert!(!tickets[3].feed(&mut wd));
}

#[test]
fn deadline_leaves_a_second_of_margin() {
    assert_eq!(WATCHDOG_DEADLINE_MS, 29_000);
}
