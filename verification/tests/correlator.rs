use stress_relay::correlator::ResponseCorrelator;

#[test]
fn tickets_are_handed_out_in_order() {
    let mut table = ResponseCorrelator::new();
    assert_eq!(table.len(), 0);
    assert!(table.has_tickets());
    assert_eq!(table.register("create-room"), 0);
    assert_eq!(table.register("join-room"), 1);
    assert_eq!(table.register("start-test"), 2);
    assert_eq!(table.len(), 3);
    assert!(table.is_waiting_for("join-room"));
    assert!(!table.is_waiting_for("leave-room"));
}

#[test]
fn a_reply_resolves_its_request_once() {
    let mut table = ResponseCorrelator::new();
    table.register("create-room");
    let ticket = table.register("join-room");
    assert_eq!(table.resolve("join-room"), Some(ticket));
    assert_eq!(table.len(), 1);
    assert_eq!(table.resolve("join-room"), None);
    assert_eq!(table.resolve("never-sent"), None);
    assert_eq!(table.len(), 1);
}

#[test]
fn a_second_request_of_a_type_displaces_the_first() {
    let mut table = ResponseCorrelator::new();
    let first = table.register("join-room");
    let second = table.register("join-room");
    assert_ne!(first, second);
    assert_eq!(table.len(), 1);
    assert!(!table.expire(first));
    assert_eq!(table.len(), 1);
    assert_eq!(table.resolve("join-room"), Some(second));
    assert_eq!(table.len(), 0);
}

#[test]
fn giving_up_restores_the_table() {
    let mut table = ResponseCorrelator::new();
    table.register("create-room");
    let before = table.len();
    let ticket = table.register("join-room");
    assert_eq!(table.len(), before + 1);
    assert!(table.expire(ticket));
    assert_eq!(table.len(), before);
    assert!(!table.is_waiting_for("join-room"));
    assert!(table.is_waiting_for("create-room"));
    assert!(!table.expire(ticket));
    assert_eq!(table.len(), before);
}

#[test]
fn draining_hands_back_every_ticket() {
    let mut table = ResponseCorrelator::new();
    let a = table.register("create-room");
    let b = table.register("join-room");
    let c = table.register("start-test");
    table.resolve("join-room");
    let d = table.register("leave-room");
    assert_eq!(table.drain(), vec![a, c, d]);
    assert_eq!(table.len(), 0);
    assert_eq!(table.drain(), Vec::<u64>::new());
    assert!(!table.expire(b));
    assert_eq!(table.register("create-room"), 4);
}
