use bench_tokio_sleep::producer::Producer;

#[test]
fn producer_sends_ascending_then_closes() {
    let mut p = Producer::new(3);
    assert_eq!(p.next_value(), Some(0));
    assert_eq!(p.next_value(), Some(1));
    assert_eq!(p.next_value(), Some(2));
    assert_eq!(p.sent(), 3);
    assert_eq!(p.next_value(), None);
    assert_eq!(p.next_value(), None);
    assert_eq!(p.sent(), 3);
}

#[test]
fn empty_producer_closes_at_once() {
    let mut p = Producer::new(0);
    assert_eq!(p.next_value(), None);
}
