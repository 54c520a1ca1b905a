use fanout::broadcast::Broadcaster;
use fanout::stream::StreamAdapter;
use fanout::stream::StreamStep;

fn next_event(a: &mut StreamAdapter, b: &mut Broadcaster) -> (u64, String) {
    match a.poll(b, false) {
        StreamStep::Event(rec) => (rec.sequence, rec.payload),
        StreamStep::Skipped(n) => panic!("unexpected skip of {}", n),
        StreamStep::Idle => panic!("unexpected idle"),
        StreamStep::End => panic!("unexpected end"),
    }
}

#[test]
fn scenario_two_subscribers() {
    let mut b = Broadcaster::new(1000);
    let mut s1 = StreamAdapter::open(&mut b);
    b.publish(String::from("a")).unwrap();
    b.publish(String::from("b")).unwrap();
    let (seq, payload) = next_event(&mut s1, &mut b);
    assert_eq!(seq, 0);
    assert_eq!(payload, "a");
    let (seq, payload) = next_event(&mut s1, &mut b);
    assert_eq!(seq, 1);
    assert_eq!(payload, "b");
    let mut s2 = StreamAdapter::open(&mut b);
    b.publish(String::from("c")).unwrap();
    let (seq, payload) = next_event(&mut s1, &mut b);
    assert_eq!(seq, 2);
    assert_eq!(payload, "c");
    let (seq, payload) = next_event(&mut s2, &mut b);
    assert_eq!(seq, 0);
    assert_eq!(payload, "c");
    assert!(matches!(s1.poll(&mut b, false), StreamStep::Idle));
    assert!(matches!(s2.poll(&mut b, false), StreamStep::Idle));
}

#[test]
fn shutdown_scenario_both_streams_end() {
    let mut b = Broadcaster::new(1000);
    let mut s1 = StreamAdapter::open(&mut b);
    let mut s2 = StreamAdapter::open(&mut b);
    assert_eq!(b.live, 2);
    b.shutdown();
    assert!(matches!(s1.poll(&mut b, false), StreamStep::End));
    assert!(matches!(s2.poll(&mut b, false), StreamStep::End));
    assert_eq!(b.live, 0);
    assert!(matches!(s1.poll(&mut b, false), StreamStep::End));
    assert!(matches!(s2.poll(&mut b, false), StreamStep::End));
}

#[test]
fn cancellation_ends_only_this_stream() {
    let mut b = Broadcaster::new(1000);
    let mut s1 = StreamAdapter::open(&mut b);
    let mut s2 = StreamAdapter::open(&mut b);
    assert!(matches!(s1.poll(&mut b, true), StreamStep::End));
    assert_eq!(b.live, 1);
    b.publish(String::from("still on")).unwrap();
    let (seq, payload) = next_event(&mut s2, &mut b);
    assert_eq!(seq, 0);
    assert_eq!(payload, "still on");
    assert!(matches!(s1.poll(&mut b, false), StreamStep::End));
}

#[test]
fn lag_is_skipped_silently_and_numbering_never_repeats() {
    let mut b = Broadcaster::new(2);
    let mut a = StreamAdapter::open(&mut b);
    b.publish(String::from("m0")).unwrap();
    let (seq, payload) = next_event(&mut a, &mut b);
    assert_eq!(seq, 0);
    assert_eq!(payload, "m0");
    for i in 1..6 {
        b.publish(format!("m{}", i)).unwrap();
    }
    match a.poll(&mut b, false) {
        StreamStep::Skipped(n) => assert_eq!(n, 3),
        _ => panic!("expected a silent skip"),
    }
    let (seq, payload) = next_event(&mut a, &mut b);
    assert_eq!(seq, 1);
    assert_eq!(payload, "m4");
    let (seq, payload) = next_event(&mut a, &mut b);
    assert_eq!(seq, 2);
    assert_eq!(payload, "m5");
    assert!(matches!(a.poll(&mut b, false), StreamStep::Idle));
}

#[test]
fn idle_until_published() {
    let mut b = Broadcaster::new(1000);
    let mut a = StreamAdapter::open(&mut b);
    assert!(matches!(a.poll(&mut b, false), StreamStep::Idle));
    b.publish(String::from("x")).unwrap();
    let (seq, payload) = next_event(&mut a, &mut b);
    assert_eq!(seq, 0);
    assert_eq!(payload, "x");
}
