use statsd::clock::Timestamp;
use statsd::server::backend::Statistics;
use statsd::server::buckets::Buckets;
use statsd::server::config::{Config, Startup};
use statsd::server::daemon::{handle_event, reply, Backends, Event};
use std::cell::RefCell;

fn to_bits(text: Vec<u8>) -> Option<u64> {
    std::str::from_utf8(&text).ok()?.parse::<f64>().ok().map(f64::to_bits)
}

fn add(acc: u64, value: u64, rate: u64) -> u64 {
    (f64::from_bits(acc) + f64::from_bits(value) * (1.0 / f64::from_bits(rate))).to_bits()
}

fn shown(bits: u64) -> Vec<u8> {
    format!("{}", f64::from_bits(bits)).into_bytes()
}

fn flat(list: Vec<u64>) -> Statistics {
    let first = list[0];
    Statistics { min: first, max: first, mean: first, std_dev: 0, upper_95: first }
}

fn configured(list: &[&str]) -> Config {
    let args: Vec<Vec<u8>> = list.iter().map(|a| a.as_bytes().to_vec()).collect();
    match Config::from_args(&args) {
        Startup::Run(c) => c,
        _ => panic!("not run"),
    }
}

fn udp(line: &str) -> Event<u8> {
    Event::UdpMessage(line.as_bytes().to_vec())
}

#[test]
fn backends_follow_the_configuration() {
    let none = Backends::of(&configured(&[]));
    assert!(none.graphite.is_none() && none.console.is_none());
    let both = Backends::of(&configured(&["--console", "--graphite", "h"]));
    assert!(both.console.is_some());
    let g = both.graphite.unwrap();
    assert_eq!((g.last_flush_time, g.last_flush_length, g.prefix), (0, 0, Vec::new()));
    let console = Backends::of(&configured(&["--console"]));
    assert!(console.graphite.is_none() && console.console.is_some());
}

#[test]
fn a_datagram_is_taken_in_and_a_bad_one_counted() {
    let mut buckets = Buckets::started_at(Timestamp { sec: 0, nsec: 0 });
    let mut backends = Backends::of(&configured(&["--console"]));
    let out = RefCell::new(Vec::new());
    for line in ["hits:1|c", "hits:2|c|@0.5", "oops", "load:3|g"] {
        let r = handle_event(&mut buckets, &mut backends, udp(line), to_bits, add, shown, flat,
            |t| out.borrow_mut().push(("send", t)), |t| out.borrow_mut().push(("print", t)));
        assert_eq!(r, None);
    }
    assert_eq!(buckets.counters.get(b"hits").map(|b| f64::from_bits(*b)), Some(5.0));
    assert_eq!(buckets.gauges.get(b"load").map(|b| f64::from_bits(*b)), Some(3.0));
    assert_eq!((buckets.bad_messages, buckets.total_messages), (1, 3));
    assert!(out.borrow().is_empty());
}

#[test]
fn a_flush_tick_reports_in_order_and_empties_the_store() {
    let mut buckets = Buckets::started_at(Timestamp { sec: 0, nsec: 0 });
    let mut backends = Backends::of(&configured(&["--console", "--graphite", "h"]));
    let out: RefCell<Vec<(&str, String)>> = RefCell::new(Vec::new());
    handle_event(&mut buckets, &mut backends, udp("hits:3|c"), to_bits, add, shown, flat,
        |_| {}, |_| {});
    let r = handle_event(&mut buckets, &mut backends, Event::<u8>::FlushTimer, to_bits, add, shown, flat,
        |t| out.borrow_mut().push(("send", String::from_utf8(t).unwrap())),
        |t| out.borrow_mut().push(("print", String::from_utf8(t).unwrap())));
    assert_eq!(r, None);
    let out = out.into_inner();
    assert_eq!(out.len(), 2);
    assert_eq!(out[0].0, "send");
    assert!(out[0].1.starts_with("counters.hits 3 "));
    assert_eq!(out[1].0, "print");
    assert!(out[1].1.contains("  counters:\n    hits: 3\n"));
    assert_eq!(buckets.counters.len(), 0);
    assert_eq!(buckets.total_messages, 1);
    assert!(backends.graphite.as_ref().unwrap().last_flush_time > 1_000_000_000);
}

#[test]
fn a_flush_tick_without_backends_empties_the_store() {
    let mut buckets = Buckets::started_at(Timestamp { sec: 0, nsec: 0 });
    let mut backends = Backends::of(&configured(&[]));
    let calls = RefCell::new(0);
    handle_event(&mut buckets, &mut backends, udp("t:3|ms"), to_bits, add, shown, flat, |_| {}, |_| {});
    assert_eq!(buckets.timers.len(), 1);
    handle_event(&mut buckets, &mut backends, Event::<u8>::FlushTimer, to_bits, add, shown, flat,
        |_| *calls.borrow_mut() += 1, |_| *calls.borrow_mut() += 1);
    assert_eq!(*calls.borrow(), 0);
    assert_eq!(buckets.timers.len(), 0);
    backends.flush(&mut buckets, shown, flat, |_| *calls.borrow_mut() += 1, |_| *calls.borrow_mut() += 1);
    assert_eq!(*calls.borrow(), 0);
}

#[test]
fn a_connection_is_handed_back() {
    let mut buckets = Buckets::started_at(Timestamp { sec: 0, nsec: 0 });
    let mut backends = Backends::of(&configured(&["--console"]));
    let r = handle_event(&mut buckets, &mut backends, Event::TcpMessage("conn"), to_bits, add, shown, flat, |_| {}, |_| {});
    assert_eq!(r, Some("conn"));
    assert_eq!((buckets.bad_messages, buckets.total_messages), (0, 0));
}

#[test]
fn a_reply_ends_with_a_newline() {
    let mut buckets = Buckets::started_at(Timestamp { sec: 0, nsec: 0 });
    buckets.handle_message(b"a:1|c", to_bits, add);
    assert_eq!(reply(&mut buckets, b"clear counters\n"), (b"Counters cleared.\n".to_vec(), false));
    assert_eq!(buckets.counters.len(), 0);
    assert_eq!(reply(&mut buckets, b"nope\n"), (b"ERROR: Unknown command: nope\n".to_vec(), false));
    assert_eq!(reply(&mut buckets, b"quit\n"), (b"END\n".to_vec(), true));
}
