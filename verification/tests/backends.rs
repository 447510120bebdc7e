use statsd::clock::Timestamp;
use statsd::metric::{Metric, MetricKind};
use statsd::server::backend::{Backend, Reading, Snapshot, Statistics, Summary};
use statsd::server::backends::console::Console;
use statsd::server::backends::graphite::Graphite;
use statsd::server::buckets::Buckets;
use std::cell::RefCell;

fn show(bits: u64) -> Vec<u8> {
    format!("{}", f64::from_bits(bits)).into_bytes()
}

fn summarize(list: Vec<u64>) -> Statistics {
    let mut sorted: Vec<f64> = list.iter().map(|b| f64::from_bits(*b)).collect();
    sorted.sort_by(|a, b| a.partial_cmp(b).unwrap());
    let n = sorted.len() as f64;
    let mean = sorted.iter().sum::<f64>() / n;
    let var = if sorted.len() < 2 {
        0.0
    } else {
        sorted.iter().map(|x| (x - mean) * (x - mean)).sum::<f64>() / (n - 1.0)
    };
    let rank = 0.95 * (n - 1.0);
    let low = rank.floor() as usize;
    let high = (low + 1).min(sorted.len() - 1);
    let upper = sorted[low] + (sorted[high] - sorted[low]) * (rank - rank.floor());
    Statistics {
        min: sorted[0].to_bits(),
        max: sorted[sorted.len() - 1].to_bits(),
        mean: mean.to_bits(),
        std_dev: var.sqrt().to_bits(),
        upper_95: upper.to_bits(),
    }
}

fn sum(acc: u64, value: u64, rate: u64) -> u64 {
    (f64::from_bits(acc) + f64::from_bits(value) * (1.0 / f64::from_bits(rate))).to_bits()
}

fn one(kind: MetricKind, name: &str, value: f64) -> Metric {
    Metric { kind, name: name.as_bytes().to_vec(), value: value.to_bits() }
}

fn hits() -> Buckets {
    let mut b = Buckets::started_at(Timestamp { sec: 0, nsec: 0 });
    b.add_metric(one(MetricKind::Counter(1.0f64.to_bits()), "hits", 3.0), sum);
    b
}

fn busy() -> Buckets {
    let mut b = hits();
    b.add_metric(one(MetricKind::Gauge, "load", 0.5), sum);
    for v in [1.0, 2.0, 3.0] {
        b.add_metric(one(MetricKind::Timer, "t", v), sum);
    }
    b.add_metric(one(MetricKind::Histogram, "h", 4.0), sum);
    b.add_metric(one(MetricKind::Counter(1.0f64.to_bits()), "misses", 1.0), sum);
    b.add_metric(one(MetricKind::Meter, "m", 1.0), sum);
    b
}

fn reading(key: &str, value: &str) -> Reading {
    Reading { key: key.as_bytes().to_vec(), value: value.as_bytes().to_vec() }
}

fn string(bytes: Vec<u8>) -> String {
    String::from_utf8(bytes).unwrap()
}

#[test]
fn snapshot_reports_every_table_in_order() {
    let snap = Snapshot::take(&busy(), show, summarize);
    assert_eq!(snap.counters, vec![reading("hits", "3"), reading("misses", "1")]);
    assert_eq!(snap.gauges, vec![reading("load", "0.5")]);
    assert_eq!(
        snap.timers,
        vec![Summary {
            key: b"t".to_vec(),
            min: b"1".to_vec(),
            max: b"3".to_vec(),
            count: 3,
            mean: b"2".to_vec(),
            std_dev: b"1".to_vec(),
            upper_95: b"2.9".to_vec(),
        }]
    );
    assert_eq!(
        snap.histograms,
        vec![Summary {
            key: b"h".to_vec(),
            min: b"4".to_vec(),
            max: b"4".to_vec(),
            count: 1,
            mean: b"4".to_vec(),
            std_dev: b"0".to_vec(),
            upper_95: b"4".to_vec(),
        }]
    );
}

#[test]
fn snapshot_hands_the_samples_to_summarize_as_they_arrived() {
    let mut b = Buckets::started_at(Timestamp { sec: 0, nsec: 0 });
    for v in [3, 1, 2] {
        b.record(Metric { kind: MetricKind::Timer, name: b"t".to_vec(), value: v }, 0, Timestamp { sec: 0, nsec: 0 });
    }
    let snap = Snapshot::take(
        &b,
        |bits| format!("<{}>", bits).into_bytes(),
        |list| {
            assert_eq!(list, vec![3, 1, 2]);
            Statistics { min: 10, max: 20, mean: 30, std_dev: 40, upper_95: 50 }
        },
    );
    assert_eq!(snap.timers.len(), 1);
    let s = &snap.timers[0];
    assert_eq!(s.count, 3);
    assert_eq!(
        (s.min.clone(), s.max.clone(), s.mean.clone(), s.std_dev.clone(), s.upper_95.clone()),
        (b"<10>".to_vec(), b"<20>".to_vec(), b"<30>".to_vec(), b"<40>".to_vec(), b"<50>".to_vec())
    );
}

#[test]
fn console_report_of_one_counter() {
    let snap = Snapshot::take(&hits(), show, summarize);
    let out = string(Console::render(b"2014-01-02T03:04:05Z", &snap));
    assert_eq!(
        out,
        "2014-01-02T03:04:05Z:\n  counters:\n    hits: 3\n  gauges:\n  timers:\n  histograms:\n"
    );
    let lines: Vec<&str> = out.lines().collect();
    let counters = lines.iter().position(|l| *l == "  counters:").unwrap();
    assert_eq!(lines[counters + 1], "    hits: 3");
    assert_eq!(lines[lines.len() - 2], "  timers:");
    assert_eq!(lines[lines.len() - 1], "  histograms:");
}

#[test]
fn console_report_of_every_section() {
    let snap = Snapshot::take(&busy(), show, summarize);
    let out = string(Console::render(b"now", &snap));
    let expected = "now:\n  counters:\n    hits: 3\n    misses: 1\n  gauges:\n    load: 0.5\n  timers:\n    t:\n      min: 1\n      max: 3\n      count: 3\n      mean: 2\n      stddev: 1\n      upper_95: 2.9\n  histograms:\n    h:\n      min: 4\n      max: 4\n      count: 1\n      mean: 4\n      stddev: 0\n      upper_95: 4\n";
    assert_eq!(out, expected);
}

#[test]
fn console_flush_emits_one_report_under_a_utc_stamp() {
    let mut console = Console::new();
    assert_eq!((console.last_flush_time, console.last_flush_length), (0, 0));
    let seen: RefCell<Vec<Vec<u8>>> = RefCell::new(Vec::new());
    let buckets = hits();
    console.flush_buckets(&buckets, show, summarize, |text| seen.borrow_mut().push(text));
    let seen = seen.into_inner();
    assert_eq!(seen.len(), 1);
    let out = string(seen[0].clone());
    let (stamp, rest) = out.split_once(":\n").unwrap();
    assert_eq!(rest, "  counters:\n    hits: 3\n  gauges:\n  timers:\n  histograms:\n");
    assert_eq!(stamp.len(), 20);
    assert!(stamp.ends_with('Z'));
    assert_eq!(&stamp[4..5], "-");
    assert_eq!(&stamp[10..11], "T");
    assert!(stamp[0..4].parse::<u32>().unwrap() >= 2024);
    assert_eq!((console.last_flush_time, console.last_flush_length), (0, 0));
    assert_eq!(buckets.counters.len(), 1);
}

#[test]
fn graphite_line_has_prefix_key_value_and_time() {
    let plain = Graphite::new();
    assert_eq!(plain.prefix, Vec::<u8>::new());
    assert_eq!(string(plain.fmt_line(b"counters.hits", b"3", 1400000000)), "counters.hits 3 1400000000\n");
    let app = Graphite::new_with_prefix(b"app");
    assert_eq!(app.prefix, b"app.".to_vec());
    assert_eq!((app.last_flush_time, app.last_flush_length), (0, 0));
    assert_eq!(string(app.fmt_line(b"gauges.load", b"0.5", -7)), "app.gauges.load 0.5 -7\n");
}

#[test]
fn graphite_buffer_of_one_counter_with_a_prefix() {
    let snap = Snapshot::take(&hits(), show, summarize);
    let g = Graphite::new_with_prefix(b"app");
    let out = string(g.render(&snap, 1400000000));
    assert_eq!(
        out,
        "app.counters.hits 3 1400000000\napp.graphiteStats.last_flush 0 1400000000\napp.graphiteStats.flush_time 0 1400000000\n"
    );
    let first = out.lines().next().unwrap();
    let parts: Vec<&str> = first.split(' ').collect();
    assert_eq!(parts[0], "app.counters.hits");
    assert_eq!(parts[1], "3");
    assert!(parts[2].parse::<i64>().unwrap() > 0);
}

#[test]
fn graphite_buffer_of_every_section() {
    let snap = Snapshot::take(&busy(), show, summarize);
    let mut g = Graphite::new();
    g.flushed_at(90, 95);
    let out = string(g.render(&snap, 100));
    let expected = "counters.hits 3 100\ncounters.misses 1 100\ngauges.load 0.5 100\n\
timers.t.min 1 100\ntimers.t.max 3 100\ntimers.t.count 3 100\ntimers.t.mean 2 100\ntimers.t.stddev 1 100\ntimers.t.upper_95 2.9 100\n\
histograms.h.min 4 100\nhistograms.h.max 4 100\nhistograms.h.count 1 100\nhistograms.h.mean 4 100\nhistograms.h.stddev 0 100\nhistograms.h.upper_95 4 100\n\
graphiteStats.last_flush 95 100\ngraphiteStats.flush_time 95 100\n";
    assert_eq!(out, expected);
}

#[test]
fn graphite_prefix_begins_every_path() {
    let snap = Snapshot::take(&busy(), show, summarize);
    let g = Graphite::new_with_prefix(b"p");
    let out = string(g.render(&snap, 1));
    assert_eq!(out.lines().count(), 17);
    for line in out.lines() {
        assert!(line.starts_with("p."), "{}", line);
        assert!(line.ends_with(" 1"), "{}", line);
    }
}

#[test]
fn flushed_at_notes_the_end_and_the_span() {
    let mut g = Graphite::new_with_prefix(b"x");
    g.flushed_at(100, 103);
    assert_eq!((g.last_flush_time, g.last_flush_length), (103, 3));
    g.flushed_at(200, 190);
    assert_eq!((g.last_flush_time, g.last_flush_length), (190, -10));
    g.flushed_at(i64::MIN, i64::MAX);
    assert_eq!((g.last_flush_time, g.last_flush_length), (i64::MAX, i64::MAX));
    g.flushed_at(i64::MAX, i64::MIN);
    assert_eq!((g.last_flush_time, g.last_flush_length), (i64::MIN, i64::MIN));
    assert_eq!(g.prefix, b"x.".to_vec());
}

#[test]
fn graphite_flush_sends_once_and_then_notes_the_time() {
    let mut g = Graphite::new_with_prefix(b"app");
    let sent: RefCell<Vec<Vec<u8>>> = RefCell::new(Vec::new());
    let buckets = hits();
    g.flush_buckets(&buckets, show, summarize, |text| sent.borrow_mut().push(text));
    let first = sent.borrow()[0].clone();
    assert_eq!(sent.borrow().len(), 1);
    let out = string(first);
    let lines: Vec<&str> = out.lines().collect();
    assert_eq!(lines.len(), 3);
    let parts: Vec<&str> = lines[0].split(' ').collect();
    assert_eq!((parts[0], parts[1]), ("app.counters.hits", "3"));
    let start: i64 = parts[2].parse().unwrap();
    assert!(start > 1_000_000_000);
    assert_eq!(lines[1], format!("app.graphiteStats.last_flush 0 {}", start));
    assert_eq!(lines[2], format!("app.graphiteStats.flush_time 0 {}", start));
    assert!(g.last_flush_time >= start);
    assert_eq!(g.last_flush_length, g.last_flush_time - start);

    let before = g.last_flush_time;
    g.flush_buckets(&buckets, show, summarize, |text| sent.borrow_mut().push(text));
    assert_eq!(sent.borrow().len(), 2);
    let second = string(sent.borrow()[1].clone());
    let line = second.lines().nth(1).unwrap().to_string();
    assert!(line.starts_with(&format!("app.graphiteStats.last_flush {} ", before)));
}

#[test]
fn a_flush_that_cannot_send_leaves_the_store_alone() {
    let mut g = Graphite::new();
    let mut buckets = busy();
    let (bad, total) = (buckets.bad_messages, buckets.total_messages);
    g.flush_buckets(&buckets, show, summarize, |_text| {});
    assert_eq!(buckets.counters.len(), 2);
    assert_eq!(buckets.timers.get(b"t").map(|l| l.len()), Some(3));
    assert_eq!((buckets.bad_messages, buckets.total_messages), (bad, total));
    buckets.flush();
    let sent: RefCell<Vec<Vec<u8>>> = RefCell::new(Vec::new());
    g.flush_buckets(&buckets, show, summarize, |text| sent.borrow_mut().push(text));
    assert_eq!(string(sent.borrow()[0].clone()).lines().count(), 2);
}
