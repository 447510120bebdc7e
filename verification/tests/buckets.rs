use statsd::clock::Timestamp;
use statsd::metric::{Metric, MetricKind};
use statsd::server::buckets::Buckets;
use statsd::table::Table;

fn number_of(text: Vec<u8>) -> Option<u64> {
    std::str::from_utf8(&text).ok()?.parse::<f64>().ok().map(f64::to_bits)
}

fn scaled_sum(acc: u64, value: u64, rate: u64) -> u64 {
    (f64::from_bits(acc) + f64::from_bits(value) * (1.0 / f64::from_bits(rate))).to_bits()
}

fn made(kind: MetricKind, name: &str, value: f64) -> Metric {
    Metric { kind, name: name.as_bytes().to_vec(), value: value.to_bits() }
}

fn at(sec: i64) -> Timestamp {
    Timestamp { sec, nsec: 0 }
}

fn value_of(table: &Table<u64>, name: &str) -> Option<f64> {
    table.get(name.as_bytes()).map(|bits| f64::from_bits(*bits))
}

fn samples_of(table: &Table<Vec<u64>>, name: &str) -> Option<Vec<f64>> {
    table.get(name.as_bytes()).map(|list| list.iter().map(|bits| f64::from_bits(*bits)).collect())
}

fn text(bytes: Vec<u8>) -> String {
    String::from_utf8(bytes).unwrap()
}

fn filled() -> Buckets {
    let mut b = Buckets::started_at(at(100));
    for line in ["c1:1|c", "c2:2|c", "g1:5|g", "t1:1|ms", "t1:2|ms", "h1:7|h", "m1:1|m"] {
        b.handle_message(line.as_bytes(), number_of, scaled_sum);
    }
    b
}

fn sizes(b: &Buckets) -> [usize; 5] {
    [b.counters.len(), b.gauges.len(), b.meters.len(), b.histograms.len(), b.timers.len()]
}

#[test]
fn a_new_store_is_empty() {
    let b = Buckets::new();
    assert_eq!(sizes(&b), [0, 0, 0, 0, 0]);
    assert_eq!(b.bad_messages, 0);
    assert_eq!(b.total_messages, 0);
    assert_eq!(b.last_message, b.server_start_time);
    assert!(b.server_start_time.sec > 1_000_000_000);
}

#[test]
fn started_at_keeps_the_moment() {
    let b = Buckets::started_at(Timestamp { sec: 77, nsec: 5 });
    assert_eq!(b.server_start_time, Timestamp { sec: 77, nsec: 5 });
    assert_eq!(b.last_message, Timestamp { sec: 77, nsec: 5 });
    assert_eq!(sizes(&b), [0, 0, 0, 0, 0]);
}

#[test]
fn sampled_counters_are_corrected_by_their_rate() {
    let mut b = Buckets::started_at(at(0));
    b.add_metric(made(MetricKind::Counter(0.5f64.to_bits()), "k", 1.0), scaled_sum);
    assert_eq!(value_of(&b.counters, "k"), Some(2.0));
    b.add_metric(made(MetricKind::Counter(0.5f64.to_bits()), "k", 1.0), scaled_sum);
    assert_eq!(value_of(&b.counters, "k"), Some(4.0));
    assert_eq!(b.counters.len(), 1);
    assert_eq!(b.total_messages, 2);
}

#[test]
fn a_new_counter_starts_from_zero() {
    let mut b = Buckets::started_at(at(0));
    b.add_metric(made(MetricKind::Counter(1.0f64.to_bits()), "k", 3.0), scaled_sum);
    assert_eq!(value_of(&b.counters, "k"), Some(3.0));
    b.add_metric(made(MetricKind::Counter(1.0f64.to_bits()), "j", -1.0), |acc, value, rate| {
        assert_eq!(acc, 0.0f64.to_bits());
        assert_eq!(value, (-1.0f64).to_bits());
        assert_eq!(rate, 1.0f64.to_bits());
        17
    });
    assert_eq!(b.counters.get(b"j"), Some(&17));
    assert_eq!(value_of(&b.counters, "k"), Some(3.0));
}

#[test]
fn accumulate_is_given_the_total_so_far() {
    let mut b = Buckets::started_at(at(0));
    b.record(made(MetricKind::Counter(1.0f64.to_bits()), "k", 1.0), 40, at(1));
    b.add_metric(made(MetricKind::Counter(7), "k", 2.0), |acc, value, rate| {
        assert_eq!(acc, 40);
        assert_eq!(value, 2.0f64.to_bits());
        assert_eq!(rate, 7);
        41
    });
    assert_eq!(b.counters.get(b"k"), Some(&41));
}

#[test]
fn a_gauge_is_overwritten() {
    let mut b = Buckets::started_at(at(0));
    b.add_metric(made(MetricKind::Gauge, "g", 5.0), scaled_sum);
    b.add_metric(made(MetricKind::Gauge, "g", 7.0), scaled_sum);
    assert_eq!(value_of(&b.gauges, "g"), Some(7.0));
    assert_eq!(b.gauges.len(), 1);
    assert_eq!(b.counters.len(), 0);
}

#[test]
fn timer_samples_are_kept_in_arrival_order() {
    let mut b = Buckets::started_at(at(0));
    for v in [1.0, 2.0, 3.0] {
        b.add_metric(made(MetricKind::Timer, "t", v), scaled_sum);
    }
    let samples = samples_of(&b.timers, "t").unwrap();
    assert_eq!(samples, vec![1.0, 2.0, 3.0]);
    assert_eq!(samples.len(), 3);
    assert_eq!(samples.iter().cloned().fold(f64::INFINITY, f64::min), 1.0);
    assert_eq!(samples.iter().cloned().fold(f64::NEG_INFINITY, f64::max), 3.0);
    assert_eq!(samples.iter().sum::<f64>() / 3.0, 2.0);
    assert_eq!(b.histograms.len(), 0);
}

#[test]
fn histogram_samples_are_kept_in_arrival_order() {
    let mut b = Buckets::started_at(at(0));
    for v in [3.0, 1.0, 2.0] {
        b.add_metric(made(MetricKind::Histogram, "h", v), scaled_sum);
    }
    assert_eq!(samples_of(&b.histograms, "h"), Some(vec![3.0, 1.0, 2.0]));
    assert_eq!(b.timers.len(), 0);
}

#[test]
fn a_meter_is_counted_and_not_stored() {
    let mut b = Buckets::started_at(at(0));
    b.add_metric(made(MetricKind::Meter, "m", 1.0), scaled_sum);
    assert_eq!(sizes(&b), [0, 0, 0, 0, 0]);
    assert_eq!(b.total_messages, 1);
    assert_eq!(b.bad_messages, 0);
}

#[test]
fn record_sets_the_time_of_the_last_message() {
    let mut b = Buckets::started_at(at(10));
    b.record(made(MetricKind::Gauge, "g", 1.0), 0, at(25));
    assert_eq!(b.last_message, at(25));
    assert_eq!(b.server_start_time, at(10));
    assert_eq!(b.total_messages, 1);
}

#[test]
fn add_metric_moves_the_time_of_the_last_message() {
    let mut b = Buckets::started_at(at(10));
    b.add_metric(made(MetricKind::Gauge, "g", 1.0), scaled_sum);
    assert!(b.last_message.sec > 1_000_000_000);
    assert_eq!(b.server_start_time, at(10));
}

#[test]
fn the_counts_start_again_after_the_largest() {
    let mut b = Buckets::started_at(at(0));
    b.total_messages = usize::MAX;
    b.bad_messages = usize::MAX;
    b.record(made(MetricKind::Meter, "m", 1.0), 0, at(1));
    b.bad_message();
    assert_eq!(b.total_messages, 0);
    assert_eq!(b.bad_messages, 0);
}

#[test]
fn flush_empties_the_tables_and_keeps_the_scalars() {
    let mut b = filled();
    b.bad_message();
    assert_eq!(sizes(&b), [2, 1, 0, 1, 1]);
    let (bad, total, start, last) =
        (b.bad_messages, b.total_messages, b.server_start_time, b.last_message);
    assert_eq!((bad, total), (1, 7));
    b.flush();
    assert_eq!(sizes(&b), [0, 0, 0, 0, 0]);
    assert_eq!(b.bad_messages, bad);
    assert_eq!(b.total_messages, total);
    assert_eq!(b.server_start_time, start);
    assert_eq!(b.last_message, last);
    b.handle_message(b"c1:1|c", number_of, scaled_sum);
    assert_eq!(value_of(&b.counters, "c1"), Some(1.0));
}

#[test]
fn stats_on_a_fresh_store() {
    let mut b = Buckets::new();
    let (resp, end) = b.do_management_line(b"stats");
    let resp = text(resp);
    assert!(!end);
    assert!(resp.contains("bad messages: 0"));
    assert!(resp.contains("total messages: 0"));
    let first = resp.lines().next().unwrap();
    let uptime: i64 =
        first.strip_prefix("uptime: ").unwrap().strip_suffix(" s").unwrap().parse().unwrap();
    assert!(uptime >= 0);
}

#[test]
fn stats_reports_uptime_and_counts() {
    let mut b = Buckets::started_at(at(100));
    b.bad_message();
    b.bad_message();
    b.record(made(MetricKind::Gauge, "g", 1.0), 0, at(101));
    let (resp, end) = b.management(b"stats", at(160));
    assert_eq!(text(resp), "uptime: 60 s\nbad messages: 2total messages: 1");
    assert!(!end);
    let (resp, _) = b.management(b"  stats now\n", at(90));
    assert_eq!(text(resp), "uptime: -10 s\nbad messages: 2total messages: 1");
}

#[test]
fn clear_counters_empties_only_the_counters() {
    let mut b = filled();
    let total = b.total_messages;
    let (resp, end) = b.do_management_line(b"clear counters");
    assert_eq!(text(resp), "Counters cleared.");
    assert!(!end);
    assert_eq!(sizes(&b), [0, 1, 0, 1, 1]);
    assert_eq!(value_of(&b.gauges, "g1"), Some(5.0));
    assert_eq!(samples_of(&b.timers, "t1"), Some(vec![1.0, 2.0]));
    assert_eq!(b.total_messages, total);
}

#[test]
fn clear_each_table() {
    let cases = [
        ("clear gauges", "Gauges cleared.", [2, 0, 0, 1, 1]),
        ("clear meters", "Meters cleared.", [2, 1, 0, 1, 1]),
        ("clear histograms", "Histograms cleared.", [2, 1, 0, 0, 1]),
        ("clear timers", "Timers cleared.", [2, 1, 0, 1, 0]),
        ("clear\ttimers\r\n", "Timers cleared.", [2, 1, 0, 1, 0]),
    ];
    for (line, answer, left) in cases {
        let mut b = filled();
        let (resp, end) = b.do_management_line(line.as_bytes());
        assert_eq!(text(resp), answer);
        assert!(!end);
        assert_eq!(sizes(&b), left);
    }
}

#[test]
fn clear_of_an_unknown_table_changes_nothing() {
    let mut b = filled();
    let (resp, end) = b.do_management_line(b"clear bogus");
    assert_eq!(text(resp), "ERROR: Nothing named 'bogus' to clear.");
    assert!(!end);
    assert_eq!(sizes(&b), [2, 1, 0, 1, 1]);
}

#[test]
fn clear_without_a_table_asks_for_one() {
    let mut b = filled();
    for line in ["clear", "clear ", "  clear\n"] {
        let (resp, end) = b.do_management_line(line.as_bytes());
        assert_eq!(text(resp), "ERROR: need something to clear!");
        assert!(!end);
    }
    assert_eq!(sizes(&b), [2, 1, 0, 1, 1]);
}

#[test]
fn quit_ends_the_connection() {
    let mut b = filled();
    let (resp, end) = b.do_management_line(b"quit");
    assert_eq!(text(resp), "END");
    assert!(end);
    assert_eq!(sizes(&b), [2, 1, 0, 1, 1]);
    let (resp, end) = b.do_management_line(b" quit now\n");
    assert_eq!(text(resp), "END");
    assert!(end);
}

#[test]
fn unknown_commands_are_named() {
    let mut b = filled();
    let (resp, end) = b.do_management_line(b"health check");
    assert_eq!(text(resp), "ERROR: Unknown command: health");
    assert!(!end);
    let (resp, end) = b.do_management_line(b"");
    assert_eq!(text(resp), "ERROR: Unknown command: ");
    assert!(!end);
    let (resp, _) = b.do_management_line(b"STATS");
    assert_eq!(text(resp), "ERROR: Unknown command: STATS");
    let (resp, _) = b.do_management_line(b"quitx");
    assert_eq!(text(resp), "ERROR: Unknown command: quitx");
    assert_eq!(sizes(&b), [2, 1, 0, 1, 1]);
}

#[test]
fn bytes_that_are_not_utf8_count_as_one_bad_message() {
    let mut b = filled();
    let total = b.total_messages;
    b.handle_message(&[0x66, 0x6f, 0xff, 0x3a, 0x31, 0x7c, 0x63], number_of, scaled_sum);
    assert_eq!(b.bad_messages, 1);
    assert_eq!(b.total_messages, total);
    assert_eq!(sizes(&b), [2, 1, 0, 1, 1]);
    b.handle_message(&[0xc3, 0x28], number_of, scaled_sum);
    assert_eq!(b.bad_messages, 2);
}

#[test]
fn utf8_is_demanded_of_the_whole_datagram() {
    let mut b = Buckets::started_at(at(0));
    let mut line = b"a:1|c|@1".to_vec();
    line.push(0xff);
    b.handle_message(&line, |_| Some(0), scaled_sum);
    assert_eq!(b.bad_messages, 1);
    assert_eq!(b.counters.len(), 0);
    b.handle_message("n\u{e9}:1|g".as_bytes(), number_of, scaled_sum);
    assert_eq!(b.bad_messages, 1);
    assert_eq!(value_of(&b.gauges, "n\u{e9}"), Some(1.0));
}

#[test]
fn invalid_lines_count_as_one_bad_message_each() {
    let mut b = filled();
    let total = b.total_messages;
    let lines = ["f", "f:", "f:c", "f:1.0|", "f:1.0|c@", ":|@", ":1.0|c", "f:x|c", "f:1|c|@y", ""];
    for (i, line) in lines.iter().enumerate() {
        b.handle_message(line.as_bytes(), number_of, scaled_sum);
        assert_eq!(b.bad_messages, i + 1);
    }
    assert_eq!(b.total_messages, total);
    assert_eq!(sizes(&b), [2, 1, 0, 1, 1]);
    assert_eq!(value_of(&b.counters, "c1"), Some(1.0));
    assert_eq!(value_of(&b.counters, "c2"), Some(2.0));
}

#[test]
fn valid_datagrams_are_taken_in() {
    let b = filled();
    assert_eq!(b.bad_messages, 0);
    assert_eq!(b.total_messages, 7);
    assert_eq!(value_of(&b.counters, "c1"), Some(1.0));
    assert_eq!(value_of(&b.gauges, "g1"), Some(5.0));
    assert_eq!(samples_of(&b.timers, "t1"), Some(vec![1.0, 2.0]));
    assert_eq!(samples_of(&b.histograms, "h1"), Some(vec![7.0]));
    assert_eq!(b.counters.key(0), &b"c1".to_vec());
    assert_eq!(b.counters.key(1), &b"c2".to_vec());
}
