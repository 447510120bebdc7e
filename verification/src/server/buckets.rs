//! The aggregation store and the management commands.
//!
//! The store keeps five tables by metric name and four scalars. It never
//! computes with a sample: the one sum it needs, the running total of a
//! counter, is handed to it or asked of the caller's `accumulate`.

use vstd::prelude::*;
use vstd::string::is_ascii_spec_bytes;
use vstd::utf8::valid_utf8;
use crate::caller::reads_as;
use crate::clock::{now, Timestamp};
use crate::metric::{
    spec_fields,
    spec_metric,
    FieldsView,
    Metric,
    MetricKind,
    MetricView,
};
use crate::table::{lemma_lookup_upsert, lookup, upsert, Table};
use crate::text::{
    after_first_word,
    decimal,
    first_word,
    is_utf8,
    lit,
    push_bytes,
    push_signed,
    push_unsigned,
    same,
    split_word,
};

verus! {

/// The aggregated state of the daemon.
pub struct Buckets {
    pub counters: Table<u64>,
    pub gauges: Table<u64>,
    pub meters: Table<u64>,
    pub histograms: Table<Vec<u64>>,
    pub timers: Table<Vec<u64>>,
    pub server_start_time: Timestamp,
    pub last_message: Timestamp,
    pub bad_messages: usize,
    pub total_messages: usize,
}

/// The mathematical value of a `Buckets`.
pub struct BucketsView {
    pub counters: Seq<(Seq<u8>, u64)>,
    pub gauges: Seq<(Seq<u8>, u64)>,
    pub meters: Seq<(Seq<u8>, u64)>,
    pub histograms: Seq<(Seq<u8>, Seq<u64>)>,
    pub timers: Seq<(Seq<u8>, Seq<u64>)>,
    pub server_start_time: Timestamp,
    pub last_message: Timestamp,
    pub bad_messages: usize,
    pub total_messages: usize,
}

impl View for Buckets {
    type V = BucketsView;

    open spec fn view(&self) -> BucketsView {
        BucketsView {
            counters: self.counters@,
            gauges: self.gauges@,
            meters: self.meters@,
            histograms: self.histograms@,
            timers: self.timers@,
            server_start_time: self.server_start_time,
            last_message: self.last_message,
            bad_messages: self.bad_messages,
            total_messages: self.total_messages,
        }
    }
}

/// A count one higher. The counts are machine words and start again at zero
/// after the largest.
pub open spec fn next_count(n: usize) -> usize {
    if n == usize::MAX {
        0
    } else {
        (n + 1) as usize
    }
}

/// The store at its start: empty tables, zero counts, both times `now`.
pub open spec fn fresh(now: Timestamp) -> BucketsView {
    BucketsView {
        counters: Seq::empty(),
        gauges: Seq::empty(),
        meters: Seq::empty(),
        histograms: Seq::empty(),
        timers: Seq::empty(),
        server_start_time: now,
        last_message: now,
        bad_messages: 0,
        total_messages: 0,
    }
}

/// The store after a flush: the five tables empty, the scalars as they were.
pub open spec fn flushed(b: BucketsView) -> BucketsView {
    BucketsView {
        counters: Seq::empty(),
        gauges: Seq::empty(),
        meters: Seq::empty(),
        histograms: Seq::empty(),
        timers: Seq::empty(),
        ..b
    }
}

/// The store after one bad message: one more is counted, nothing else moves.
pub open spec fn miscounted(b: BucketsView) -> BucketsView {
    BucketsView { bad_messages: next_count(b.bad_messages), ..b }
}

/// The total that a counter has so far: zero where the name is new.
pub open spec fn running_total(b: BucketsView, name: Seq<u8>) -> u64 {
    match lookup(b.counters, name) {
        Some(total) => total,
        None => 0,
    }
}

/// The list under `name` with one more sample at its end.
pub open spec fn appended(pairs: Seq<(Seq<u8>, Seq<u64>)>, name: Seq<u8>, sample: u64) -> Seq<
    u64,
> {
    match lookup(pairs, name) {
        Some(list) => list.push(sample),
        None => seq![sample],
    }
}

/// The store after the metric `m` is taken in at the moment `now`, where
/// `total` is the new total of its counter. A counter's total is replaced
/// by `total`, a gauge is overwritten, a timer or histogram sample joins the
/// end of its list, a meter changes no table. Every metric is counted.
pub open spec fn recorded(b: BucketsView, m: MetricView, total: u64, now: Timestamp) -> BucketsView {
    let counted = BucketsView {
        last_message: now,
        total_messages: next_count(b.total_messages),
        ..b
    };
    match m.kind {
        MetricKind::Counter(_) => BucketsView {
            counters: upsert(b.counters, m.name, total),
            ..counted
        },
        MetricKind::Gauge => BucketsView { gauges: upsert(b.gauges, m.name, m.value), ..counted },
        MetricKind::Timer => BucketsView {
            timers: upsert(b.timers, m.name, appended(b.timers, m.name, m.value)),
            ..counted
        },
        MetricKind::Histogram => BucketsView {
            histograms: upsert(b.histograms, m.name, appended(b.histograms, m.name, m.value)),
            ..counted
        },
        MetricKind::Meter => counted,
    }
}

/// That `after` is the store `b` with the metric `m` taken in, the new total
/// of a counter being what `accumulate` answers for the total so far, the
/// value and the sample rate.
pub open spec fn added<G: Fn(u64, u64, u64) -> u64>(
    b: BucketsView,
    m: MetricView,
    accumulate: G,
    after: BucketsView,
) -> bool {
    exists|total: u64|
        {
            &&& m.kind matches MetricKind::Counter(rate) ==> accumulate.ensures(
                (running_total(b, m.name), m.value, rate),
                total,
            )
            &&& after == #[trigger] recorded(b, m, total, after.last_message)
        }
}

/// The parts of a datagram: those of its line where it is well-formed UTF-8
/// and inside the grammar.
pub open spec fn spec_message(bytes: Seq<u8>) -> Option<FieldsView> {
    if valid_utf8(bytes) {
        spec_fields(bytes)
    } else {
        None
    }
}

/// That `after` is the store `b` with the datagram `bytes` taken in: one
/// more bad message where the bytes are no UTF-8, the line is outside the
/// grammar or a number cannot be read, and the metric added otherwise.
pub open spec fn ingested<F: Fn(Vec<u8>) -> Option<u64>, G: Fn(u64, u64, u64) -> u64>(
    b: BucketsView,
    bytes: Seq<u8>,
    number: F,
    accumulate: G,
    after: BucketsView,
) -> bool {
    match spec_message(bytes) {
        None => after == miscounted(b),
        Some(f) => exists|value: Option<u64>, rate: Option<u64>|
            {
                &&& reads_as(number, f.value, value)
                &&& f.rate matches Some(text) ==> reads_as(number, text, rate)
                &&& match #[trigger] spec_metric(f, value, rate) {
                    None => after == miscounted(b),
                    Some(m) => added(b, m, accumulate, after),
                }
            },
    }
}

/// The report of the `stats` command at the moment `now`.
pub open spec fn stats_text(b: BucketsView, now: Timestamp) -> Seq<u8> {
    lit("uptime: ") + decimal(now.sec - b.server_start_time.sec) + lit(" s\nbad messages: ")
        + decimal(b.bad_messages as int) + lit("total messages: ") + decimal(
        b.total_messages as int,
    )
}

/// What a `clear` command with the target `target` answers and leaves.
pub open spec fn spec_clear(b: BucketsView, target: Seq<u8>) -> (Seq<u8>, BucketsView) {
    if target == lit("counters") {
        (lit("Counters cleared."), BucketsView { counters: Seq::empty(), ..b })
    } else if target == lit("gauges") {
        (lit("Gauges cleared."), BucketsView { gauges: Seq::empty(), ..b })
    } else if target == lit("meters") {
        (lit("Meters cleared."), BucketsView { meters: Seq::empty(), ..b })
    } else if target == lit("histograms") {
        (lit("Histograms cleared."), BucketsView { histograms: Seq::empty(), ..b })
    } else if target == lit("timers") {
        (lit("Timers cleared."), BucketsView { timers: Seq::empty(), ..b })
    } else if target.len() == 0 {
        (lit("ERROR: need something to clear!"), b)
    } else {
        (lit("ERROR: Nothing named '") + target + lit("' to clear."), b)
    }
}

/// What one management line answers at the moment `now`: the response,
/// whether the connection is to be closed, and the store it leaves.
pub open spec fn spec_management(b: BucketsView, line: Seq<u8>, now: Timestamp) -> (
    Seq<u8>,
    bool,
    BucketsView,
) {
    let command = first_word(line);
    if command == lit("stats") {
        (stats_text(b, now), false, b)
    } else if command == lit("clear") {
        let cleared = spec_clear(b, first_word(after_first_word(line)));
        (cleared.0, false, cleared.1)
    } else if command == lit("quit") {
        (lit("END"), true, b)
    } else {
        (lit("ERROR: Unknown command: ") + command, false, b)
    }
}

/// What was taken in is found under its name: a counter's new total, a
/// gauge's value, a timer's or histogram's list with the sample at its end.
/// Under every other name each table holds what it held.
pub proof fn lemma_recorded_found(
    b: BucketsView,
    m: MetricView,
    total: u64,
    now: Timestamp,
    other: Seq<u8>,
)
    requires
        other != m.name,
    ensures
        ({
            let after = recorded(b, m, total, now);
            &&& m.kind is Counter ==> lookup(after.counters, m.name) == Some(total)
            &&& m.kind is Gauge ==> lookup(after.gauges, m.name) == Some(m.value)
            &&& m.kind is Timer ==> lookup(after.timers, m.name) == Some(
                appended(b.timers, m.name, m.value),
            )
            &&& m.kind is Histogram ==> lookup(after.histograms, m.name) == Some(
                appended(b.histograms, m.name, m.value),
            )
            &&& lookup(after.counters, other) == lookup(b.counters, other)
            &&& lookup(after.gauges, other) == lookup(b.gauges, other)
            &&& lookup(after.timers, other) == lookup(b.timers, other)
            &&& lookup(after.histograms, other) == lookup(b.histograms, other)
            &&& after.meters == b.meters
            &&& after.bad_messages == b.bad_messages
            &&& after.server_start_time == b.server_start_time
        }),
{
    lemma_lookup_upsert(b.counters, m.name, total, m.name);
    lemma_lookup_upsert(b.counters, m.name, total, other);
    lemma_lookup_upsert(b.gauges, m.name, m.value, m.name);
    lemma_lookup_upsert(b.gauges, m.name, m.value, other);
    lemma_lookup_upsert(b.timers, m.name, appended(b.timers, m.name, m.value), m.name);
    lemma_lookup_upsert(b.timers, m.name, appended(b.timers, m.name, m.value), other);
    lemma_lookup_upsert(b.histograms, m.name, appended(b.histograms, m.name, m.value), m.name);
    lemma_lookup_upsert(b.histograms, m.name, appended(b.histograms, m.name, m.value), other);
}

/// A datagram that is no UTF-8, or whose line is outside the grammar, is
/// counted as one bad message and changes no table, whatever the caller's
/// functions answer.
pub proof fn lemma_bad_datagram<F: Fn(Vec<u8>) -> Option<u64>, G: Fn(u64, u64, u64) -> u64>(
    b: BucketsView,
    bytes: Seq<u8>,
    number: F,
    accumulate: G,
    after: BucketsView,
)
    requires
        ingested(b, bytes, number, accumulate, after),
        !valid_utf8(bytes) || spec_fields(bytes) is None,
    ensures
        after.bad_messages == next_count(b.bad_messages),
        after.total_messages == b.total_messages,
        after.counters == b.counters,
        after.gauges == b.gauges,
        after.meters == b.meters,
        after.histograms == b.histograms,
        after.timers == b.timers,
        after.server_start_time == b.server_start_time,
        after.last_message == b.last_message,
{
}

/// A datagram inside the grammar whose value cannot be read by any answer
/// of `number` is counted as one bad message and changes no table.
pub proof fn lemma_unreadable_value<F: Fn(Vec<u8>) -> Option<u64>, G: Fn(u64, u64, u64) -> u64>(
    b: BucketsView,
    bytes: Seq<u8>,
    number: F,
    accumulate: G,
    after: BucketsView,
)
    requires
        ingested(b, bytes, number, accumulate, after),
        spec_message(bytes) matches Some(f) && forall|out: Option<u64>|
            reads_as(number, f.value, out) ==> out is None,
    ensures
        after == miscounted(b),
{
}

/// A flush leaves no name in any table and does not touch the counts or
/// the times, whatever was taken in before.
pub proof fn lemma_flush_clears(b: BucketsView, name: Seq<u8>)
    ensures
        ({
            let after = flushed(b);
            &&& lookup(after.counters, name) is None
            &&& lookup(after.gauges, name) is None
            &&& lookup(after.meters, name) is None
            &&& lookup(after.histograms, name) is None
            &&& lookup(after.timers, name) is None
            &&& after.bad_messages == b.bad_messages
            &&& after.total_messages == b.total_messages
            &&& after.server_start_time == b.server_start_time
            &&& after.last_message == b.last_message
        }),
{
}

/// The words of the management language are different texts.
proof fn lemma_words_differ()
    ensures
        lit("stats") != lit("clear"),
        lit("stats") != lit("quit"),
        lit("clear") != lit("quit"),
        lit("counters") != lit("gauges"),
        lit("counters") != lit("meters"),
        lit("counters") != lit("histograms"),
        lit("counters") != lit("timers"),
        lit("gauges") != lit("meters"),
        lit("gauges") != lit("histograms"),
        lit("gauges") != lit("timers"),
        lit("meters") != lit("histograms"),
        lit("meters") != lit("timers"),
        lit("histograms") != lit("timers"),
{
    reveal_strlit("stats");
    reveal_strlit("clear");
    reveal_strlit("quit");
    reveal_strlit("counters");
    reveal_strlit("gauges");
    reveal_strlit("meters");
    reveal_strlit("histograms");
    reveal_strlit("timers");
    is_ascii_spec_bytes("stats");
    is_ascii_spec_bytes("clear");
    is_ascii_spec_bytes("quit");
    is_ascii_spec_bytes("counters");
    is_ascii_spec_bytes("gauges");
    is_ascii_spec_bytes("meters");
    is_ascii_spec_bytes("histograms");
    is_ascii_spec_bytes("timers");
    assert(lit("stats")[0] == 115u8 && lit("stats").len() == 5);
    assert(lit("clear")[0] == 99u8 && lit("clear").len() == 5);
    assert(lit("quit")[0] == 113u8 && lit("quit").len() == 4);
    assert(lit("counters")[0] == 99u8 && lit("counters").len() == 8);
    assert(lit("gauges")[0] == 103u8 && lit("gauges").len() == 6);
    assert(lit("meters")[0] == 109u8 && lit("meters").len() == 6);
    assert(lit("histograms")[0] == 104u8 && lit("histograms").len() == 10);
    assert(lit("timers")[0] == 116u8 && lit("timers").len() == 6);
}

/// Each `clear` target empties its own table and no other, and answers
/// with its own confirmation; any other target changes nothing.
pub proof fn lemma_clear_targets(b: BucketsView, target: Seq<u8>)
    ensures
        spec_clear(b, lit("counters")) == (
            lit("Counters cleared."),
            BucketsView { counters: Seq::empty(), ..b },
        ),
        spec_clear(b, lit("gauges")) == (
            lit("Gauges cleared."),
            BucketsView { gauges: Seq::empty(), ..b },
        ),
        spec_clear(b, lit("meters")) == (
            lit("Meters cleared."),
            BucketsView { meters: Seq::empty(), ..b },
        ),
        spec_clear(b, lit("histograms")) == (
            lit("Histograms cleared."),
            BucketsView { histograms: Seq::empty(), ..b },
        ),
        spec_clear(b, lit("timers")) == (
            lit("Timers cleared."),
            BucketsView { timers: Seq::empty(), ..b },
        ),
        target != lit("counters") && target != lit("gauges") && target != lit("meters") && target
            != lit("histograms") && target != lit("timers") ==> spec_clear(b, target).1 == b,
{
    lemma_words_differ();
}

/// `quit` answers `END`, asks for the connection to be closed and changes
/// nothing. No other command asks for that, and only `clear` can change
/// the store.
pub proof fn lemma_commands(b: BucketsView, line: Seq<u8>, now: Timestamp)
    ensures
        first_word(line) == lit("quit") ==> spec_management(b, line, now) == (
            lit("END"),
            true,
            b,
        ),
        first_word(line) == lit("stats") ==> spec_management(b, line, now) == (
            stats_text(b, now),
            false,
            b,
        ),
        first_word(line) == lit("clear") ==> spec_management(b, line, now) == (
            spec_clear(b, first_word(after_first_word(line))).0,
            false,
            spec_clear(b, first_word(after_first_word(line))).1,
        ),
        first_word(line) != lit("quit") ==> !spec_management(b, line, now).1,
        first_word(line) != lit("clear") ==> spec_management(b, line, now).2 == b,
{
    lemma_words_differ();
}

/// The count after `n`.
fn count_up(n: usize) -> (r: usize)
    ensures
        r == next_count(n),
{
    if n == usize::MAX {
        0
    } else {
        n + 1
    }
}

impl Buckets {
    /// The store of a daemon that starts at `now`.
    pub fn started_at(now: Timestamp) -> (r: Buckets)
        ensures
            r@ == fresh(now),
    {
        Buckets {
            counters: Table::new(),
            gauges: Table::new(),
            meters: Table::new(),
            histograms: Table::new(),
            timers: Table::new(),
            server_start_time: now,
            last_message: now,
            bad_messages: 0,
            total_messages: 0,
        }
    }

    /// The store of a daemon that starts at this moment.
    pub fn new() -> (r: Buckets)
        ensures
            r@ == fresh(r.server_start_time),
    {
        Buckets::started_at(now())
    }

    /// Empties the five tables and leaves the scalars.
    pub fn flush(&mut self)
        ensures
            final(self)@ == flushed(old(self)@),
    {
        self.counters.clear();
        self.gauges.clear();
        self.histograms.clear();
        self.meters.clear();
        self.timers.clear();
    }

    /// Counts one datagram that was no metric.
    pub fn bad_message(&mut self)
        ensures
            final(self)@ == miscounted(old(self)@),
    {
        self.bad_messages = count_up(self.bad_messages);
    }

    /// Takes in `metric` at the moment `now`, with `total` as the new total
    /// of its counter where it is one.
    pub fn record(&mut self, metric: Metric, total: u64, now: Timestamp)
        ensures
            final(self)@ == recorded(old(self)@, metric@, total, now),
    {
        match metric.kind {
            MetricKind::Counter(_) => {
                self.counters.put(metric.name.as_slice(), total);
            },
            MetricKind::Gauge => {
                self.gauges.put(metric.name.as_slice(), metric.value);
            },
            MetricKind::Timer => {
                self.timers.append(metric.name.as_slice(), metric.value);
            },
            MetricKind::Histogram => {
                self.histograms.append(metric.name.as_slice(), metric.value);
            },
            MetricKind::Meter => {},
        }
        self.last_message = now;
        self.total_messages = count_up(self.total_messages);
    }

    /// Takes in `metric` at this moment. For a counter, `accumulate` is
    /// asked for the new total: it gets the total so far (the bits of 0.0
    /// where the name is new), the value and the sample rate, and is to
    /// answer the total plus the value divided by the rate.
    pub fn add_metric<G: Fn(u64, u64, u64) -> u64>(&mut self, metric: Metric, accumulate: G)
        requires
            forall|acc: u64, value: u64, rate: u64| accumulate.requires((acc, value, rate)),
        ensures
            added(old(self)@, metric@, accumulate, final(self)@),
    {
        let total: u64 = match metric.kind {
            MetricKind::Counter(rate) => {
                let so_far: u64 = match self.counters.get(metric.name.as_slice()) {
                    Some(t) => *t,
                    None => 0,
                };
                accumulate(so_far, metric.value, rate)
            },
            _ => 0,
        };
        let at = now();
        self.record(metric, total, at);
        proof {
            assert(final(self)@ == recorded(old(self)@, metric@, total, final(self)@.last_message));
        }
    }

    /// Takes in one datagram. Bytes that are not UTF-8, a line outside the
    /// grammar, and a number that `number` cannot read each count as one bad
    /// message and change nothing else. Any other datagram is a metric and
    /// is taken in as `add_metric` does.
    pub fn handle_message<F: Fn(Vec<u8>) -> Option<u64>, G: Fn(u64, u64, u64) -> u64>(
        &mut self,
        bytes: &[u8],
        number: F,
        accumulate: G,
    )
        requires
            forall|t: Vec<u8>| number.requires((t,)),
            forall|acc: u64, value: u64, rate: u64| accumulate.requires((acc, value, rate)),
        ensures
            ingested(old(self)@, bytes@, number, accumulate, final(self)@),
    {
        if !is_utf8(bytes) {
            self.bad_message();
            return ;
        }
        match Metric::parse(bytes, number) {
            Some(metric) => {
                self.add_metric(metric, accumulate);
            },
            None => {
                self.bad_message();
            },
        }
    }

    /// Answers one management line at the moment `now`.
    pub fn management(&mut self, line: &[u8], now: Timestamp) -> (r: (Vec<u8>, bool))
        ensures
            (r.0@, r.1, final(self)@) == spec_management(old(self)@, line@, now),
    {
        let (command, rest) = split_word(line);
        let mut out: Vec<u8> = Vec::new();
        if same(command, "stats".as_bytes()) {
            push_bytes(&mut out, "uptime: ".as_bytes());
            push_signed(&mut out, now.sec as i128 - self.server_start_time.sec as i128);
            push_bytes(&mut out, " s\nbad messages: ".as_bytes());
            push_unsigned(&mut out, self.bad_messages as u128);
            push_bytes(&mut out, "total messages: ".as_bytes());
            push_unsigned(&mut out, self.total_messages as u128);
            proof {
                assert(out@ =~= stats_text(old(self)@, now));
            }
            (out, false)
        } else if same(command, "clear".as_bytes()) {
            let (target, _) = split_word(rest);
            if same(target, "counters".as_bytes()) {
                self.counters.clear();
                push_bytes(&mut out, "Counters cleared.".as_bytes());
            } else if same(target, "gauges".as_bytes()) {
                self.gauges.clear();
                push_bytes(&mut out, "Gauges cleared.".as_bytes());
            } else if same(target, "meters".as_bytes()) {
                self.meters.clear();
                push_bytes(&mut out, "Meters cleared.".as_bytes());
            } else if same(target, "histograms".as_bytes()) {
                self.histograms.clear();
                push_bytes(&mut out, "Histograms cleared.".as_bytes());
            } else if same(target, "timers".as_bytes()) {
                self.timers.clear();
                push_bytes(&mut out, "Timers cleared.".as_bytes());
            } else if target.len() == 0 {
                push_bytes(&mut out, "ERROR: need something to clear!".as_bytes());
            } else {
                push_bytes(&mut out, "ERROR: Nothing named '".as_bytes());
                push_bytes(&mut out, target);
                push_bytes(&mut out, "' to clear.".as_bytes());
            }
            proof {
                assert(out@ =~= spec_clear(old(self)@, target@).0);
            }
            (out, false)
        } else if same(command, "quit".as_bytes()) {
            push_bytes(&mut out, "END".as_bytes());
            proof {
                assert(out@ =~= lit("END"));
            }
            (out, true)
        } else {
            push_bytes(&mut out, "ERROR: Unknown command: ".as_bytes());
            push_bytes(&mut out, command);
            proof {
                assert(out@ =~= lit("ERROR: Unknown command: ") + command@);
            }
            (out, false)
        }
    }

    /// Answers one management line at this moment: the response, and
    /// whether the connection is to be closed. Only the `stats` report
    /// depends on the moment.
    pub fn do_management_line(&mut self, line: &[u8]) -> (r: (Vec<u8>, bool))
        ensures
            exists|now: Timestamp|
                (r.0@, r.1, final(self)@) == #[trigger] spec_management(old(self)@, line@, now),
    {
        self.management(line, now())
    }
}

} // verus!
