//! The Graphite backend: the store in Graphite's plaintext protocol, one
//! line for each path, value and time.

use vstd::prelude::*;
use crate::caller::emitted;
use crate::clock::now;
use crate::server::backend::{
    snapshot_of,
    Backend,
    Reading,
    ReadingView,
    Snapshot,
    SnapshotView,
    Statistics,
    Summary,
    SummaryView,
};
use crate::server::buckets::{Buckets, BucketsView};
use crate::text::{decimal, join, lit, push_bytes, push_signed};

verus! {

/// The Graphite backend. `prefix` is empty, or a configured prefix and a dot;
/// it begins every path.
pub struct Graphite {
    pub last_flush_time: i64,
    pub last_flush_length: i64,
    pub prefix: Vec<u8>,
}

/// One line: the prefix and the key, the value, the time.
pub open spec fn graphite_line(prefix: Seq<u8>, key: Seq<u8>, value: Seq<u8>, time: i64) -> Seq<
    u8,
> {
    prefix + key + lit(" ") + value + lit(" ") + decimal(time as int) + lit("\n")
}

/// The lines of the readings of one kind, under `<kind>.<key>`.
pub open spec fn reading_lines(
    prefix: Seq<u8>,
    kind: Seq<u8>,
    rs: Seq<ReadingView>,
    time: i64,
) -> Seq<u8>
    decreases rs.len(),
{
    if rs.len() == 0 {
        Seq::empty()
    } else {
        reading_lines(prefix, kind, rs.drop_last(), time) + graphite_line(
            prefix,
            kind + rs.last().key,
            rs.last().value,
            time,
        )
    }
}

/// The six lines of one summary, under `<kind>.<key>.<statistic>`.
pub open spec fn stat_lines(prefix: Seq<u8>, kind: Seq<u8>, s: SummaryView, time: i64) -> Seq<
    u8,
> {
    let key = kind + s.key;
    graphite_line(prefix, key + lit(".min"), s.min, time) + graphite_line(
        prefix,
        key + lit(".max"),
        s.max,
        time,
    ) + graphite_line(prefix, key + lit(".count"), decimal(s.count as int), time)
        + graphite_line(prefix, key + lit(".mean"), s.mean, time) + graphite_line(
        prefix,
        key + lit(".stddev"),
        s.std_dev,
        time,
    ) + graphite_line(prefix, key + lit(".upper_95"), s.upper_95, time)
}

/// The lines of the summaries of one kind.
pub open spec fn stats_lines(
    prefix: Seq<u8>,
    kind: Seq<u8>,
    ss: Seq<SummaryView>,
    time: i64,
) -> Seq<u8>
    decreases ss.len(),
{
    if ss.len() == 0 {
        Seq::empty()
    } else {
        stats_lines(prefix, kind, ss.drop_last(), time) + stat_lines(prefix, kind, ss.last(), time)
    }
}

/// The whole buffer of a flush that starts at `start`: counters, gauges,
/// timers, histograms, then the backend's two lines about itself, which
/// both carry the time at which the flush before this one ended.
pub open spec fn graphite_text(
    prefix: Seq<u8>,
    last_flush_time: i64,
    snapshot: SnapshotView,
    start: i64,
) -> Seq<u8> {
    reading_lines(prefix, lit("counters."), snapshot.counters, start) + reading_lines(
        prefix,
        lit("gauges."),
        snapshot.gauges,
        start,
    ) + stats_lines(prefix, lit("timers."), snapshot.timers, start) + stats_lines(
        prefix,
        lit("histograms."),
        snapshot.histograms,
        start,
    ) + graphite_line(
        prefix,
        lit("graphiteStats.last_flush"),
        decimal(last_flush_time as int),
        start,
    ) + graphite_line(
        prefix,
        lit("graphiteStats.flush_time"),
        decimal(last_flush_time as int),
        start,
    )
}

/// The span from `start` to `end` in seconds, held to what an `i64` holds.
pub open spec fn span(start: i64, end: i64) -> i64 {
    if end - start > i64::MAX {
        i64::MAX
    } else if end - start < i64::MIN {
        i64::MIN
    } else {
        (end - start) as i64
    }
}

/// The decimal text of `n`.
fn number(n: i128) -> (r: Vec<u8>)
    ensures
        r@ == decimal(n as int),
{
    let mut out: Vec<u8> = Vec::new();
    push_signed(&mut out, n);
    proof {
        assert(out@ =~= decimal(n as int));
    }
    out
}

impl Graphite {
    /// A backend without a prefix.
    pub fn new() -> (r: Graphite)
        ensures
            r.last_flush_time == 0,
            r.last_flush_length == 0,
            r.prefix@ == Seq::<u8>::empty(),
    {
        Graphite { last_flush_time: 0, last_flush_length: 0, prefix: Vec::new() }
    }

    /// A backend that begins every path with `prefix` and a dot.
    pub fn new_with_prefix(prefix: &[u8]) -> (r: Graphite)
        ensures
            r.last_flush_time == 0,
            r.last_flush_length == 0,
            r.prefix@ == prefix@ + lit("."),
    {
        Graphite {
            last_flush_time: 0,
            last_flush_length: 0,
            prefix: join(prefix, ".".as_bytes()),
        }
    }

    /// The line of `key` with `value` at `time`.
    pub fn fmt_line(&self, key: &[u8], value: &[u8], time: i64) -> (r: Vec<u8>)
        ensures
            r@ == graphite_line(self.prefix@, key@, value@, time),
    {
        let mut out: Vec<u8> = Vec::new();
        push_bytes(&mut out, self.prefix.as_slice());
        push_bytes(&mut out, key);
        push_bytes(&mut out, " ".as_bytes());
        push_bytes(&mut out, value);
        push_bytes(&mut out, " ".as_bytes());
        push_signed(&mut out, time as i128);
        push_bytes(&mut out, "\n".as_bytes());
        proof {
            assert(out@ =~= graphite_line(self.prefix@, key@, value@, time));
        }
        out
    }

    /// Appends the lines of the readings of one kind.
    fn fmt_readings(&self, buf: &mut Vec<u8>, kind: &[u8], readings: &Vec<Reading>, time: i64)
        ensures
            final(buf)@ == old(buf)@ + reading_lines(
                self.prefix@,
                kind@,
                Seq::new(readings@.len(), |i: int| readings@[i]@),
                time,
            ),
    {
        let ghost all = Seq::new(readings@.len(), |i: int| readings@[i]@);
        let mut i: usize = 0;
        proof {
            assert(all.take(0) =~= Seq::<ReadingView>::empty());
            assert(buf@ =~= old(buf)@ + reading_lines(self.prefix@, kind@, all.take(0), time));
        }
        while i < readings.len()
            invariant
                0 <= i <= readings@.len(),
                all == Seq::new(readings@.len(), |i: int| readings@[i]@),
                buf@ == old(buf)@ + reading_lines(self.prefix@, kind@, all.take(i as int), time),
            decreases readings@.len() - i,
        {
            let key = join(kind, readings[i].key.as_slice());
            let line = self.fmt_line(key.as_slice(), readings[i].value.as_slice(), time);
            push_bytes(buf, line.as_slice());
            proof {
                let next = all.take(i + 1);
                assert(next.drop_last() =~= all.take(i as int));
                assert(next.last() == readings@[i as int]@);
                assert(buf@ =~= old(buf)@ + reading_lines(self.prefix@, kind@, next, time));
            }
            i += 1;
        }
        proof {
            assert(all.take(readings@.len() as int) =~= all);
        }
    }

    /// Appends the line of one statistic of `key`.
    fn fmt_stat(&self, buf: &mut Vec<u8>, key: &[u8], stat: &[u8], value: &[u8], time: i64)
        ensures
            final(buf)@ == old(buf)@ + graphite_line(self.prefix@, key@ + stat@, value@, time),
    {
        let path = join(key, stat);
        let line = self.fmt_line(path.as_slice(), value, time);
        push_bytes(buf, line.as_slice());
    }

    /// Appends the six lines of one summary.
    fn fmt_summary(&self, buf: &mut Vec<u8>, kind: &[u8], s: &Summary, time: i64)
        ensures
            final(buf)@ == old(buf)@ + stat_lines(self.prefix@, kind@, s@, time),
    {
        let key = join(kind, s.key.as_slice());
        let count = number(s.count as i128);
        self.fmt_stat(buf, key.as_slice(), ".min".as_bytes(), s.min.as_slice(), time);
        self.fmt_stat(buf, key.as_slice(), ".max".as_bytes(), s.max.as_slice(), time);
        self.fmt_stat(buf, key.as_slice(), ".count".as_bytes(), count.as_slice(), time);
        self.fmt_stat(buf, key.as_slice(), ".mean".as_bytes(), s.mean.as_slice(), time);
        self.fmt_stat(buf, key.as_slice(), ".stddev".as_bytes(), s.std_dev.as_slice(), time);
        self.fmt_stat(buf, key.as_slice(), ".upper_95".as_bytes(), s.upper_95.as_slice(), time);
        proof {
            assert(final(buf)@ =~= old(buf)@ + stat_lines(self.prefix@, kind@, s@, time));
        }
    }

    /// Appends the lines of the summaries of one kind.
    fn fmt_stats(&self, buf: &mut Vec<u8>, kind: &[u8], summaries: &Vec<Summary>, time: i64)
        ensures
            final(buf)@ == old(buf)@ + stats_lines(
                self.prefix@,
                kind@,
                Seq::new(summaries@.len(), |i: int| summaries@[i]@),
                time,
            ),
    {
        let ghost all = Seq::new(summaries@.len(), |i: int| summaries@[i]@);
        let mut i: usize = 0;
        proof {
            assert(all.take(0) =~= Seq::<SummaryView>::empty());
            assert(buf@ =~= old(buf)@ + stats_lines(self.prefix@, kind@, all.take(0), time));
        }
        while i < summaries.len()
            invariant
                0 <= i <= summaries@.len(),
                all == Seq::new(summaries@.len(), |i: int| summaries@[i]@),
                buf@ == old(buf)@ + stats_lines(self.prefix@, kind@, all.take(i as int), time),
            decreases summaries@.len() - i,
        {
            self.fmt_summary(buf, kind, &summaries[i], time);
            proof {
                let next = all.take(i + 1);
                assert(next.drop_last() =~= all.take(i as int));
                assert(next.last() == summaries@[i as int]@);
                assert(buf@ =~= old(buf)@ + stats_lines(self.prefix@, kind@, next, time));
            }
            i += 1;
        }
        proof {
            assert(all.take(summaries@.len() as int) =~= all);
        }
    }

    /// The buffer of a flush of `snapshot` that starts at `start`.
    pub fn render(&self, snapshot: &Snapshot, start: i64) -> (r: Vec<u8>)
        ensures
            r@ == graphite_text(self.prefix@, self.last_flush_time, snapshot@, start),
    {
        let mut out: Vec<u8> = Vec::new();
        self.fmt_readings(&mut out, "counters.".as_bytes(), &snapshot.counters, start);
        self.fmt_readings(&mut out, "gauges.".as_bytes(), &snapshot.gauges, start);
        self.fmt_stats(&mut out, "timers.".as_bytes(), &snapshot.timers, start);
        self.fmt_stats(&mut out, "histograms.".as_bytes(), &snapshot.histograms, start);
        let last = number(self.last_flush_time as i128);
        let line = self.fmt_line("graphiteStats.last_flush".as_bytes(), last.as_slice(), start);
        push_bytes(&mut out, line.as_slice());
        let line = self.fmt_line("graphiteStats.flush_time".as_bytes(), last.as_slice(), start);
        push_bytes(&mut out, line.as_slice());
        proof {
            assert(out@ =~= graphite_text(
                self.prefix@,
                self.last_flush_time,
                snapshot@,
                start,
            ));
        }
        out
    }

    /// Notes that the flush which started at `start` ended at `end`.
    pub fn flushed_at(&mut self, start: i64, end: i64)
        ensures
            final(self).last_flush_time == end,
            final(self).last_flush_length == span(start, end),
            final(self).prefix == old(self).prefix,
    {
        let length: i128 = end as i128 - start as i128;
        self.last_flush_length = if length > i64::MAX as i128 {
            i64::MAX
        } else if length < i64::MIN as i128 {
            i64::MIN
        } else {
            length as i64
        };
        self.last_flush_time = end;
    }
}

/// That a flush of the store `b` took the backend from `before` to `after`:
/// the buffer of some start time went to `emit`, and the backend then noted
/// the time at which the flush ended and the span since that start.
pub open spec fn graphite_flushed<F, S, O>(
    before: Graphite,
    after: Graphite,
    b: BucketsView,
    show: F,
    summarize: S,
    emit: O,
) -> bool where F: Fn(u64) -> Vec<u8>, S: Fn(Vec<u64>) -> Statistics, O: FnOnce(Vec<u8>) {
    &&& after.prefix == before.prefix
    &&& exists|start: i64, snapshot: SnapshotView|
        {
            &&& snapshot_of(show, summarize, b, snapshot)
            &&& emitted(
                emit,
                #[trigger] graphite_text(before.prefix@, before.last_flush_time, snapshot, start),
            )
            &&& after.last_flush_length == span(start, after.last_flush_time)
        }
}

impl Backend for Graphite {
    /// Composes the buffer of this flush from the store and the present
    /// time, hands it to `emit`, which is to send it, and then notes the
    /// time at which the flush ended and how long it took.
    fn flush_buckets<F, S, O>(&mut self, buckets: &Buckets, show: F, summarize: S, emit: O) where
        F: Fn(u64) -> Vec<u8>,
        S: Fn(Vec<u64>) -> Statistics,
        O: FnOnce(Vec<u8>),

        ensures
            graphite_flushed(*old(self), *final(self), buckets@, show, summarize, emit),
    {
        let start: i64 = now().sec;
        let snapshot = Snapshot::take(buckets, show, summarize);
        let text = self.render(&snapshot, start);
        let ghost given = text;
        emit(text);
        let end: i64 = now().sec;
        self.flushed_at(start, end);
        proof {
            let composed = graphite_text(
                old(self).prefix@,
                old(self).last_flush_time,
                snapshot@,
                start,
            );
            assert(emitted(emit, composed)) by {
                assert(given@ == composed && emit.ensures((given,), ()));
            }
        }
    }
}

} // verus!
