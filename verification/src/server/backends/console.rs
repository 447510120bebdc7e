//! The console backend: the store as indented text under a time stamp.

use vstd::prelude::*;
use crate::clock::utc_stamp;
use crate::caller::emitted;
use crate::server::backend::{
    snapshot_of,
    Backend,
    Reading,
    ReadingView,
    Snapshot,
    SnapshotView,
    Statistics,
    Summary,
    SummaryView,
};
use crate::server::buckets::{Buckets, BucketsView};
use crate::text::{decimal, lit, push_bytes, push_unsigned};

verus! {

/// The console backend.
pub struct Console {
    pub last_flush_time: i64,
    pub last_flush_length: i64,
}

/// The line of one counter or gauge.
pub open spec fn reading_line(r: ReadingView) -> Seq<u8> {
    lit("    ") + r.key + lit(": ") + r.value + lit("\n")
}

/// The lines of a section of counters or gauges, in their order.
pub open spec fn reading_lines(rs: Seq<ReadingView>) -> Seq<u8>
    decreases rs.len(),
{
    if rs.len() == 0 {
        Seq::empty()
    } else {
        reading_lines(rs.drop_last()) + reading_line(rs.last())
    }
}

/// The block of one timer or histogram.
pub open spec fn summary_block(s: SummaryView) -> Seq<u8> {
    lit("    ") + s.key + lit(":\n      min: ") + s.min + lit("\n      max: ") + s.max + lit(
        "\n      count: ",
    ) + decimal(s.count as int) + lit("\n      mean: ") + s.mean + lit("\n      stddev: ")
        + s.std_dev + lit("\n      upper_95: ") + s.upper_95 + lit("\n")
}

/// The blocks of a section of timers or histograms, in their order.
pub open spec fn summary_blocks(ss: Seq<SummaryView>) -> Seq<u8>
    decreases ss.len(),
{
    if ss.len() == 0 {
        Seq::empty()
    } else {
        summary_blocks(ss.drop_last()) + summary_block(ss.last())
    }
}

/// The whole report: the stamp, then the four sections.
pub open spec fn console_text(stamp: Seq<u8>, snapshot: SnapshotView) -> Seq<u8> {
    stamp + lit(":\n") + lit("  counters:\n") + reading_lines(snapshot.counters) + lit(
        "  gauges:\n",
    ) + reading_lines(snapshot.gauges) + lit("  timers:\n") + summary_blocks(snapshot.timers)
        + lit("  histograms:\n") + summary_blocks(snapshot.histograms)
}

/// Appends the line of one counter or gauge.
fn fmt_line(buf: &mut Vec<u8>, key: &[u8], value: &[u8])
    ensures
        final(buf)@ == old(buf)@ + reading_line(ReadingView { key: key@, value: value@ }),
{
    push_bytes(buf, "    ".as_bytes());
    push_bytes(buf, key);
    push_bytes(buf, ": ".as_bytes());
    push_bytes(buf, value);
    push_bytes(buf, "\n".as_bytes());
    proof {
        assert(final(buf)@ =~= old(buf)@ + reading_line(
            ReadingView { key: key@, value: value@ },
        ));
    }
}

/// Appends a section of counters or gauges.
fn print_readings(buf: &mut Vec<u8>, readings: &Vec<Reading>)
    ensures
        final(buf)@ == old(buf)@ + reading_lines(
            Seq::new(readings@.len(), |i: int| readings@[i]@),
        ),
{
    let ghost all = Seq::new(readings@.len(), |i: int| readings@[i]@);
    let mut i: usize = 0;
    proof {
        assert(all.take(0) =~= Seq::<ReadingView>::empty());
        assert(buf@ =~= old(buf)@ + reading_lines(all.take(0)));
    }
    while i < readings.len()
        invariant
            0 <= i <= readings@.len(),
            all == Seq::new(readings@.len(), |i: int| readings@[i]@),
            buf@ == old(buf)@ + reading_lines(all.take(i as int)),
        decreases readings@.len() - i,
    {
        let ghost before = buf@;
        fmt_line(buf, readings[i].key.as_slice(), readings[i].value.as_slice());
        proof {
            let next = all.take(i + 1);
            assert(next.drop_last() =~= all.take(i as int));
            assert(next.last() == readings@[i as int]@);
            assert(buf@ =~= old(buf)@ + reading_lines(next));
        }
        i += 1;
    }
    proof {
        assert(all.take(readings@.len() as int) =~= all);
    }
}

/// Appends the block of one timer or histogram.
fn print_summary(buf: &mut Vec<u8>, s: &Summary)
    ensures
        final(buf)@ == old(buf)@ + summary_block(s@),
{
    push_bytes(buf, "    ".as_bytes());
    push_bytes(buf, s.key.as_slice());
    push_bytes(buf, ":\n      min: ".as_bytes());
    push_bytes(buf, s.min.as_slice());
    push_bytes(buf, "\n      max: ".as_bytes());
    push_bytes(buf, s.max.as_slice());
    push_bytes(buf, "\n      count: ".as_bytes());
    push_unsigned(buf, s.count as u128);
    push_bytes(buf, "\n      mean: ".as_bytes());
    push_bytes(buf, s.mean.as_slice());
    push_bytes(buf, "\n      stddev: ".as_bytes());
    push_bytes(buf, s.std_dev.as_slice());
    push_bytes(buf, "\n      upper_95: ".as_bytes());
    push_bytes(buf, s.upper_95.as_slice());
    push_bytes(buf, "\n".as_bytes());
    proof {
        assert(final(buf)@ =~= old(buf)@ + summary_block(s@));
    }
}

/// Appends a section of timers or histograms.
fn print_stats(buf: &mut Vec<u8>, summaries: &Vec<Summary>)
    ensures
        final(buf)@ == old(buf)@ + summary_blocks(
            Seq::new(summaries@.len(), |i: int| summaries@[i]@),
        ),
{
    let ghost all = Seq::new(summaries@.len(), |i: int| summaries@[i]@);
    let mut i: usize = 0;
    proof {
        assert(all.take(0) =~= Seq::<SummaryView>::empty());
        assert(buf@ =~= old(buf)@ + summary_blocks(all.take(0)));
    }
    while i < summaries.len()
        invariant
            0 <= i <= summaries@.len(),
            all == Seq::new(summaries@.len(), |i: int| summaries@[i]@),
            buf@ == old(buf)@ + summary_blocks(all.take(i as int)),
        decreases summaries@.len() - i,
    {
        print_summary(buf, &summaries[i]);
        proof {
            let next = all.take(i + 1);
            assert(next.drop_last() =~= all.take(i as int));
            assert(next.last() == summaries@[i as int]@);
            assert(buf@ =~= old(buf)@ + summary_blocks(next));
        }
        i += 1;
    }
    proof {
        assert(all.take(summaries@.len() as int) =~= all);
    }
}

impl Console {
    /// A console backend that has not flushed yet.
    pub fn new() -> (r: Console)
        ensures
            r.last_flush_time == 0,
            r.last_flush_length == 0,
    {
        Console { last_flush_time: 0, last_flush_length: 0 }
    }

    /// The report of `snapshot` under the time stamp `stamp`.
    pub fn render(stamp: &[u8], snapshot: &Snapshot) -> (r: Vec<u8>)
        ensures
            r@ == console_text(stamp@, snapshot@),
    {
        let mut out: Vec<u8> = Vec::new();
        push_bytes(&mut out, stamp);
        push_bytes(&mut out, ":\n".as_bytes());
        push_bytes(&mut out, "  counters:\n".as_bytes());
        print_readings(&mut out, &snapshot.counters);
        push_bytes(&mut out, "  gauges:\n".as_bytes());
        print_readings(&mut out, &snapshot.gauges);
        push_bytes(&mut out, "  timers:\n".as_bytes());
        print_stats(&mut out, &snapshot.timers);
        push_bytes(&mut out, "  histograms:\n".as_bytes());
        print_stats(&mut out, &snapshot.histograms);
        proof {
            assert(out@ =~= console_text(stamp@, snapshot@));
        }
        out
    }
}

/// That a console flush of the store `b` handed its report to `emit`.
pub open spec fn console_flushed<F, S, O>(b: BucketsView, show: F, summarize: S, emit: O) -> bool where
    F: Fn(u64) -> Vec<u8>,
    S: Fn(Vec<u64>) -> Statistics,
    O: FnOnce(Vec<u8>),
 {
    exists|stamp: Seq<u8>, snapshot: SnapshotView|
        {
            &&& snapshot_of(show, summarize, b, snapshot)
            &&& emitted(emit, #[trigger] console_text(stamp, snapshot))
        }
}

impl Backend for Console {
    /// Reports the store under the present UTC time and hands the report
    /// to `emit`. The backend itself is left as it was.
    fn flush_buckets<F, S, O>(&mut self, buckets: &Buckets, show: F, summarize: S, emit: O) where
        F: Fn(u64) -> Vec<u8>,
        S: Fn(Vec<u64>) -> Statistics,
        O: FnOnce(Vec<u8>),

        ensures
            final(self).last_flush_time == old(self).last_flush_time,
            final(self).last_flush_length == old(self).last_flush_length,
            console_flushed(buckets@, show, summarize, emit),
    {
        let snapshot = Snapshot::take(buckets, show, summarize);
        let stamp = utc_stamp();
        let text = Console::render(stamp.as_slice(), &snapshot);
        let ghost given = text;
        emit(text);
        proof {
            assert(emitted(emit, console_text(stamp@, snapshot@))) by {
                assert(given@ == console_text(stamp@, snapshot@) && emit.ensures((given,), ()));
            }
        }
    }
}

} // verus!
