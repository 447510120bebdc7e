//! What a backend is given: the store's tables with every number as text.
//!
//! Rendering a double and summarising a list of samples are the caller's:
//! `show` turns the bits of a double into its text, `summarize` answers the
//! statistics of a sample list as five doubles. The snapshot says which
//! names are reported, in which order, and with which texts.

use vstd::prelude::*;
use crate::caller::shows_as;
use crate::server::buckets::{Buckets, BucketsView};
use crate::table::Table;
use crate::text::copy_range;

verus! {

/// A reporting backend. On every flush it is given the store, the caller's
/// `show` and `summarize` for the numbers, and `emit`, which takes the
/// finished text to where this backend's reports go. It hands `emit` one
/// text and so reports once.
pub trait Backend {
    fn flush_buckets<F, S, O>(&mut self, buckets: &Buckets, show: F, summarize: S, emit: O) where
        F: Fn(u64) -> Vec<u8>,
        S: Fn(Vec<u64>) -> Statistics,
        O: FnOnce(Vec<u8>),

        requires
            forall|bits: u64| show.requires((bits,)),
            forall|list: Vec<u64>| summarize.requires((list,)),
            forall|text: Vec<u8>| emit.requires((text,)),
    ;
}

/// The statistics of a sample list, each the bit pattern of a double.
#[derive(Clone, Copy, Debug, PartialEq, Eq)]
pub struct Statistics {
    pub min: u64,
    pub max: u64,
    pub mean: u64,
    pub std_dev: u64,
    pub upper_95: u64,
}

/// One name with its value as text.
#[derive(Clone, Debug, PartialEq, Eq)]
pub struct Reading {
    pub key: Vec<u8>,
    pub value: Vec<u8>,
}

/// One name with the statistics of its samples as text, and their number.
#[derive(Clone, Debug, PartialEq, Eq)]
pub struct Summary {
    pub key: Vec<u8>,
    pub min: Vec<u8>,
    pub max: Vec<u8>,
    pub count: usize,
    pub mean: Vec<u8>,
    pub std_dev: Vec<u8>,
    pub upper_95: Vec<u8>,
}

/// The store as a backend reports it.
#[derive(Clone, Debug, PartialEq, Eq)]
pub struct Snapshot {
    pub counters: Vec<Reading>,
    pub gauges: Vec<Reading>,
    pub timers: Vec<Summary>,
    pub histograms: Vec<Summary>,
}

/// The mathematical value of a `Reading`.
pub struct ReadingView {
    pub key: Seq<u8>,
    pub value: Seq<u8>,
}

/// The mathematical value of a `Summary`.
pub struct SummaryView {
    pub key: Seq<u8>,
    pub min: Seq<u8>,
    pub max: Seq<u8>,
    pub count: usize,
    pub mean: Seq<u8>,
    pub std_dev: Seq<u8>,
    pub upper_95: Seq<u8>,
}

/// The mathematical value of a `Snapshot`.
pub struct SnapshotView {
    pub counters: Seq<ReadingView>,
    pub gauges: Seq<ReadingView>,
    pub timers: Seq<SummaryView>,
    pub histograms: Seq<SummaryView>,
}

impl View for Reading {
    type V = ReadingView;

    open spec fn view(&self) -> ReadingView {
        ReadingView { key: self.key@, value: self.value@ }
    }
}

impl View for Summary {
    type V = SummaryView;

    open spec fn view(&self) -> SummaryView {
        SummaryView {
            key: self.key@,
            min: self.min@,
            max: self.max@,
            count: self.count,
            mean: self.mean@,
            std_dev: self.std_dev@,
            upper_95: self.upper_95@,
        }
    }
}

impl View for Snapshot {
    type V = SnapshotView;

    open spec fn view(&self) -> SnapshotView {
        SnapshotView {
            counters: Seq::new(self.counters@.len(), |i: int| self.counters@[i]@),
            gauges: Seq::new(self.gauges@.len(), |i: int| self.gauges@[i]@),
            timers: Seq::new(self.timers@.len(), |i: int| self.timers@[i]@),
            histograms: Seq::new(self.histograms@.len(), |i: int| self.histograms@[i]@),
        }
    }
}

/// That `summarize` may answer `stats` for the samples `samples`.
pub open spec fn summarizes_as<S: Fn(Vec<u64>) -> Statistics>(
    summarize: S,
    samples: Seq<u64>,
    stats: Statistics,
) -> bool {
    exists|list: Vec<u64>| list@ == samples && summarize.ensures((list,), stats)
}

/// That `out` reports the pair `pair`: its name, and its value as `show`
/// renders it.
pub open spec fn reading_of<F: Fn(u64) -> Vec<u8>>(
    show: F,
    pair: (Seq<u8>, u64),
    out: ReadingView,
) -> bool {
    out.key == pair.0 && shows_as(show, pair.1, out.value)
}

/// That `out` reports the pair `pair`: its name, the number of its samples,
/// and their statistics by `summarize`, each as `show` renders it.
pub open spec fn summary_of<F: Fn(u64) -> Vec<u8>, S: Fn(Vec<u64>) -> Statistics>(
    show: F,
    summarize: S,
    pair: (Seq<u8>, Seq<u64>),
    out: SummaryView,
) -> bool {
    &&& out.key == pair.0
    &&& out.count == pair.1.len()
    &&& exists|stats: Statistics|
        {
            &&& #[trigger] summarizes_as(summarize, pair.1, stats)
            &&& shows_as(show, stats.min, out.min)
            &&& shows_as(show, stats.max, out.max)
            &&& shows_as(show, stats.mean, out.mean)
            &&& shows_as(show, stats.std_dev, out.std_dev)
            &&& shows_as(show, stats.upper_95, out.upper_95)
        }
}

/// That `out` reports every pair of `pairs`, in their order.
pub open spec fn readings_of<F: Fn(u64) -> Vec<u8>>(
    show: F,
    pairs: Seq<(Seq<u8>, u64)>,
    out: Seq<ReadingView>,
) -> bool {
    out.len() == pairs.len() && forall|i: int|
        0 <= i < pairs.len() ==> reading_of(show, pairs[i], #[trigger] out[i])
}

/// That `out` summarises every pair of `pairs`, in their order.
pub open spec fn summaries_of<F: Fn(u64) -> Vec<u8>, S: Fn(Vec<u64>) -> Statistics>(
    show: F,
    summarize: S,
    pairs: Seq<(Seq<u8>, Seq<u64>)>,
    out: Seq<SummaryView>,
) -> bool {
    out.len() == pairs.len() && forall|i: int|
        0 <= i < pairs.len() ==> summary_of(show, summarize, pairs[i], #[trigger] out[i])
}

/// That `out` is the store `b` as a backend reports it: counters and gauges
/// with their values, timers and histograms with their summaries. Meters
/// are not reported.
pub open spec fn snapshot_of<F: Fn(u64) -> Vec<u8>, S: Fn(Vec<u64>) -> Statistics>(
    show: F,
    summarize: S,
    b: BucketsView,
    out: SnapshotView,
) -> bool {
    &&& readings_of(show, b.counters, out.counters)
    &&& readings_of(show, b.gauges, out.gauges)
    &&& summaries_of(show, summarize, b.timers, out.timers)
    &&& summaries_of(show, summarize, b.histograms, out.histograms)
}

/// Copies a list of samples.
fn copy_samples(list: &Vec<u64>) -> (r: Vec<u64>)
    ensures
        r@ == list@,
{
    let mut out: Vec<u64> = Vec::new();
    let mut i: usize = 0;
    while i < list.len()
        invariant
            0 <= i <= list@.len(),
            out@ == list@.take(i as int),
        decreases list@.len() - i,
    {
        out.push(list[i]);
        proof {
            assert(out@ =~= list@.take(i + 1));
        }
        i += 1;
    }
    proof {
        assert(list@.take(list@.len() as int) =~= list@);
    }
    out
}

/// Reports every pair of a table of values.
fn readings<F: Fn(u64) -> Vec<u8>>(table: &Table<u64>, show: &F) -> (r: Vec<Reading>)
    requires
        forall|bits: u64| show.requires((bits,)),
    ensures
        readings_of(*show, table@, Seq::new(r@.len(), |i: int| r@[i]@)),
{
    let mut out: Vec<Reading> = Vec::new();
    let n = table.len();
    let mut i: usize = 0;
    while i < n
        invariant
            0 <= i <= n,
            n == table@.len(),
            out@.len() == i,
            forall|bits: u64| show.requires((bits,)),
            forall|j: int| 0 <= j < i ==> reading_of(*show, table@[j], #[trigger] out@[j]@),
        decreases n - i,
    {
        let name = table.key(i);
        let key = copy_range(name.as_slice(), 0, name.len());
        proof {
            assert(key@ =~= name@);
        }
        let bits: u64 = *table.value(i);
        let value = show(bits);
        proof {
            assert(shows_as(*show, bits, value@));
        }
        out.push(Reading { key, value });
        i += 1;
    }
    out
}

/// Summarises every pair of a table of sample lists.
fn summaries<F: Fn(u64) -> Vec<u8>, S: Fn(Vec<u64>) -> Statistics>(
    table: &Table<Vec<u64>>,
    show: &F,
    summarize: &S,
) -> (r: Vec<Summary>)
    requires
        forall|bits: u64| show.requires((bits,)),
        forall|list: Vec<u64>| summarize.requires((list,)),
    ensures
        summaries_of(*show, *summarize, table@, Seq::new(r@.len(), |i: int| r@[i]@)),
{
    let mut out: Vec<Summary> = Vec::new();
    let n = table.len();
    let mut i: usize = 0;
    while i < n
        invariant
            0 <= i <= n,
            n == table@.len(),
            out@.len() == i,
            forall|bits: u64| show.requires((bits,)),
            forall|list: Vec<u64>| summarize.requires((list,)),
            forall|j: int|
                0 <= j < i ==> summary_of(*show, *summarize, table@[j], #[trigger] out@[j]@),
        decreases n - i,
    {
        let name = table.key(i);
        let key = copy_range(name.as_slice(), 0, name.len());
        proof {
            assert(key@ =~= name@);
        }
        let samples = table.value(i);
        let count = samples.len();
        let stats = summarize(copy_samples(samples));
        proof {
            assert(summarizes_as(*summarize, samples@, stats));
        }
        let min = show(stats.min);
        let max = show(stats.max);
        let mean = show(stats.mean);
        let std_dev = show(stats.std_dev);
        let upper_95 = show(stats.upper_95);
        proof {
            assert(shows_as(*show, stats.min, min@));
            assert(shows_as(*show, stats.max, max@));
            assert(shows_as(*show, stats.mean, mean@));
            assert(shows_as(*show, stats.std_dev, std_dev@));
            assert(shows_as(*show, stats.upper_95, upper_95@));
        }
        out.push(Summary { key, min, max, count, mean, std_dev, upper_95 });
        i += 1;
    }
    out
}

impl Snapshot {
    /// Reports the store: every counter and gauge with its value as `show`
    /// renders it, every timer and histogram with the number of its samples
    /// and their statistics by `summarize`, each name at its place.
    pub fn take<F: Fn(u64) -> Vec<u8>, S: Fn(Vec<u64>) -> Statistics>(
        buckets: &Buckets,
        show: F,
        summarize: S,
    ) -> (r: Snapshot)
        requires
            forall|bits: u64| show.requires((bits,)),
            forall|list: Vec<u64>| summarize.requires((list,)),
        ensures
            snapshot_of(show, summarize, buckets@, r@),
    {
        let counters = readings(&buckets.counters, &show);
        let gauges = readings(&buckets.gauges, &show);
        let timers = summaries(&buckets.timers, &show, &summarize);
        let histograms = summaries(&buckets.histograms, &show, &summarize);
        Snapshot { counters, gauges, timers, histograms }
    }
}

} // verus!
