//! The metric model and the wire grammar.
//!
//! One line carries one metric: `<name>:<value>|<type>`, or, for a sampled
//! counter, `<name>:<value>|c|@<sample rate>`. The grammar is decided here on
//! bytes. The two numbers of a line are decimal text for a double; reading
//! them is left to the caller, who hands back the bit pattern of each.

use vstd::prelude::*;
use crate::caller::{reads_as, shows_as};
use crate::text::{
    copy_range,
    find_from,
    first_index,
    lemma_first_index,
    lemma_first_index_is,
    lit,
    push_bytes,
};

verus! {

/// The byte `:` that ends the name.
pub const COLON: u8 = 58;

/// The byte `|` that ends the value.
pub const BAR: u8 = 124;

/// The byte `@` that introduces a sample rate.
pub const AT: u8 = 64;

/// The bit pattern of the double 1.0: the sample rate of an unsampled counter.
pub const UNIT_RATE: u64 = 0x3FF0_0000_0000_0000;

/// The kinds of metric. A counter carries its sample rate, as the bit
/// pattern of a double.
#[derive(Clone, Copy, Debug, PartialEq, Eq)]
pub enum MetricKind {
    Counter(u64),
    Gauge,
    Timer,
    Histogram,
    Meter,
}

/// One metric as a client sent it. `value` is the bit pattern of a double.
#[derive(Clone, Debug, PartialEq, Eq)]
pub struct Metric {
    pub kind: MetricKind,
    pub name: Vec<u8>,
    pub value: u64,
}

/// The mathematical value of a `Metric`.
pub struct MetricView {
    pub kind: MetricKind,
    pub name: Seq<u8>,
    pub value: u64,
}

impl View for Metric {
    type V = MetricView;

    open spec fn view(&self) -> MetricView {
        MetricView { kind: self.kind, name: self.name@, value: self.value }
    }
}

/// The type tag of a line.
#[derive(Clone, Copy, Debug, PartialEq, Eq)]
pub enum Tag {
    Counter,
    Gauge,
    Timer,
    Histogram,
    Meter,
}

/// The parts of a line that the grammar accepts, numbers still as text.
/// `rate` is present exactly for a sampled counter.
#[derive(Clone, Debug, PartialEq, Eq)]
pub struct Fields {
    pub name: Vec<u8>,
    pub value: Vec<u8>,
    pub tag: Tag,
    pub rate: Option<Vec<u8>>,
}

/// The mathematical value of a `Fields`.
pub struct FieldsView {
    pub name: Seq<u8>,
    pub value: Seq<u8>,
    pub tag: Tag,
    pub rate: Option<Seq<u8>>,
}

impl View for Fields {
    type V = FieldsView;

    open spec fn view(&self) -> FieldsView {
        FieldsView {
            name: self.name@,
            value: self.value@,
            tag: self.tag,
            rate: match self.rate {
                Some(r) => Some(r@),
                None => None,
            },
        }
    }
}

/// The text of each plain type tag.
pub open spec fn tag_text(tag: Tag) -> Seq<u8> {
    match tag {
        Tag::Counter => seq![99u8],
        Tag::Gauge => seq![103u8],
        Tag::Timer => seq![109u8, 115u8],
        Tag::Histogram => seq![104u8],
        Tag::Meter => seq![109u8],
    }
}

/// The marker `c|@` of a sampled counter.
pub open spec fn sampled_marker() -> Seq<u8> {
    seq![99u8, BAR, AT]
}

/// What the text after the `|` says: a plain tag when it is exactly that
/// tag's text, a counter with the rest as its sample rate when it begins
/// with `c|@`, and nothing otherwise. Tags are ASCII, so it makes no
/// difference that the text is compared by bytes.
pub open spec fn spec_tag(rest: Seq<u8>) -> Option<(Tag, Option<Seq<u8>>)> {
    if rest == tag_text(Tag::Counter) {
        Some((Tag::Counter, None))
    } else if rest == tag_text(Tag::Timer) {
        Some((Tag::Timer, None))
    } else if rest == tag_text(Tag::Histogram) {
        Some((Tag::Histogram, None))
    } else if rest == tag_text(Tag::Gauge) {
        Some((Tag::Gauge, None))
    } else if rest == tag_text(Tag::Meter) {
        Some((Tag::Meter, None))
    } else if rest.len() >= 3 && rest.take(3) == sampled_marker() {
        Some((Tag::Counter, Some(rest.skip(3))))
    } else {
        None
    }
}

/// The grammar of a line. The name runs to the first `:` and is not empty;
/// the value runs from there to the next `|`; the rest is the type.
pub open spec fn spec_fields(line: Seq<u8>) -> Option<FieldsView> {
    match first_index(line, COLON) {
        None => None,
        Some(colon) => if colon == 0 {
            None
        } else {
            let after = line.skip(colon + 1);
            match first_index(after, BAR) {
                None => None,
                Some(bar) => match spec_tag(after.skip(bar + 1)) {
                    None => None,
                    Some((tag, rate)) => Some(
                        FieldsView { name: line.take(colon), value: after.take(bar), tag, rate },
                    ),
                },
            }
        },
    }
}

/// The metric that the parts of a line make, given what reading its two
/// numbers gave. There is none where the value is no number, or where the
/// line has a sample rate and that is no number.
pub open spec fn spec_metric(f: FieldsView, value: Option<u64>, rate: Option<u64>) -> Option<
    MetricView,
> {
    match value {
        None => None,
        Some(v) => match f.tag {
            Tag::Counter => match f.rate {
                None => Some(
                    MetricView { kind: MetricKind::Counter(UNIT_RATE), name: f.name, value: v },
                ),
                Some(_) => match rate {
                    None => None,
                    Some(r) => Some(
                        MetricView { kind: MetricKind::Counter(r), name: f.name, value: v },
                    ),
                },
            },
            Tag::Gauge => Some(MetricView { kind: MetricKind::Gauge, name: f.name, value: v }),
            Tag::Timer => Some(MetricView { kind: MetricKind::Timer, name: f.name, value: v }),
            Tag::Histogram => Some(
                MetricView { kind: MetricKind::Histogram, name: f.name, value: v },
            ),
            Tag::Meter => Some(MetricView { kind: MetricKind::Meter, name: f.name, value: v }),
        },
    }
}

/// Reads the type that begins at `at`.
fn read_tag(line: &[u8], at: usize) -> (r: Option<(Tag, Option<Vec<u8>>)>)
    requires
        at <= line.len(),
    ensures
        match r {
            Some((tag, Some(rate))) => spec_tag(line@.skip(at as int)) == Some(
                (tag, Some(rate@)),
            ),
            Some((tag, None)) => spec_tag(line@.skip(at as int)) == Some(
                (tag, None::<Seq<u8>>),
            ),
            None => spec_tag(line@.skip(at as int)) is None,
        },
{
    let ghost rest = line@.skip(at as int);
    let n: usize = line.len() - at;
    proof {
        assert(rest.len() == n);
        assert(forall|i: int| 0 <= i < n ==> rest[i] == line@[at + i]);
    }
    if n == 1 {
        let b: u8 = line[at];
        proof {
            assert(rest[0] == b);
            assert(rest =~= seq![b]);
            assert(seq![b][0] == b);
        }
        if b == 99 {
            Some((Tag::Counter, None))
        } else if b == 104 {
            Some((Tag::Histogram, None))
        } else if b == 103 {
            Some((Tag::Gauge, None))
        } else if b == 109 {
            Some((Tag::Meter, None))
        } else {
            proof {
                assert(tag_text(Tag::Counter)[0] == 99u8);
                assert(tag_text(Tag::Histogram)[0] == 104u8);
                assert(tag_text(Tag::Gauge)[0] == 103u8);
                assert(tag_text(Tag::Meter)[0] == 109u8);
            }
            None
        }
    } else if n == 2 {
        let b0: u8 = line[at];
        let b1: u8 = line[at + 1];
        proof {
            assert(rest[0] == b0 && rest[1] == b1);
            assert(rest =~= seq![b0, b1]);
        }
        if b0 == 109 && b1 == 115 {
            Some((Tag::Timer, None))
        } else {
            proof {
                assert(tag_text(Tag::Timer)[0] == 109u8 && tag_text(Tag::Timer)[1] == 115u8);
            }
            None
        }
    } else if n >= 3 {
        let b0: u8 = line[at];
        let b1: u8 = line[at + 1];
        let b2: u8 = line[at + 2];
        proof {
            assert(rest.take(3) =~= seq![rest[0], rest[1], rest[2]]);
            assert(rest[0] == b0 && rest[1] == b1 && rest[2] == b2);
        }
        if b0 == 99 && b1 == BAR && b2 == AT {
            let rate = copy_range(line, at + 3, line.len());
            proof {
                assert(rate@ =~= rest.skip(3));
                assert(rest.take(3) =~= sampled_marker());
            }
            Some((Tag::Counter, Some(rate)))
        } else {
            proof {
                assert(sampled_marker()[0] == 99u8 && sampled_marker()[1] == BAR
                    && sampled_marker()[2] == AT);
            }
            None
        }
    } else {
        None
    }
}

/// Splits a line by the grammar, or finds that it is none of its lines.
pub fn fields(line: &[u8]) -> (r: Option<Fields>)
    ensures
        match r {
            Some(f) => spec_fields(line@) == Some(f@),
            None => spec_fields(line@) is None,
        },
{
    proof {
        assert(line@.skip(0) =~= line@);
    }
    let colon: usize = match find_from(line, 0, COLON) {
        Some(p) => p,
        None => {
            return None;
        },
    };
    if colon == 0 {
        return None;
    }
    proof {
        lemma_first_index(line@, COLON);
    }
    let start: usize = colon + 1;
    let ghost after = line@.skip(start as int);
    let bar: usize = match find_from(line, start, BAR) {
        Some(p) => p,
        None => {
            return None;
        },
    };
    proof {
        lemma_first_index(after, BAR);
        assert(after.skip(bar - start + 1) =~= line@.skip(bar + 1));
    }
    match read_tag(line, bar + 1) {
        None => None,
        Some((tag, rate)) => {
            let name = copy_range(line, 0, colon);
            let value = copy_range(line, start, bar);
            proof {
                assert(name@ =~= line@.take(colon as int));
                assert(value@ =~= after.take(bar - start));
            }
            Some(Fields { name, value, tag, rate })
        },
    }
}

/// The kind that a plain type tag stands for. A counter without a sample
/// rate has the rate 1.0.
pub open spec fn plain_kind(tag: Tag) -> MetricKind {
    match tag {
        Tag::Counter => MetricKind::Counter(UNIT_RATE),
        Tag::Gauge => MetricKind::Gauge,
        Tag::Timer => MetricKind::Timer,
        Tag::Histogram => MetricKind::Histogram,
        Tag::Meter => MetricKind::Meter,
    }
}

/// The line `<name>:<value>|<rest>`.
pub open spec fn line_of(name: Seq<u8>, value: Seq<u8>, rest: Seq<u8>) -> Seq<u8> {
    name + seq![COLON] + value + seq![BAR] + rest
}

/// Where the name holds no `:` and is not empty, and the value holds no `|`,
/// the grammar cuts `<name>:<value>|<rest>` at exactly those two bytes.
pub proof fn lemma_cut(name: Seq<u8>, value: Seq<u8>, rest: Seq<u8>)
    requires
        name.len() > 0,
        !name.contains(COLON),
        !value.contains(BAR),
    ensures
        spec_fields(line_of(name, value, rest)) == match spec_tag(rest) {
            None => None,
            Some((tag, rate)) => Some(FieldsView { name, value, tag, rate }),
        },
{
    let line = line_of(name, value, rest);
    let colon = name.len() as int;
    assert(line[colon] == COLON);
    assert forall|j: int| 0 <= j < colon implies line[j] != COLON by {
        assert(line[j] == name[j]);
    }
    lemma_first_index_is(line, COLON, colon);
    let after = line.skip(colon + 1);
    let bar = value.len() as int;
    assert(after =~= value + seq![BAR] + rest);
    assert(after[bar] == BAR);
    assert forall|j: int| 0 <= j < bar implies after[j] != BAR by {
        assert(after[j] == value[j]);
    }
    lemma_first_index_is(after, BAR, bar);
    assert(after.skip(bar + 1) =~= rest);
    assert(line.take(colon) =~= name);
    assert(after.take(bar) =~= value);
}

/// Every well-formed plain line parses: a non-empty name without `:`, a
/// value without `|` that reads as the number `v`, and one of the type tags
/// give the metric of that name, that number and the tag's kind.
pub proof fn lemma_plain_line_parses(
    name: Seq<u8>,
    value: Seq<u8>,
    tag: Tag,
    v: u64,
    rate: Option<u64>,
)
    requires
        name.len() > 0,
        !name.contains(COLON),
        !value.contains(BAR),
    ensures
        spec_fields(line_of(name, value, tag_text(tag))) == Some(
            FieldsView { name, value, tag, rate: None },
        ),
        spec_metric(FieldsView { name, value, tag, rate: None }, Some(v), rate) == Some(
            MetricView { kind: plain_kind(tag), name, value: v },
        ),
{
    lemma_cut(name, value, tag_text(tag));
    assert(tag_text(Tag::Counter)[0] == 99u8);
    assert(tag_text(Tag::Gauge)[0] == 103u8);
    assert(tag_text(Tag::Timer)[0] == 109u8);
    assert(tag_text(Tag::Timer).len() == 2);
    assert(tag_text(Tag::Histogram)[0] == 104u8);
    assert(tag_text(Tag::Meter)[0] == 109u8);
    assert(tag_text(Tag::Meter).len() == 1);
}

/// Every well-formed sampled line parses: with the marker `c|@` before a
/// sample rate that reads as the number `s`, the metric is a counter of
/// that rate.
pub proof fn lemma_sampled_line_parses(
    name: Seq<u8>,
    value: Seq<u8>,
    rate: Seq<u8>,
    v: u64,
    s: u64,
)
    requires
        name.len() > 0,
        !name.contains(COLON),
        !value.contains(BAR),
    ensures
        spec_fields(line_of(name, value, sampled_marker() + rate)) == Some(
            FieldsView { name, value, tag: Tag::Counter, rate: Some(rate) },
        ),
        spec_metric(
            FieldsView { name, value, tag: Tag::Counter, rate: Some(rate) },
            Some(v),
            Some(s),
        ) == Some(MetricView { kind: MetricKind::Counter(s), name, value: v }),
{
    let rest = sampled_marker() + rate;
    lemma_cut(name, value, rest);
    assert(rest[1] == BAR);
    assert(rest.len() >= 3);
    assert(tag_text(Tag::Counter).len() == 1);
    assert(tag_text(Tag::Gauge).len() == 1);
    assert(tag_text(Tag::Timer)[1] == 115u8);
    assert(tag_text(Tag::Histogram).len() == 1);
    assert(tag_text(Tag::Meter).len() == 1);
    assert(rest.take(3) =~= sampled_marker());
    assert(rest.skip(3) =~= rate);
}

/// The value of an optional metric.
pub open spec fn view_of(m: Option<Metric>) -> Option<MetricView> {
    match m {
        Some(m) => Some(m@),
        None => None,
    }
}

/// The text that names a kind; a counter's names its sample rate, as the
/// text `rate`.
pub open spec fn kind_text(kind: MetricKind, rate: Seq<u8>) -> Seq<u8> {
    match kind {
        MetricKind::Counter(_) => lit("Counter(s=") + rate + lit(")"),
        MetricKind::Gauge => lit("Gauge"),
        MetricKind::Timer => lit("Timer"),
        MetricKind::Histogram => lit("Histogram"),
        MetricKind::Meter => lit("Meter"),
    }
}

/// The text that names a metric: the name, the kind in brackets, and the
/// value, as the text `value`, behind ` => `.
pub open spec fn metric_text(m: MetricView, rate: Seq<u8>, value: Seq<u8>) -> Seq<u8> {
    m.name + lit("(") + kind_text(m.kind, rate) + lit(") => ") + value
}

impl MetricKind {
    /// The text that names this kind, for a log. `show` renders the sample
    /// rate of a counter and is not asked for any other kind.
    pub fn describe<F: Fn(u64) -> Vec<u8>>(&self, show: F) -> (r: Vec<u8>)
        requires
            forall|bits: u64| show.requires((bits,)),
        ensures
            match *self {
                MetricKind::Counter(s) => exists|rate: Seq<u8>|
                    shows_as(show, s, rate) && r@ == #[trigger] kind_text(*self, rate),
                _ => r@ == kind_text(*self, Seq::empty()),
            },
    {
        let mut out: Vec<u8> = Vec::new();
        match *self {
            MetricKind::Counter(s) => {
                let rate = show(s);
                push_bytes(&mut out, "Counter(s=".as_bytes());
                push_bytes(&mut out, rate.as_slice());
                push_bytes(&mut out, ")".as_bytes());
                proof {
                    assert(shows_as(show, s, rate@));
                    assert(out@ =~= kind_text(*self, rate@));
                }
            },
            MetricKind::Gauge => {
                push_bytes(&mut out, "Gauge".as_bytes());
                proof {
                    assert(out@ =~= lit("Gauge"));
                }
            },
            MetricKind::Timer => {
                push_bytes(&mut out, "Timer".as_bytes());
                proof {
                    assert(out@ =~= lit("Timer"));
                }
            },
            MetricKind::Histogram => {
                push_bytes(&mut out, "Histogram".as_bytes());
                proof {
                    assert(out@ =~= lit("Histogram"));
                }
            },
            MetricKind::Meter => {
                push_bytes(&mut out, "Meter".as_bytes());
                proof {
                    assert(out@ =~= lit("Meter"));
                }
            },
        }
        out
    }
}

impl Metric {
    /// The text that names this metric, for a log: the name, the kind in
    /// brackets, and the value behind ` => `.
    pub fn describe<F: Fn(u64) -> Vec<u8> + Copy>(&self, show: F) -> (r: Vec<u8>)
        requires
            forall|bits: u64| show.requires((bits,)),
        ensures
            exists|rate: Seq<u8>, value: Seq<u8>|
                {
                    &&& self.kind matches MetricKind::Counter(s) ==> shows_as(show, s, rate)
                    &&& shows_as(show, self.value, value)
                    &&& r@ == #[trigger] metric_text(self@, rate, value)
                },
    {
        let kind = self.kind.describe(show);
        let value = show(self.value);
        let mut out: Vec<u8> = Vec::new();
        push_bytes(&mut out, self.name.as_slice());
        push_bytes(&mut out, "(".as_bytes());
        push_bytes(&mut out, kind.as_slice());
        push_bytes(&mut out, ") => ".as_bytes());
        push_bytes(&mut out, value.as_slice());
        proof {
            let rate = match self.kind {
                MetricKind::Counter(s) => choose|rate: Seq<u8>|
                    shows_as(show, s, rate) && kind@ == #[trigger] kind_text(self.kind, rate),
                _ => Seq::empty(),
            };
            assert(shows_as(show, self.value, value@));
            assert(out@ =~= metric_text(self@, rate, value@));
        }
        out
    }

    /// Makes the metric of a split line from what reading its numbers gave:
    /// `value` for the value, `rate` for the sample rate of a sampled counter.
    pub fn from_fields(fields: Fields, value: Option<u64>, rate: Option<u64>) -> (r: Option<
        Metric,
    >)
        ensures
            view_of(r) == spec_metric(fields@, value, rate),
    {
        let v: u64 = match value {
            Some(v) => v,
            None => {
                return None;
            },
        };
        let kind = match fields.tag {
            Tag::Counter => match fields.rate {
                None => MetricKind::Counter(UNIT_RATE),
                Some(_) => match rate {
                    Some(r) => MetricKind::Counter(r),
                    None => {
                        return None;
                    },
                },
            },
            Tag::Gauge => MetricKind::Gauge,
            Tag::Timer => MetricKind::Timer,
            Tag::Histogram => MetricKind::Histogram,
            Tag::Meter => MetricKind::Meter,
        };
        Some(Metric { kind, name: fields.name, value: v })
    }

    /// Parses one line. `number` reads decimal text as a double and answers
    /// its bit pattern, or `None` where the text is no number. It is asked
    /// for the value, and for the sample rate where the line has one.
    ///
    /// A line outside the grammar gives `None`. A line inside it gives the
    /// metric that its parts and the answers of `number` make.
    pub fn parse<F: Fn(Vec<u8>) -> Option<u64>>(line: &[u8], number: F) -> (r: Option<Metric>)
        requires
            forall|t: Vec<u8>| number.requires((t,)),
        ensures
            match spec_fields(line@) {
                None => r is None,
                Some(f) => exists|value: Option<u64>, rate: Option<u64>|
                    {
                        &&& reads_as(number, f.value, value)
                        &&& f.rate matches Some(text) ==> reads_as(number, text, rate)
                        &&& view_of(r) == #[trigger] spec_metric(f, value, rate)
                    },
            },
    {
        let found = match fields(line) {
            Some(f) => f,
            None => {
                return None;
            },
        };
        let ghost f = found@;
        let value_text = copy_range(found.value.as_slice(), 0, found.value.len());
        proof {
            assert(value_text@ =~= f.value);
        }
        let v = number(value_text);
        let s = match &found.rate {
            None => None,
            Some(text) => {
                let rate_text = copy_range(text.as_slice(), 0, text.len());
                proof {
                    assert(rate_text@ =~= text@);
                }
                number(rate_text)
            },
        };
        Metric::from_fields(found, v, s)
    }
}

} // verus!
