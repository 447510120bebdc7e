//! The client: the datagrams that an instrumented program sends.
//!
//! A client is made of two things of the caller's: `transmit`, which sends
//! one datagram and tells nothing of how that went, and `show`, which
//! renders the bits of a double as text. Every operation builds one line and
//! hands it to `transmit` once.

use vstd::prelude::*;
use vstd::string::is_ascii_spec_bytes;
use crate::metric::{
    lemma_cut,
    lemma_plain_line_parses,
    line_of,
    sampled_marker,
    spec_fields,
    tag_text,
    FieldsView,
    Tag,
    AT,
    BAR,
    COLON,
    UNIT_RATE,
};
use crate::caller::{emitted, shows_as};
use crate::clock::precise_ns;
use crate::text::{decimal, decimal_digits, lit, push_bytes, push_unsigned};

verus! {

/// The bit pattern of the double -1.0.
pub const MINUS_ONE: u64 = 0xBFF0_0000_0000_0000;

/// The nanoseconds in a millisecond.
pub const NS_PER_MS: u64 = 1_000_000;

/// A statsd client.
pub struct Client<T, F> {
    pub transmit: T,
    pub show: F,
}

/// The line of a counter: the value, and the sample rate behind `|c@`.
pub open spec fn counter_line(name: Seq<u8>, value: Seq<u8>, rate: Seq<u8>) -> Seq<u8> {
    name + lit(":") + value + lit("|c@") + rate
}

/// The line of a gauge.
pub open spec fn gauge_line(name: Seq<u8>, value: Seq<u8>) -> Seq<u8> {
    name + lit(":") + value + lit("|g")
}

/// The line of a timer sample of `ms` milliseconds.
pub open spec fn timer_line(name: Seq<u8>, ms: usize) -> Seq<u8> {
    name + lit(":") + decimal(ms as int) + lit("|ms")
}

/// The line of a histogram sample.
pub open spec fn histogram_line(name: Seq<u8>, value: Seq<u8>) -> Seq<u8> {
    name + lit(":") + value + lit("|h")
}

/// The whole milliseconds between two readings of the nanosecond counter;
/// none where the second reading is not the later one.
pub open spec fn elapsed_ms(start: u64, end: u64) -> usize {
    if end >= start {
        ((end - start) / (NS_PER_MS as int)) as usize
    } else {
        0
    }
}

/// The separators and tags that the client writes are those of the grammar.
proof fn lemma_client_texts()
    ensures
        lit(":") == seq![COLON],
        lit("|g") == seq![BAR] + tag_text(Tag::Gauge),
        lit("|ms") == seq![BAR] + tag_text(Tag::Timer),
        lit("|h") == seq![BAR] + tag_text(Tag::Histogram),
        lit("|c@") == seq![BAR, 99u8, AT],
{
    reveal_strlit(":");
    reveal_strlit("|g");
    reveal_strlit("|ms");
    reveal_strlit("|h");
    reveal_strlit("|c@");
    is_ascii_spec_bytes(":");
    is_ascii_spec_bytes("|g");
    is_ascii_spec_bytes("|ms");
    is_ascii_spec_bytes("|h");
    is_ascii_spec_bytes("|c@");
    assert(lit(":") =~= seq![COLON]);
    assert(lit("|g") =~= seq![BAR] + tag_text(Tag::Gauge));
    assert(lit("|ms") =~= seq![BAR] + tag_text(Tag::Timer));
    assert(lit("|h") =~= seq![BAR] + tag_text(Tag::Histogram));
    assert(lit("|c@") =~= seq![BAR, 99u8, AT]);
}

/// The lines that the client writes for a gauge and for a histogram are
/// inside the grammar and split into the name and the value they were made
/// of, where the name is not empty and holds no `:` and the value holds
/// no `|`.
pub proof fn lemma_gauge_and_histogram_lines_parse(name: Seq<u8>, value: Seq<u8>)
    requires
        name.len() > 0,
        !name.contains(COLON),
        !value.contains(BAR),
    ensures
        spec_fields(gauge_line(name, value)) == Some(
            FieldsView { name, value, tag: Tag::Gauge, rate: None },
        ),
        spec_fields(histogram_line(name, value)) == Some(
            FieldsView { name, value, tag: Tag::Histogram, rate: None },
        ),
{
    lemma_client_texts();
    lemma_plain_line_parses(name, value, Tag::Gauge, 0, None);
    lemma_plain_line_parses(name, value, Tag::Histogram, 0, None);
    assert(gauge_line(name, value) =~= line_of(name, value, tag_text(Tag::Gauge)));
    assert(histogram_line(name, value) =~= line_of(name, value, tag_text(Tag::Histogram)));
}

/// The decimal digits of a number hold no `|`.
proof fn lemma_digits_hold_no_bar(n: nat)
    ensures
        !decimal_digits(n).contains(BAR),
    decreases n,
{
    let digits = decimal_digits(n);
    if n >= 10 {
        lemma_digits_hold_no_bar(n / 10);
        let front = decimal_digits(n / 10);
        assert forall|i: int| 0 <= i < digits.len() implies digits[i] != BAR by {
            if i < front.len() {
                assert(front.contains(front[i]));
            }
        }
    }
}

/// The line that the client writes for a timer is inside the grammar and
/// splits into the name and the decimal text of the milliseconds, where the
/// name is not empty and holds no `:`.
pub proof fn lemma_timer_line_parses(name: Seq<u8>, ms: usize)
    requires
        name.len() > 0,
        !name.contains(COLON),
    ensures
        spec_fields(timer_line(name, ms)) == Some(
            FieldsView { name, value: decimal(ms as int), tag: Tag::Timer, rate: None },
        ),
{
    lemma_client_texts();
    lemma_digits_hold_no_bar(ms as nat);
    lemma_plain_line_parses(name, decimal(ms as int), Tag::Timer, 0, None);
    assert(timer_line(name, ms) =~= line_of(name, decimal(ms as int), tag_text(Tag::Timer)));
}

/// The line that the client writes for a counter is outside the grammar:
/// it names the sample rate behind `c@`, and the grammar knows `c|@` only.
pub proof fn lemma_counter_line_is_rejected(name: Seq<u8>, value: Seq<u8>, rate: Seq<u8>)
    requires
        name.len() > 0,
        !name.contains(COLON),
        !value.contains(BAR),
    ensures
        spec_fields(counter_line(name, value, rate)) is None,
{
    lemma_client_texts();
    let rest = seq![99u8, AT] + rate;
    lemma_cut(name, value, rest);
    assert(counter_line(name, value, rate) =~= line_of(name, value, rest));
    assert(rest[1] == AT);
    assert(rest.len() >= 2);
    assert(tag_text(Tag::Counter).len() == 1);
    assert(tag_text(Tag::Gauge).len() == 1);
    assert(tag_text(Tag::Histogram).len() == 1);
    assert(tag_text(Tag::Meter).len() == 1);
    assert(tag_text(Tag::Timer)[1] == 115u8);
    if rest.len() >= 3 {
        assert(rest.take(3)[1] == AT);
        assert(sampled_marker()[1] == BAR);
    }
}

impl<T: Fn(Vec<u8>), F: Fn(u64) -> Vec<u8>> Client<T, F> {
    /// That both of the caller's functions accept every argument.
    pub open spec fn ready(&self) -> bool {
        &&& forall|data: Vec<u8>| self.transmit.requires((data,))
        &&& forall|bits: u64| self.show.requires((bits,))
    }

    /// A client that sends with `transmit` and renders doubles with `show`.
    pub fn new(transmit: T, show: F) -> (r: Self)
        ensures
            r.transmit == transmit,
            r.show == show,
    {
        Client { transmit, show }
    }

    /// Sends `data` as one datagram.
    pub fn send(&self, data: Vec<u8>)
        requires
            self.ready(),
        ensures
            self.transmit.ensures((data,), ()),
    {
        (self.transmit)(data)
    }

    /// Builds `<name>:<value><tag>` and sends it.
    fn send_value(&self, name: &[u8], value: u64, tag: &[u8])
        requires
            self.ready(),
        ensures
            exists|text: Seq<u8>|
                {
                    &&& shows_as(self.show, value, text)
                    &&& #[trigger] emitted(self.transmit, name@ + lit(":") + text + tag@)
                },
    {
        let text = (self.show)(value);
        let mut data: Vec<u8> = Vec::new();
        push_bytes(&mut data, name);
        push_bytes(&mut data, ":".as_bytes());
        push_bytes(&mut data, text.as_slice());
        push_bytes(&mut data, tag);
        let ghost given = data;
        proof {
            assert(data@ =~= name@ + lit(":") + text@ + tag@);
        }
        self.send(data);
        proof {
            assert(shows_as(self.show, value, text@));
            assert(emitted(self.transmit, name@ + lit(":") + text@ + tag@)) by {
                assert(given@ == name@ + lit(":") + text@ + tag@);
            }
        }
    }

    /// Adds one to the counter `name`, sampled at `sample_rate`.
    pub fn incr(&self, name: &[u8], sample_rate: u64)
        requires
            self.ready(),
        ensures
            exists|value: Seq<u8>, rate: Seq<u8>|
                {
                    &&& shows_as(self.show, UNIT_RATE, value)
                    &&& shows_as(self.show, sample_rate, rate)
                    &&& emitted(self.transmit, #[trigger] counter_line(name@, value, rate))
                },
    {
        self.count_sampled(name, UNIT_RATE, sample_rate);
    }

    /// Takes one from the counter `name`, sampled at `sample_rate`.
    pub fn decr(&self, name: &[u8], sample_rate: u64)
        requires
            self.ready(),
        ensures
            exists|value: Seq<u8>, rate: Seq<u8>|
                {
                    &&& shows_as(self.show, MINUS_ONE, value)
                    &&& shows_as(self.show, sample_rate, rate)
                    &&& emitted(self.transmit, #[trigger] counter_line(name@, value, rate))
                },
    {
        self.count_sampled(name, MINUS_ONE, sample_rate);
    }

    /// Adds `value` to the counter `name`, unsampled.
    pub fn count(&self, name: &[u8], value: u64)
        requires
            self.ready(),
        ensures
            exists|text: Seq<u8>, rate: Seq<u8>|
                {
                    &&& shows_as(self.show, value, text)
                    &&& shows_as(self.show, UNIT_RATE, rate)
                    &&& emitted(self.transmit, #[trigger] counter_line(name@, text, rate))
                },
    {
        self.count_sampled(name, value, UNIT_RATE);
    }

    /// Adds `value` to the counter `name`, sampled at `sample_rate`. The
    /// line is sent whatever the rate.
    pub fn count_sampled(&self, name: &[u8], value: u64, sample_rate: u64)
        requires
            self.ready(),
        ensures
            exists|text: Seq<u8>, rate: Seq<u8>|
                {
                    &&& shows_as(self.show, value, text)
                    &&& shows_as(self.show, sample_rate, rate)
                    &&& emitted(self.transmit, #[trigger] counter_line(name@, text, rate))
                },
    {
        let text = (self.show)(value);
        let rate = (self.show)(sample_rate);
        let mut data: Vec<u8> = Vec::new();
        push_bytes(&mut data, name);
        push_bytes(&mut data, ":".as_bytes());
        push_bytes(&mut data, text.as_slice());
        push_bytes(&mut data, "|c@".as_bytes());
        push_bytes(&mut data, rate.as_slice());
        let ghost given = data;
        proof {
            assert(data@ =~= counter_line(name@, text@, rate@));
        }
        self.send(data);
        proof {
            assert(shows_as(self.show, value, text@));
            assert(shows_as(self.show, sample_rate, rate@));
            assert(emitted(self.transmit, counter_line(name@, text@, rate@))) by {
                assert(given@ == counter_line(name@, text@, rate@));
            }
        }
    }

    /// Sets the gauge `name` to `value`.
    pub fn gauge(&self, name: &[u8], value: u64)
        requires
            self.ready(),
        ensures
            exists|text: Seq<u8>|
                {
                    &&& shows_as(self.show, value, text)
                    &&& emitted(self.transmit, #[trigger] gauge_line(name@, text))
                },
    {
        self.send_value(name, value, "|g".as_bytes());
        proof {
            let text = choose|text: Seq<u8>|
                {
                    &&& shows_as(self.show, value, text)
                    &&& #[trigger] emitted(self.transmit, name@ + lit(":") + text + lit("|g"))
                };
            assert(emitted(self.transmit, gauge_line(name@, text)));
        }
    }

    /// Reports that `name` took `ms` milliseconds.
    pub fn time(&self, name: &[u8], ms: usize)
        requires
            self.ready(),
        ensures
            emitted(self.transmit, timer_line(name@, ms)),
    {
        let mut data: Vec<u8> = Vec::new();
        push_bytes(&mut data, name);
        push_bytes(&mut data, ":".as_bytes());
        push_unsigned(&mut data, ms as u128);
        push_bytes(&mut data, "|ms".as_bytes());
        let ghost given = data;
        proof {
            assert(data@ =~= timer_line(name@, ms));
        }
        self.send(data);
        proof {
            assert(given@ == timer_line(name@, ms));
        }
    }

    /// Runs `block`, reports under `name` the whole milliseconds that it
    /// took by the high-resolution counter, and hands back what `block`
    /// returned.
    pub fn time_block<R, B: FnOnce() -> R>(&self, name: &[u8], block: B) -> (r: R)
        requires
            self.ready(),
            block.requires(()),
        ensures
            block.ensures((), r),
            exists|start: u64, end: u64|
                emitted(self.transmit, timer_line(name@, #[trigger] elapsed_ms(start, end))),
    {
        let start: u64 = precise_ns();
        let r = block();
        let end: u64 = precise_ns();
        let ms: u64 = if end >= start {
            (end - start) / NS_PER_MS
        } else {
            0
        };
        self.time(name, ms as usize);
        proof {
            assert(ms as usize == elapsed_ms(start, end));
        }
        r
    }

    /// Adds `value` to the samples of the histogram `name`.
    pub fn hist(&self, name: &[u8], value: u64)
        requires
            self.ready(),
        ensures
            exists|text: Seq<u8>|
                {
                    &&& shows_as(self.show, value, text)
                    &&& emitted(self.transmit, #[trigger] histogram_line(name@, text))
                },
    {
        self.send_value(name, value, "|h".as_bytes());
        proof {
            let text = choose|text: Seq<u8>|
                {
                    &&& shows_as(self.show, value, text)
                    &&& #[trigger] emitted(self.transmit, name@ + lit(":") + text + lit("|h"))
                };
            assert(emitted(self.transmit, histogram_line(name@, text)));
        }
    }
}

} // verus!
