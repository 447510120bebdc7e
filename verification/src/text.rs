//! Byte-string helpers: searching, tokens and decimal rendering.

use vstd::prelude::*;
use vstd::slice::slice_subrange;
use vstd::string::StringSliceAdditionalSpecFns;
use vstd::utf8::valid_utf8;

verus! {

/// The decimal digits of `n`, most significant first, without leading zeros.
pub open spec fn decimal_digits(n: nat) -> Seq<u8>
    decreases n,
{
    if n < 10 {
        seq![(48 + n) as u8]
    } else {
        decimal_digits(n / 10).push((48 + n % 10) as u8)
    }
}

/// The decimal rendering of an integer: a minus sign for a negative number,
/// then the digits of its magnitude.
pub open spec fn decimal(n: int) -> Seq<u8> {
    if n < 0 {
        seq![45u8] + decimal_digits((-n) as nat)
    } else {
        decimal_digits(n as nat)
    }
}

/// Appends the decimal digits of `n` to `buf`.
pub fn push_unsigned(buf: &mut Vec<u8>, n: u128)
    ensures
        final(buf)@ == old(buf)@ + decimal_digits(n as nat),
    decreases n,
{
    if n >= 10 {
        push_unsigned(buf, n / 10);
    }
    let digit: u8 = (n % 10) as u8;
    buf.push(48 + digit);
    proof {
        assert(final(buf)@ =~= old(buf)@ + decimal_digits(n as nat));
    }
}

/// Appends the decimal rendering of `n` to `buf`.
pub fn push_signed(buf: &mut Vec<u8>, n: i128)
    ensures
        final(buf)@ == old(buf)@ + decimal(n as int),
{
    if n < 0 {
        buf.push(45);
        let below: i128 = -(n + 1);
        let magnitude: u128 = below as u128 + 1;
        push_unsigned(buf, magnitude);
        assert(final(buf)@ =~= old(buf)@ + decimal(n as int));
    } else {
        push_unsigned(buf, n as u128);
    }
}

/// The bytes of a piece of text.
pub open spec fn lit(s: &str) -> Seq<u8> {
    s.spec_bytes()
}

/// The bytes of `a` followed by those of `b`.
pub fn join(a: &[u8], b: &[u8]) -> (r: Vec<u8>)
    ensures
        r@ == a@ + b@,
{
    let mut out: Vec<u8> = Vec::new();
    push_bytes(&mut out, a);
    push_bytes(&mut out, b);
    proof {
        assert(out@ =~= a@ + b@);
    }
    out
}

/// Appends the bytes of `s` to `buf`.
pub fn push_bytes(buf: &mut Vec<u8>, s: &[u8])
    ensures
        final(buf)@ == old(buf)@ + s@,
{
    buf.extend_from_slice(s);
}

/// The index of the first occurrence of `b` in `s`, if there is one.
pub open spec fn first_index(s: Seq<u8>, b: u8) -> Option<int>
    decreases s.len(),
{
    if s.len() == 0 {
        None
    } else if s[0] == b {
        Some(0)
    } else {
        match first_index(s.drop_first(), b) {
            Some(i) => Some(i + 1),
            None => None,
        }
    }
}

/// `first_index` finds an occurrence that no other precedes, and finds none
/// only where there is none.
pub proof fn lemma_first_index(s: Seq<u8>, b: u8)
    ensures
        match first_index(s, b) {
            Some(i) => 0 <= i < s.len() && s[i] == b && forall|j: int| 0 <= j < i ==> s[j] != b,
            None => forall|j: int| 0 <= j < s.len() ==> s[j] != b,
        },
    decreases s.len(),
{
    if s.len() > 0 && s[0] != b {
        let tail = s.drop_first();
        lemma_first_index(tail, b);
        match first_index(tail, b) {
            Some(i) => {
                assert forall|j: int| 0 <= j < i + 1 implies s[j] != b by {
                    if j > 0 {
                        assert(tail[j - 1] == s[j]);
                    }
                }
            },
            None => {
                assert forall|j: int| 0 <= j < s.len() implies s[j] != b by {
                    if j > 0 {
                        assert(tail[j - 1] == s[j]);
                    }
                }
            },
        }
    }
}

/// An occurrence that no other precedes is the one that `first_index` finds.
pub proof fn lemma_first_index_is(s: Seq<u8>, b: u8, k: int)
    requires
        0 <= k < s.len(),
        s[k] == b,
        forall|j: int| 0 <= j < k ==> s[j] != b,
    ensures
        first_index(s, b) == Some(k),
{
    lemma_first_index(s, b);
}

/// Where `b` does not occur, `first_index` finds nothing.
pub proof fn lemma_first_index_none(s: Seq<u8>, b: u8)
    requires
        forall|j: int| 0 <= j < s.len() ==> s[j] != b,
    ensures
        first_index(s, b) is None,
{
    lemma_first_index(s, b);
}

/// Finds the first occurrence of `b` in `s` at or after `from`. The result
/// is an index into `s`.
pub fn find_from(s: &[u8], from: usize, b: u8) -> (r: Option<usize>)
    requires
        from <= s.len(),
    ensures
        match r {
            Some(p) => from <= p < s.len() && first_index(s@.skip(from as int), b) == Some(
                p - from,
            ),
            None => first_index(s@.skip(from as int), b) is None,
        },
{
    let ghost tail = s@.skip(from as int);
    let mut i: usize = from;
    while i < s.len()
        invariant
            from <= i <= s.len(),
            tail == s@.skip(from as int),
            forall|j: int| 0 <= j < i - from ==> tail[j] != b,
        decreases s.len() - i,
    {
        if s[i] == b {
            proof {
                assert(tail[i - from] == s@[i as int]);
                lemma_first_index_is(tail, b, i - from);
            }
            return Some(i);
        }
        proof {
            assert(tail[i - from] == s@[i as int]);
        }
        i += 1;
    }
    proof {
        lemma_first_index_none(tail, b);
    }
    None
}

/// Copies the bytes of `s` from `from` up to `to` into a vector of their own.
pub fn copy_range(s: &[u8], from: usize, to: usize) -> (r: Vec<u8>)
    requires
        from <= to <= s.len(),
    ensures
        r@ == s@.subrange(from as int, to as int),
{
    let mut out: Vec<u8> = Vec::new();
    let mut i: usize = from;
    while i < to
        invariant
            from <= i <= to <= s.len(),
            out@ == s@.subrange(from as int, i as int),
        decreases to - i,
    {
        out.push(s[i]);
        proof {
            assert(out@ =~= s@.subrange(from as int, i + 1));
        }
        i += 1;
    }
    out
}

/// Whether the bytes of `s` from `at` on begin with `word`.
pub open spec fn has_at(s: Seq<u8>, at: int, word: Seq<u8>) -> bool {
    0 <= at && at + word.len() <= s.len() && s.subrange(at, at + word.len()) == word
}

/// Tests whether `s` holds `word` at index `at`.
pub fn starts_at(s: &[u8], at: usize, word: &[u8]) -> (r: bool)
    requires
        at <= s.len(),
    ensures
        r == has_at(s@, at as int, word@),
{
    if word.len() > s.len() - at {
        return false;
    }
    let mut i: usize = 0;
    while i < word.len()
        invariant
            at + word.len() <= s.len(),
            0 <= i <= word.len(),
            forall|j: int| 0 <= j < i ==> s@[at + j] == word@[j],
        decreases word.len() - i,
    {
        if s[at + i] != word[i] {
            proof {
                let part = s@.subrange(at as int, at + word.len());
                assert(part[i as int] == s@[at + i]);
            }
            return false;
        }
        i += 1;
    }
    proof {
        assert(s@.subrange(at as int, at + word.len()) =~= word@);
    }
    true
}

/// Tests whether `a` and `b` hold the same bytes.
pub fn same(a: &[u8], b: &[u8]) -> (r: bool)
    ensures
        r == (a@ == b@),
{
    if a.len() != b.len() {
        return false;
    }
    let r = starts_at(a, 0, b);
    proof {
        assert(a@.subrange(0, a@.len() as int) =~= a@);
    }
    r
}

/// Whether `bytes` is well-formed UTF-8, decided by `core::str::from_utf8`.
/// Trusted: the contract identifies what that function accepts with
/// `valid_utf8`.
#[verifier::external_body]
pub(crate) fn is_utf8(bytes: &[u8]) -> (r: bool)
    ensures
        r == valid_utf8(bytes@),
{
    core::str::from_utf8(bytes).is_ok()
}

/// The white space of ASCII: the space and the control bytes from tab to
/// carriage return.
pub open spec fn is_space(b: u8) -> bool {
    b == 32 || (9 <= b && b <= 13)
}

/// The number of white-space bytes that `s` begins with.
pub open spec fn spaces_len(s: Seq<u8>) -> nat
    decreases s.len(),
{
    if s.len() > 0 && is_space(s[0]) {
        1 + spaces_len(s.drop_first())
    } else {
        0
    }
}

/// The number of bytes other than white space that `s` begins with.
pub open spec fn word_len(s: Seq<u8>) -> nat
    decreases s.len(),
{
    if s.len() > 0 && !is_space(s[0]) {
        1 + word_len(s.drop_first())
    } else {
        0
    }
}

/// The first word of `s`: after the leading white space, the bytes up to
/// the next white space. It is empty where `s` holds no word.
pub open spec fn first_word(s: Seq<u8>) -> Seq<u8> {
    let t = s.skip(spaces_len(s) as int);
    t.take(word_len(t) as int)
}

/// What follows the first word of `s`.
pub open spec fn after_first_word(s: Seq<u8>) -> Seq<u8> {
    let t = s.skip(spaces_len(s) as int);
    t.skip(word_len(t) as int)
}

/// Tests whether `b` is white space.
pub fn space(b: u8) -> (r: bool)
    ensures
        r == is_space(b),
{
    b == 32 || (9 <= b && b <= 13)
}

/// The index after the white space that begins at `from`.
pub fn skip_spaces(s: &[u8], from: usize) -> (r: usize)
    requires
        from <= s.len(),
    ensures
        r == from + spaces_len(s@.skip(from as int)),
        r <= s.len(),
{
    let mut i: usize = from;
    while i < s.len() && space(s[i])
        invariant
            from <= i <= s.len(),
            spaces_len(s@.skip(from as int)) == (i - from) + spaces_len(s@.skip(i as int)),
        decreases s.len() - i,
    {
        proof {
            assert(s@.skip(i as int).drop_first() =~= s@.skip(i + 1));
        }
        i += 1;
    }
    i
}

/// The index after the word that begins at `from`.
pub fn skip_word(s: &[u8], from: usize) -> (r: usize)
    requires
        from <= s.len(),
    ensures
        r == from + word_len(s@.skip(from as int)),
        r <= s.len(),
{
    let mut i: usize = from;
    while i < s.len() && !space(s[i])
        invariant
            from <= i <= s.len(),
            word_len(s@.skip(from as int)) == (i - from) + word_len(s@.skip(i as int)),
        decreases s.len() - i,
    {
        proof {
            assert(s@.skip(i as int).drop_first() =~= s@.skip(i + 1));
        }
        i += 1;
    }
    i
}

/// Cuts the first word off `s`: the word, and what follows it.
pub fn split_word(s: &[u8]) -> (r: (&[u8], &[u8]))
    ensures
        r.0@ == first_word(s@),
        r.1@ == after_first_word(s@),
{
    proof {
        assert(s@.skip(0) =~= s@);
    }
    let start = skip_spaces(s, 0);
    let end = skip_word(s, start);
    let word = slice_subrange(s, start, end);
    let rest = slice_subrange(s, end, s.len());
    proof {
        let t = s@.skip(start as int);
        assert(word@ =~= t.take(word_len(t) as int));
        assert(rest@ =~= t.skip(word_len(t) as int));
    }
    (word, rest)
}

} // verus!
