//! Texts: decimal notation, replacement of spaces, and the absence of line
//! feeds.

use vstd::prelude::*;
use vstd::utf8::{encode_scalar, encode_utf8};

verus! {

/// `String::push` of the standard library: the character is added at the
/// end and nothing else changes.
pub assume_specification[ String::push ](s: &mut String, c: char)
    ensures
        final(s)@ == old(s)@.push(c),
;

/// The character that writes a single decimal digit.
pub open spec fn digit(d: nat) -> char
    recommends
        d < 10,
{
    if d == 0 {
        '0'
    } else if d == 1 {
        '1'
    } else if d == 2 {
        '2'
    } else if d == 3 {
        '3'
    } else if d == 4 {
        '4'
    } else if d == 5 {
        '5'
    } else if d == 6 {
        '6'
    } else if d == 7 {
        '7'
    } else if d == 8 {
        '8'
    } else {
        '9'
    }
}

/// Decimal notation of a natural number, without leading zeros.
pub open spec fn decimal(n: nat) -> Seq<char>
    decreases n,
{
    if n < 10 {
        seq![digit(n)]
    } else {
        decimal(n / 10).push(digit(n % 10))
    }
}

/// Decimal notation of an integer: a minus sign in front of negative numbers.
pub open spec fn signed_decimal(n: int) -> Seq<char> {
    if n < 0 {
        seq!['-'] + decimal((-n) as nat)
    } else {
        decimal(n as nat)
    }
}

/// Decimal notation padded with one leading zero below ten.
pub open spec fn two_digit(n: nat) -> Seq<char> {
    if n < 10 {
        seq!['0', digit(n)]
    } else {
        decimal(n)
    }
}

/// A text that holds no line feed.
pub open spec fn single_line(s: Seq<char>) -> bool {
    forall|i: int| 0 <= i < s.len() ==> #[trigger] s[i] != '\n'
}

/// Two texts without line feed make one without line feed.
pub proof fn lemma_single_line_concat(a: Seq<char>, b: Seq<char>)
    requires
        single_line(a),
        single_line(b),
    ensures
        single_line(a + b),
{
}

/// Decimal notation holds no line feed.
pub proof fn lemma_decimal_single_line(n: nat)
    ensures
        single_line(decimal(n)),
        single_line(signed_decimal(n as int)),
        single_line(signed_decimal(-(n as int))),
    decreases n,
{
    if n >= 10 {
        lemma_decimal_single_line(n / 10);
    }
    lemma_single_line_concat(seq!['-'], decimal(n));
}

/// The UTF-8 encoding of a character other than the line feed holds no
/// byte of the value 10, and holds at least one byte.
pub proof fn lemma_scalar_has_no_line_feed(c: char)
    requires
        c != '\n',
    ensures
        encode_scalar(c as u32).len() > 0,
        forall|i: int|
            0 <= i < encode_scalar(c as u32).len() ==> #[trigger] encode_scalar(c as u32)[i]
                != 10,
{
    let v = c as u32;
    assert(v <= 0x7F ==> (v & 0x7F) as u8 != 10 || v == 10) by (bit_vector);
    assert((0xC0u8 | ((v >> 6) & 0x1F) as u8) != 10) by (bit_vector);
    assert((0xE0u8 | ((v >> 12) & 0x0F) as u8) != 10) by (bit_vector);
    assert((0xF0u8 | ((v >> 18) & 0x7) as u8) != 10) by (bit_vector);
    assert((0x80u8 | (v & 0x3F) as u8) != 10) by (bit_vector);
    assert((0x80u8 | ((v >> 6) & 0x3F) as u8) != 10) by (bit_vector);
    assert((0x80u8 | ((v >> 12) & 0x3F) as u8) != 10) by (bit_vector);
}

/// The UTF-8 encoding of a text without line feed holds no byte of the
/// value 10, and is empty only where the text is.
pub proof fn lemma_encoding_has_no_line_feed(s: Seq<char>)
    requires
        single_line(s),
    ensures
        forall|j: int| 0 <= j < encode_utf8(s).len() ==> #[trigger] encode_utf8(s)[j] != 10,
        s.len() > 0 ==> encode_utf8(s).len() > 0,
    decreases s.len(),
{
    if s.len() > 0 {
        let first = encode_scalar(s[0] as u32);
        let rest = s.drop_first();
        lemma_scalar_has_no_line_feed(s[0]);
        lemma_encoding_has_no_line_feed(rest);
        assert forall|j: int| 0 <= j < encode_utf8(s).len() implies #[trigger] encode_utf8(s)[j]
            != 10 by {
            if j >= first.len() {
                assert(encode_utf8(s)[j] == encode_utf8(rest)[j - first.len()]);
            }
        }
    }
}

/// A text in which every space is replaced by an underscore.
pub open spec fn underscored(s: Seq<char>) -> Seq<char> {
    Seq::new(s.len(), |i: int| if s[i] == ' ' { '_' } else { s[i] })
}

fn digit_char(d: u8) -> (c: char)
    requires
        d < 10,
    ensures
        c == digit(d as nat),
{
    if d == 0 {
        '0'
    } else if d == 1 {
        '1'
    } else if d == 2 {
        '2'
    } else if d == 3 {
        '3'
    } else if d == 4 {
        '4'
    } else if d == 5 {
        '5'
    } else if d == 6 {
        '6'
    } else if d == 7 {
        '7'
    } else if d == 8 {
        '8'
    } else {
        '9'
    }
}

/// Appends the decimal notation of `n`.
pub fn push_decimal(out: &mut String, n: u64)
    ensures
        final(out)@ == old(out)@ + decimal(n as nat),
        single_line(old(out)@) ==> single_line(final(out)@),
    decreases n,
{
    if n >= 10 {
        push_decimal(out, n / 10);
    }
    out.push(digit_char((n % 10) as u8));
    proof {
        lemma_decimal_single_line(n as nat);
        if single_line(old(out)@) {
            lemma_single_line_concat(old(out)@, decimal(n as nat));
        }
    }
}

/// Appends the decimal notation of a signed number.
pub fn push_signed_decimal(out: &mut String, n: i64)
    ensures
        final(out)@ == old(out)@ + signed_decimal(n as int),
        single_line(old(out)@) ==> single_line(final(out)@),
{
    proof {
        if n < 0 {
            lemma_decimal_single_line((-n) as nat);
        } else {
            lemma_decimal_single_line(n as nat);
        }
        if single_line(old(out)@) {
            lemma_single_line_concat(old(out)@, signed_decimal(n as int));
        }
    }
    if n < 0 {
        out.push('-');
        let magnitude: u64 = if n == i64::MIN {
            9223372036854775808u64
        } else {
            (-n) as u64
        };
        push_decimal(out, magnitude);
    } else {
        push_decimal(out, n as u64);
    }
}

/// Appends `n` in at least two digits.
pub fn push_two_digit(out: &mut String, n: u32)
    ensures
        final(out)@ == old(out)@ + two_digit(n as nat),
{
    if n < 10 {
        out.push('0');
    }
    push_decimal(out, n as u64);
}

/// Appends `s` with its spaces turned into underscores.
pub fn push_underscored(out: &mut String, s: &str)
    ensures
        final(out)@ == old(out)@ + underscored(s@),
{
    let ghost start = out@;
    for c in it: s.chars()
        invariant
            it.seq() == s@,
            out@ == start + underscored(s@).subrange(0, it.index() as int),
    {
        if c == ' ' {
            out.push('_');
        } else {
            out.push(c);
        }
    }
}

/// The text that the standard library reads out of bytes that need not be
/// valid UTF-8.
pub uninterp spec fn utf8_lossy(bytes: Seq<u8>) -> Seq<char>;

/// `String::from_utf8_lossy` of the standard library, which depends on the
/// bytes alone; its result is named `utf8_lossy`.
#[verifier::external_body]
pub(crate) fn lossy_text(bytes: &[u8]) -> (text: String)
    ensures
        text@ == utf8_lossy(bytes@),
{
    String::from_utf8_lossy(bytes).into_owned()
}

/// Appends words that hold no line feed.
pub(crate) fn push_words(out: &mut String, words: &str)
    requires
        single_line(words@),
    ensures
        final(out)@ == old(out)@ + words@,
        single_line(old(out)@) ==> single_line(final(out)@),
{
    out.append(words);
    proof {
        if single_line(old(out)@) {
            lemma_single_line_concat(old(out)@, words@);
        }
    }
}

} // verus!
