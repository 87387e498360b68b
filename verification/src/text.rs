//! Text: characters of a string, decimal numerals, bytes as text.

use vstd::prelude::*;
use vstd::std_specs::iter::IteratorSpec;
use vstd::utf8::{decode_utf8, encode_utf8, valid_utf8};

verus! {

/// `String::push` appends one character.
pub assume_specification[ String::push ](s: &mut String, c: char)
    ensures
        final(s)@ == old(s)@.push(c),
;

/// `str`'s `==`: two strings are equal when they hold the same characters.
pub assume_specification[ <str as PartialEq>::eq ](a: &str, b: &str) -> (same: bool)
    ensures
        same == (a@ == b@),
;

/// The lowercase of `text`, as `str::to_lowercase` gives it.
pub uninterp spec fn lowercased(text: Seq<char>) -> Seq<char>;

/// `str::to_lowercase` gives the lowercase of a string as a new string.
pub assume_specification[ str::to_lowercase ](s: &str) -> (lower: String)
    ensures
        lower@ == lowercased(s@),
;

/// Calls `core::str::from_utf8`, which hands the bytes back as a string where
/// they are valid UTF-8 and fails where they are not.
#[verifier::external_body]
fn from_utf8(bytes: &[u8]) -> (r: Option<&str>)
    ensures
        r is Some == valid_utf8(bytes@),
        r matches Some(s) ==> s@ == decode_utf8(bytes@),
{
    core::str::from_utf8(bytes).ok()
}

/// The characters of `text`, in order.
pub fn chars_of(text: &str) -> (chars: Vec<char>)
    ensures
        chars@ == text@,
{
    broadcast use vstd::string::group_string_axioms;

    let mut rest = text.chars();
    let mut chars: Vec<char> = Vec::new();
    loop
        invariant
            chars@ + rest.remaining() == text@,
        ensures
            chars@ == text@,
        decreases text@.len() - chars@.len(),
    {
        match rest.next() {
            Some(c) => {
                chars.push(c);
            },
            None => {
                break ;
            },
        }
    }
    chars
}

/// Pairs of strings, as pairs of texts.
pub open spec fn pairs_text(pairs: Seq<(String, String)>) -> Seq<(Seq<char>, Seq<char>)> {
    Seq::new(pairs.len(), |i: int| (pairs[i].0@, pairs[i].1@))
}

/// `pairs` with one more pair behind them.
pub fn with_pair(pairs: Vec<(String, String)>, first: &str, second: &str) -> (longer: Vec<
    (String, String),
>)
    ensures
        pairs_text(longer@) == pairs_text(pairs@).push((first@, second@)),
{
    let mut longer = pairs;
    longer.push((first.to_owned(), second.to_owned()));
    longer
}

/// No pairs.
pub fn no_pairs() -> (pairs: Vec<(String, String)>)
    ensures
        pairs_text(pairs@) == Seq::<(Seq<char>, Seq<char>)>::empty(),
{
    let pairs: Vec<(String, String)> = Vec::new();
    pairs
}

/// The character that writes the digit `d`.
pub open spec fn digit_char(d: int) -> char {
    if d == 0 {
        '0'
    } else if d == 1 {
        '1'
    } else if d == 2 {
        '2'
    } else if d == 3 {
        '3'
    } else if d == 4 {
        '4'
    } else if d == 5 {
        '5'
    } else if d == 6 {
        '6'
    } else if d == 7 {
        '7'
    } else if d == 8 {
        '8'
    } else {
        '9'
    }
}

/// The decimal digits of `n`, the most significant first, with no leading
/// zero but for zero itself.
pub open spec fn digits_text(n: nat) -> Seq<char>
    decreases n,
{
    if n < 10 {
        seq![digit_char(n as int)]
    } else {
        digits_text(n / 10).push(digit_char((n % 10) as int))
    }
}

/// The decimal numeral of `n`, with a minus sign where it is negative.
pub open spec fn decimal_text(n: int) -> Seq<char> {
    if n < 0 {
        seq!['-'] + digits_text((-n) as nat)
    } else {
        digits_text(n as nat)
    }
}

/// Whether `needle` stands somewhere in `hay`, item for item.
pub open spec fn occurs_in<T>(needle: Seq<T>, hay: Seq<T>) -> bool {
    exists|i: int|
        0 <= i && i + needle.len() <= hay.len() && #[trigger] hay.subrange(i, i + needle.len())
            == needle
}

fn digit(d: u64) -> (c: char)
    requires
        d < 10,
    ensures
        c == digit_char(d as int),
{
    if d == 0 {
        '0'
    } else if d == 1 {
        '1'
    } else if d == 2 {
        '2'
    } else if d == 3 {
        '3'
    } else if d == 4 {
        '4'
    } else if d == 5 {
        '5'
    } else if d == 6 {
        '6'
    } else if d == 7 {
        '7'
    } else if d == 8 {
        '8'
    } else {
        '9'
    }
}

/// Appends the decimal digits of `n` to `out`.
pub fn push_digits(out: &mut String, n: u64)
    ensures
        final(out)@ == old(out)@ + digits_text(n as nat),
    decreases n,
{
    if n >= 10 {
        push_digits(out, n / 10);
    }
    out.push(digit(n % 10));
}

/// Appends the decimal numeral of `n` to `out`.
pub fn push_decimal(out: &mut String, n: i64)
    ensures
        final(out)@ == old(out)@ + decimal_text(n as int),
{
    if n < 0 {
        out.push('-');
        let magnitude: u64 = ((-(n + 1)) as u64) + 1;
        push_digits(out, magnitude);
    } else {
        push_digits(out, n as u64);
    }
}

/// What the bytes of a body say: their text where they are UTF-8, and a
/// fixed remark where they are not.
pub open spec fn body_text(bytes: Seq<u8>) -> Seq<char> {
    if valid_utf8(bytes) {
        decode_utf8(bytes)
    } else {
        "(utf8 error)"@
    }
}

/// Appends what the bytes of a body say to `out`.
pub fn push_body_text(out: &mut String, bytes: &[u8])
    ensures
        final(out)@ == old(out)@ + body_text(bytes@),
{
    match from_utf8(bytes) {
        Some(text) => out.append(text),
        None => out.append("(utf8 error)"),
    }
}

/// A decimal numeral holds digits and a minus sign, nothing else.
pub proof fn lemma_decimal_characters(n: int, i: int)
    requires
        0 <= i < decimal_text(n).len(),
    ensures
        decimal_text(n)[i] == '-' || exists|d: int| 0 <= d <= 9 && decimal_text(n)[i] == digit_char(d),
{
    if n < 0 {
        if i > 0 {
            lemma_digits_characters((-n) as nat, i - 1);
        }
    } else {
        lemma_digits_characters(n as nat, i);
    }
}

/// The digits of a number are digits.
pub proof fn lemma_digits_characters(n: nat, i: int)
    requires
        0 <= i < digits_text(n).len(),
    ensures
        exists|d: int| 0 <= d <= 9 && digits_text(n)[i] == digit_char(d),
    decreases n,
{
    if n >= 10 && i < digits_text(n / 10).len() {
        lemma_digits_characters(n / 10, i);
    }
}

/// Two texts, one behind the other, are encoded as their encodings, one
/// behind the other.
pub proof fn lemma_encoding_of_concat(a: Seq<char>, b: Seq<char>)
    ensures
        encode_utf8(a + b) == encode_utf8(a) + encode_utf8(b),
    decreases a.len(),
{
    if a.len() > 0 {
        assert((a + b).drop_first() =~= a.drop_first() + b);
        lemma_encoding_of_concat(a.drop_first(), b);
    }
}

/// A text that stands between two others has its encoding in the encoding of
/// the three.
pub proof fn lemma_encoding_holds_part(front: Seq<char>, part: Seq<char>, back: Seq<char>)
    ensures
        occurs_in(encode_utf8(part), encode_utf8(front + part + back)),
{
    lemma_encoding_of_concat(front + part, back);
    lemma_encoding_of_concat(front, part);
    let whole = encode_utf8(front + part + back);
    let at = encode_utf8(front).len() as int;
    assert(whole.subrange(at, at + encode_utf8(part).len()) =~= encode_utf8(part));
}

} // verus!
