//! Text helpers: comparison, case folding and decimal numerals.

use vstd::prelude::*;
use vstd::string::*;
use vstd::utf8::*;

verus! {

/// Whether two strings hold the same text.
pub fn str_eq(a: &str, b: &str) -> (same: bool)
    ensures
        same == (a@ == b@),
{
    let x = a.as_bytes();
    let y = b.as_bytes();
    proof {
        // The UTF-8 encoding determines the text.
        encode_utf8_decode_utf8(a@);
        encode_utf8_decode_utf8(b@);
    }
    if x.len() != y.len() {
        return false;
    }
    let mut i: usize = 0;
    while i < x.len()
        invariant
            x@.len() == y@.len(),
            x@ == encode_utf8(a@),
            y@ == encode_utf8(b@),
            i <= x@.len(),
            forall|j: int| 0 <= j < i ==> x@[j] == y@[j],
        decreases x@.len() - i,
    {
        if x[i] != y[i] {
            return false;
        }
        i += 1;
    }
    assert(x@ =~= y@);
    true
}

/// Whether `a` comes before `b` when the two are compared byte by byte: at the
/// first place where they differ `a` has the smaller byte, or `a` ends there
/// and `b` goes on.
pub open spec fn bytes_less(a: Seq<u8>, b: Seq<u8>) -> bool {
    exists|i: int| less_at(a, b, i)
}

/// Whether `a` and `b` agree on their first `i` bytes, and at place `i` either
/// `a` ends while `b` goes on or `a` has the smaller byte.
pub open spec fn less_at(a: Seq<u8>, b: Seq<u8>, i: int) -> bool {
    &&& 0 <= i <= a.len()
    &&& i < b.len()
    &&& forall|j: int| 0 <= j < i ==> a[j] == b[j]
    &&& (i == a.len() || a[i] < b[i])
}

/// Whether the text `a` comes before the text `b` in the order of strings,
/// which compares their UTF-8 encodings byte by byte.
pub open spec fn text_less(a: Seq<char>, b: Seq<char>) -> bool {
    bytes_less(encode_utf8(a), encode_utf8(b))
}

/// Whether `a` comes before `b` in the order of strings.
pub fn str_less(a: &str, b: &str) -> (less: bool)
    ensures
        less == text_less(a@, b@),
{
    let x = a.as_bytes();
    let y = b.as_bytes();
    let mut i: usize = 0;
    while i < x.len() && i < y.len()
        invariant
            x@ == encode_utf8(a@),
            y@ == encode_utf8(b@),
            i <= x@.len(),
            i <= y@.len(),
            forall|j: int| 0 <= j < i ==> x@[j] == y@[j],
        decreases x@.len() - i,
    {
        if x[i] != y[i] {
            let less = x[i] < y[i];
            proof {
                // The first place where the two differ decides, and no other
                // place can.
                if less {
                    assert(less_at(x@, y@, i as int));
                } else {
                    assert forall|k: int| !less_at(x@, y@, k) by {}
                }
            }
            return less;
        }
        i += 1;
    }
    let less = i < y.len();
    proof {
        // One of the two is a prefix of the other.
        if less {
            assert(less_at(x@, y@, i as int));
        } else {
            assert forall|k: int| !less_at(x@, y@, k) by {}
        }
    }
    less
}

/// Of two texts either one comes before the other or they are the same text,
/// and never two of these at once.
pub proof fn lemma_text_order_total(a: Seq<char>, b: Seq<char>)
    ensures
        a == b || text_less(a, b) || text_less(b, a),
        !(text_less(a, b) && text_less(b, a)),
        a == b ==> !text_less(a, b),
{
    let x = encode_utf8(a);
    let y = encode_utf8(b);
    encode_utf8_decode_utf8(a);
    encode_utf8_decode_utf8(b);
    if x != y {
        lemma_differing_bytes_are_ordered(x, y, 0);
    }
    if bytes_less(x, y) && bytes_less(y, x) {
        // The two places would each have to come before the other.
        let i = choose|i: int| less_at(x, y, i);
        let k = choose|k: int| less_at(y, x, k);
    }
}

/// A text that comes before a second, which comes before a third, comes before
/// the third.
pub proof fn lemma_text_order_transitive(a: Seq<char>, b: Seq<char>, c: Seq<char>)
    requires
        text_less(a, b),
        text_less(b, c),
    ensures
        text_less(a, c),
{
    let x = encode_utf8(a);
    let y = encode_utf8(b);
    let z = encode_utf8(c);
    let i = choose|i: int| less_at(x, y, i);
    let k = choose|k: int| less_at(y, z, k);
    // The first and the third agree up to the earlier of the two places, and
    // are in order there.
    if i <= k {
        assert(less_at(x, z, i));
    } else {
        assert(less_at(x, z, k));
    }
}

/// Of two byte sequences that agree on their first `from` bytes and are not
/// equal, one comes before the other.
proof fn lemma_differing_bytes_are_ordered(a: Seq<u8>, b: Seq<u8>, from: int)
    requires
        0 <= from <= a.len(),
        from <= b.len(),
        forall|j: int| 0 <= j < from ==> a[j] == b[j],
        a != b,
    ensures
        bytes_less(a, b) || bytes_less(b, a),
    decreases a.len() - from,
{
    if from == a.len() {
        if from == b.len() {
            assert(a =~= b);
        } else {
            assert(less_at(a, b, from));
        }
    } else if from == b.len() {
        assert(less_at(b, a, from));
    } else if a[from] < b[from] {
        assert(less_at(a, b, from));
    } else if b[from] < a[from] {
        assert(less_at(b, a, from));
    } else {
        lemma_differing_bytes_are_ordered(a, b, from + 1);
    }
}

/// The lower-case form of a text, as the standard library's
/// `str::to_lowercase` computes it from the Unicode tables.
pub uninterp spec fn lowercase_of(s: Seq<char>) -> Seq<char>;

/// Calls `str::to_lowercase`.
///
/// Trusted: the result is the lower-case form of `s`, which `lowercase_of`
/// names. Nothing else is claimed of it.
#[verifier::external_body]
pub(crate) fn to_lowercase(s: &str) -> (lower: String)
    ensures
        lower@ == lowercase_of(s@),
{
    s.to_lowercase()
}

/// Declares `core::str::Utf8Error`, the error of `core::str::from_utf8`.
/// Nothing is claimed of what it holds.
#[verifier::external_type_specification]
#[verifier::external_body]
pub struct ExUtf8Error(core::str::Utf8Error);

/// Calls `core::str::from_utf8`.
///
/// Trusted: the call succeeds exactly on bytes that are valid UTF-8, and the
/// string it gives is made of these bytes.
#[verifier::external_body]
pub(crate) fn str_from_utf8<'a>(bytes: &'a [u8]) -> (res: Result<&'a str, core::str::Utf8Error>)
    ensures
        res is Ok <==> valid_utf8(bytes@),
        res matches Ok(s) ==> s.spec_bytes() == bytes@,
{
    core::str::from_utf8(bytes)
}

/// The lines of a text, as the standard library's `str::lines` yields them:
/// the text is cut after each line feed, and each line comes without its line
/// feed and without a carriage return before it.
pub uninterp spec fn text_lines(s: Seq<char>) -> Seq<Seq<char>>;

/// Calls `str::lines` and collects what it yields.
///
/// Trusted: the result holds the lines of `s` in their order, which
/// `text_lines` names. Nothing else is claimed of them.
#[verifier::external_body]
pub(crate) fn lines(s: &str) -> (all: Vec<String>)
    ensures
        all@.len() == text_lines(s@).len(),
        forall|i: int| 0 <= i < all@.len() ==> (#[trigger] all@[i])@ == text_lines(s@)[i],
{
    s.lines().map(String::from).collect()
}

/// The text that shows the given lines: each after three spaces and before a
/// line feed.
pub open spec fn indented(lines: Seq<Seq<char>>) -> Seq<char>
    decreases lines.len(),
{
    if lines.len() == 0 {
        Seq::<char>::empty()
    } else {
        indented(lines.drop_last()) + "   "@ + lines.last() + "\n"@
    }
}

/// Appends to `out` each line of `s` after three spaces and before a line
/// feed.
pub fn push_indented_lines(out: &mut String, s: &str)
    ensures
        final(out)@ == old(out)@ + indented(text_lines(s@)),
{
    let all = lines(s);
    let ghost expected = text_lines(s@);
    let mut i: usize = 0;
    while i < all.len()
        invariant
            i <= all@.len(),
            all@.len() == expected.len(),
            forall|j: int| 0 <= j < all@.len() ==> (#[trigger] all@[j])@ == expected[j],
            out@ == old(out)@ + indented(expected.take(i as int)),
        decreases all@.len() - i,
    {
        out.append("   ");
        out.append(all[i].as_str());
        out.append("\n");
        proof {
            let next = expected.take(i + 1);
            assert(next.drop_last() =~= expected.take(i as int));
        }
        i += 1;
    }
    assert(expected.take(i as int) =~= expected);
}

/// The character of a decimal digit.
pub open spec fn digit_char(d: nat) -> char
    recommends
        d < 10,
{
    seq!['0', '1', '2', '3', '4', '5', '6', '7', '8', '9'][d as int]
}

/// The decimal digits of a natural number, most significant first, without
/// leading zeros.
pub open spec fn decimal_digits(n: nat) -> Seq<char>
    decreases n,
{
    if n < 10 {
        seq![digit_char(n)]
    } else {
        decimal_digits(n / 10).push(digit_char(n % 10))
    }
}

/// The decimal numeral of an integer, with a leading `-` below zero.
pub open spec fn decimal_text(v: int) -> Seq<char> {
    if v < 0 {
        seq!['-'] + decimal_digits((-v) as nat)
    } else {
        decimal_digits(v as nat)
    }
}

fn digit_str(d: u32) -> (s: &'static str)
    requires
        d < 10,
    ensures
        s@ == seq![digit_char(d as nat)],
{
    proof {
        reveal_strlit("0");
        reveal_strlit("1");
        reveal_strlit("2");
        reveal_strlit("3");
        reveal_strlit("4");
        reveal_strlit("5");
        reveal_strlit("6");
        reveal_strlit("7");
        reveal_strlit("8");
        reveal_strlit("9");
    }
    if d == 0 {
        "0"
    } else if d == 1 {
        "1"
    } else if d == 2 {
        "2"
    } else if d == 3 {
        "3"
    } else if d == 4 {
        "4"
    } else if d == 5 {
        "5"
    } else if d == 6 {
        "6"
    } else if d == 7 {
        "7"
    } else if d == 8 {
        "8"
    } else {
        "9"
    }
}

fn push_decimal_digits(out: &mut String, n: u32)
    ensures
        final(out)@ == old(out)@ + decimal_digits(n as nat),
    decreases n,
{
    if n >= 10 {
        push_decimal_digits(out, n / 10);
    }
    out.append(digit_str(n % 10));
}

/// Appends the decimal numeral of `v` to `out`.
pub fn push_decimal(out: &mut String, v: i32)
    ensures
        final(out)@ == old(out)@ + decimal_text(v as int),
{
    if v < 0 {
        proof {
            reveal_strlit("-");
        }
        out.append("-");
        let magnitude: u32 = (-(v as i64)) as u32;
        push_decimal_digits(out, magnitude);
    } else {
        push_decimal_digits(out, v as u32);
    }
}

} // verus!
