//! Dates as the gateways write them (`YYYYMMDD`) and as the settlement rows
//! hold them (`YYYY-MM-DD`).

use vstd::prelude::*;
use vstd::utf8::*;
use vstd::string::*;
use crate::text::{byte_range, byte_range_ok, decimal_digits, digit_char, push_decimal_digits, push_str, slice_bytes, utf8_bytes};

verus! {

broadcast use vstd::utf8::group_utf8_lib;

/// Whether `&s[0..4]`, `&s[4..6]` and `&s[6..8]` can all be taken from `s`.
pub open spec fn date_text_ok(s: Seq<char>) -> bool {
    &&& byte_range_ok(s, 0, 4)
    &&& byte_range_ok(s, 4, 6)
    &&& byte_range_ok(s, 6, 8)
}

/// `YYYYMMDD...` written as `YYYY-MM-DD`: the bytes `0..4`, `4..6` and `6..8`
/// of `s` joined by dashes.
pub open spec fn dashed_date(s: Seq<char>) -> Seq<char> {
    byte_range(s, 0, 4) + seq!['-'] + byte_range(s, 4, 6) + seq!['-'] + byte_range(s, 6, 8)
}

/// Writes the date `YYYYMMDD` (the first eight bytes of `s`) as `YYYY-MM-DD`.
pub fn format_date(s: &str) -> (r: String)
    requires
        date_text_ok(s@),
    ensures
        r@ == dashed_date(s@),
{
    proof {
        reveal_strlit("-");
    }
    let mut out = String::new();
    push_str(&mut out, slice_bytes(s, 0, 4));
    push_str(&mut out, "-");
    push_str(&mut out, slice_bytes(s, 4, 6));
    push_str(&mut out, "-");
    push_str(&mut out, slice_bytes(s, 6, 8));
    assert(out@ =~= dashed_date(s@));
    out
}

proof fn lemma_ascii_range(s: Seq<char>, start: int, end: int)
    requires
        is_ascii_chars(s),
        0 <= start <= end <= s.len(),
    ensures
        byte_range_ok(s, start, end),
        byte_range(s, start, end) == s.subrange(start, end),
{
    let bytes = utf8_bytes(s);
    is_ascii_chars_encode_utf8(s);
    assert(bytes.len() == s.len());
    assert forall|i: int| 0 <= i < bytes.len() implies !is_continuation_byte(bytes[i]) by {
        assert(bytes[i] == s[i] as u8);
        assert(s[i] as u32 <= 0x7f);
    }
    if start < bytes.len() {
        is_char_boundary_iff_not_is_continuation_byte(bytes, start);
    } else {
        is_char_boundary_start_end_of_seq(bytes);
    }
    if end < bytes.len() {
        is_char_boundary_iff_not_is_continuation_byte(bytes, end);
    } else {
        is_char_boundary_start_end_of_seq(bytes);
    }
    let piece = s.subrange(start, end);
    assert(is_ascii_chars(piece));
    is_ascii_chars_encode_utf8(piece);
    assert(encode_utf8(piece) =~= bytes.subrange(start, end));
    encode_utf8_decode_utf8(piece);
}

/// For an ASCII text of at least eight characters the dashed date can always
/// be taken, and it is the first four, the next two and the next two
/// characters joined by dashes.
pub proof fn lemma_dashed_date_ascii(s: Seq<char>)
    requires
        is_ascii_chars(s),
        s.len() >= 8,
    ensures
        date_text_ok(s),
        dashed_date(s) == s.subrange(0, 4) + seq!['-'] + s.subrange(4, 6) + seq!['-']
            + s.subrange(6, 8),
{
    lemma_ascii_range(s, 0, 4);
    lemma_ascii_range(s, 4, 6);
    lemma_ascii_range(s, 6, 8);
}

/// Dropping the two dashes from the dashed date of an ASCII text gives back its
/// first eight characters.
pub proof fn lemma_dashed_date_undashes(s: Seq<char>)
    requires
        is_ascii_chars(s),
        s.len() >= 8,
    ensures
        dashed_date(s).len() == 10,
        dashed_date(s)[4] == '-',
        dashed_date(s)[7] == '-',
        dashed_date(s).subrange(0, 4) + dashed_date(s).subrange(5, 7) + dashed_date(s).subrange(
            8,
            10,
        ) == s.subrange(0, 8),
{
    lemma_dashed_date_ascii(s);
    let d = dashed_date(s);
    assert(d.subrange(0, 4) =~= s.subrange(0, 4));
    assert(d.subrange(5, 7) =~= s.subrange(4, 6));
    assert(d.subrange(8, 10) =~= s.subrange(6, 8));
    assert(s.subrange(0, 4) + s.subrange(4, 6) + s.subrange(6, 8) =~= s.subrange(0, 8));
}

/// A calendar date by its year, month and day numbers.
#[derive(Clone, Copy, Debug, PartialEq, Eq)]
pub struct CalendarDate {
    pub year: i32,
    pub month: u32,
    pub day: u32,
}

/// `n` in decimal, padded with leading zeros to at least `width` digits.
pub open spec fn zero_padded(n: nat, width: nat) -> Seq<char> {
    let digits = decimal_digits(n);
    if digits.len() < width {
        Seq::new((width - digits.len()) as nat, |i: int| '0') + digits
    } else {
        digits
    }
}

/// A year as chrono's `%Y` writes it: four digits at least, with a sign
/// before years outside `0..=9999`.
pub open spec fn year_text(year: int) -> Seq<char> {
    if 0 <= year <= 9999 {
        zero_padded(year as nat, 4)
    } else if year < 0 {
        seq!['-'] + zero_padded((-year) as nat, 4)
    } else {
        seq!['+'] + zero_padded(year as nat, 4)
    }
}

/// A date as chrono's `%Y%m%d` writes it.
pub open spec fn compact_date_text(year: int, month: nat, day: nat) -> Seq<char> {
    year_text(year) + zero_padded(month, 2) + zero_padded(day, 2)
}

fn digit_count(n: u64) -> (r: u64)
    ensures
        r == decimal_digits(n as nat).len(),
        1 <= r <= 20,
    decreases n,
{
    proof {
        reveal_with_fuel(pow10, 21);
        assert(pow10(20) == 100_000_000_000_000_000_000nat);
        lemma_digits_len(n as nat, 20);
    }
    if n < 10 {
        1
    } else {
        let r = digit_count(n / 10);
        assert(decimal_digits(n as nat).len() == decimal_digits((n / 10) as nat).len() + 1);
        r + 1
    }
}

spec fn pow10(k: nat) -> nat
    decreases k,
{
    if k == 0 {
        1
    } else {
        10 * pow10((k - 1) as nat)
    }
}

proof fn lemma_digits_len(n: nat, k: nat)
    requires
        k >= 1,
        n < pow10(k),
    ensures
        decimal_digits(n).len() <= k,
    decreases k,
{
    if n >= 10 {
        assert(k >= 2) by {
            if k == 1 {
                assert(pow10(1) == 10) by {
                    reveal_with_fuel(pow10, 2);
                }
            }
        }
        assert(n / 10 < pow10((k - 1) as nat));
        lemma_digits_len(n / 10, (k - 1) as nat);
    }
}

/// Appends `n` in decimal, zero-padded to at least `width` digits.
pub fn push_zero_padded(out: &mut String, n: u64, width: u64)
    requires
        width <= 20,
    ensures
        final(out)@ == old(out)@ + zero_padded(n as nat, width as nat),
{
    proof {
        reveal_strlit("0");
    }
    let count = digit_count(n);
    let mut k = count;
    while k < width
        invariant
            count == decimal_digits(n as nat).len(),
            count <= k <= width || (k == count && width < count),
            out@ == old(out)@ + Seq::new((k - count) as nat, |i: int| '0'),
        decreases width - k,
    {
        proof {
            reveal_strlit("0");
        }
        out.append("0");
        assert(out@ =~= old(out)@ + Seq::new((k + 1 - count) as nat, |i: int| '0'));
        k = k + 1;
    }
    push_decimal_digits(out, n);
    assert(out@ =~= old(out)@ + zero_padded(n as nat, width as nat));
}

/// The date as chrono's `%Y%m%d` writes it, e.g. `20240105`.
pub fn compact_date(date: &CalendarDate) -> (r: String)
    ensures
        r@ == compact_date_text(date.year as int, date.month as nat, date.day as nat),
{
    let mut out = String::new();
    let year = date.year;
    if 0 <= year && year <= 9999 {
        push_zero_padded(&mut out, year as u64, 4);
    } else if year < 0 {
        proof {
            reveal_strlit("-");
        }
        out.append("-");
        let magnitude: u64 = (0 - (year as i64)) as u64;
        push_zero_padded(&mut out, magnitude, 4);
    } else {
        proof {
            reveal_strlit("+");
        }
        out.append("+");
        push_zero_padded(&mut out, year as u64, 4);
    }
    assert(out@ =~= year_text(year as int));
    push_zero_padded(&mut out, date.month as u64, 2);
    push_zero_padded(&mut out, date.day as u64, 2);
    assert(out@ =~= compact_date_text(date.year as int, date.month as nat, date.day as nat));
    out
}

proof fn lemma_digits_ascii(n: nat)
    ensures
        is_ascii_chars(decimal_digits(n)),
        decimal_digits(n).len() >= 1,
    decreases n,
{
    if n >= 10 {
        lemma_digits_ascii(n / 10);
        let c = digit_char((n % 10) as int);
        assert('\0' <= c <= '\u{7f}');
        assert(is_ascii_chars(decimal_digits(n / 10).push(c)));
    } else {
        let c = digit_char(n as int);
        assert('\0' <= c <= '\u{7f}');
    }
}

proof fn lemma_zero_padded_width(n: nat, width: nat)
    requires
        width >= 1,
        n < pow10(width),
    ensures
        zero_padded(n, width).len() == width,
        is_ascii_chars(zero_padded(n, width)),
{
    lemma_digits_len(n, width);
    lemma_digits_ascii(n);
    let digits = decimal_digits(n);
    if digits.len() < width {
        let zeros = Seq::new((width - digits.len()) as nat, |i: int| '0');
        assert(is_ascii_chars(zeros));
        assert(is_ascii_chars(zeros + digits));
    }
}

/// A date of the years 0 to 9999 written as `YYYYMMDD` is eight ASCII
/// characters, so the dashed date can be taken from it: it is `YYYY-MM-DD`.
pub proof fn lemma_compact_date_dashes(year: int, month: nat, day: nat)
    requires
        0 <= year <= 9999,
        1 <= month <= 12,
        1 <= day <= 31,
    ensures
        compact_date_text(year, month, day).len() == 8,
        date_text_ok(compact_date_text(year, month, day)),
        dashed_date(compact_date_text(year, month, day)) == zero_padded(year as nat, 4) + seq!['-']
            + zero_padded(month, 2) + seq!['-'] + zero_padded(day, 2),
{
    reveal_with_fuel(pow10, 5);
    lemma_zero_padded_width(year as nat, 4);
    lemma_zero_padded_width(month, 2);
    lemma_zero_padded_width(day, 2);
    let y = zero_padded(year as nat, 4);
    let m = zero_padded(month, 2);
    let d = zero_padded(day, 2);
    let text = compact_date_text(year, month, day);
    assert(text == y + m + d);
    assert(is_ascii_chars(text));
    lemma_dashed_date_ascii(text);
    assert(text.subrange(0, 4) =~= y);
    assert(text.subrange(4, 6) =~= m);
    assert(text.subrange(6, 8) =~= d);
}

} // verus!
