//! Text helpers: byte-range slices of UTF-8 strings, concatenation, decimal digits
//! and the `_`-separated fields of an identifier.

use vstd::prelude::*;
use vstd::utf8::*;
use vstd::string::*;

verus! {

broadcast use vstd::utf8::group_utf8_lib;

/// The UTF-8 bytes of a character sequence.
pub open spec fn utf8_bytes(s: Seq<char>) -> Seq<u8> {
    encode_utf8(s)
}

/// `s[start..end]` on a `str` takes the bytes `start..end`; it is defined exactly
/// when both ends are character boundaries and `start <= end`.
pub open spec fn byte_range_ok(s: Seq<char>, start: int, end: int) -> bool {
    &&& start <= end
    &&& is_char_boundary(utf8_bytes(s), start)
    &&& is_char_boundary(utf8_bytes(s), end)
}

/// The characters that the bytes `start..end` of `s` encode.
pub open spec fn byte_range(s: Seq<char>, start: int, end: int) -> Seq<char> {
    decode_utf8(utf8_bytes(s).subrange(start, end))
}

proof fn lemma_boundary_in_prefix(bytes: Seq<u8>, start: int, end: int)
    requires
        valid_utf8(bytes),
        start <= end,
        is_char_boundary(bytes, start),
        is_char_boundary(bytes, end),
    ensures
        valid_utf8(bytes.subrange(0, end)),
        is_char_boundary(bytes.subrange(0, end), start),
{
    let head = bytes.subrange(0, end);
    assert(valid_utf8(head));
    if start == end {
        is_char_boundary_start_end_of_seq(head);
        assert(head.len() == end) by {
            if end > bytes.len() {
                assert(false);
            }
        }
    } else {
        assert(0 <= start) by {
            if start < 0 {
                assert(!is_char_boundary(bytes, start));
            }
        }
        assert(end <= bytes.len()) by {
            if end > bytes.len() {
                assert(!is_char_boundary(bytes, end));
            }
        }
        is_char_boundary_iff_not_is_continuation_byte(bytes, start);
        is_char_boundary_iff_not_is_continuation_byte(head, start);
        assert(head[start] == bytes[start]);
    }
}

/// The byte range `start..end` of `s`, as `&s[start..end]` takes it.
pub fn slice_bytes(s: &str, start: usize, end: usize) -> (r: &str)
    requires
        byte_range_ok(s@, start as int, end as int),
    ensures
        r@ == byte_range(s@, start as int, end as int),
{
    let ghost bytes = s.spec_bytes();
    proof {
        lemma_boundary_in_prefix(bytes, start as int, end as int);
    }
    let (head, _tail) = s.split_at(end);
    assert(head.spec_bytes() =~= bytes.subrange(0, end as int));
    let (_front, mid) = head.split_at(start);
    let ghost head_bytes = head.spec_bytes();
    assert(mid.spec_bytes() =~= bytes.subrange(start as int, end as int)) by {
        assert(head_bytes.subrange(start as int, head_bytes.len() as int)
            =~= bytes.subrange(start as int, end as int));
    }
    assert(decode_utf8(encode_utf8(mid@)) == mid@);
    mid
}

/// Appends `piece` to `out`.
pub fn push_str(out: &mut String, piece: &str)
    ensures
        final(out)@ == old(out)@ + piece@,
{
    out.append(piece);
}

/// The decimal digit character of `d`, for `d < 10`.
pub open spec fn digit_char(d: int) -> char {
    ((d + 48) as u32) as char
}

/// The decimal digits of `n`, without sign or leading zeros.
pub open spec fn decimal_digits(n: nat) -> Seq<char>
    decreases n,
{
    if n < 10 {
        seq![digit_char(n as int)]
    } else {
        decimal_digits(n / 10).push(digit_char((n % 10) as int))
    }
}

/// The decimal text of an integer, with a leading `-` when it is negative,
/// as `to_string` writes it.
pub open spec fn decimal_text(v: int) -> Seq<char> {
    if v < 0 {
        seq!['-'] + decimal_digits((-v) as nat)
    } else {
        decimal_digits(v as nat)
    }
}

fn digit_str(d: u64) -> (r: &'static str)
    requires
        d < 10,
    ensures
        r@ == seq![digit_char(d as int)],
{
    proof {
        reveal_strlit("0");
        reveal_strlit("1");
        reveal_strlit("2");
        reveal_strlit("3");
        reveal_strlit("4");
        reveal_strlit("5");
        reveal_strlit("6");
        reveal_strlit("7");
        reveal_strlit("8");
        reveal_strlit("9");
    }
    let r = match d {
        0 => "0",
        1 => "1",
        2 => "2",
        3 => "3",
        4 => "4",
        5 => "5",
        6 => "6",
        7 => "7",
        8 => "8",
        _ => "9",
    };
    assert(r@ =~= seq![digit_char(d as int)]);
    r
}

/// Appends the decimal digits of `n` to `out`.
pub fn push_decimal_digits(out: &mut String, n: u64)
    ensures
        final(out)@ == old(out)@ + decimal_digits(n as nat),
    decreases n,
{
    if n >= 10 {
        push_decimal_digits(out, n / 10);
    }
    out.append(digit_str(n % 10));
    proof {
        if n >= 10 {
            assert(decimal_digits(n as nat) == decimal_digits((n / 10) as nat).push(
                digit_char((n % 10) as int),
            ));
        }
    }
    assert(out@ =~= old(out)@ + decimal_digits(n as nat));
}

/// The decimal text of `v`, as `v.to_string()` gives it.
pub fn decimal_string(v: i64) -> (r: String)
    ensures
        r@ == decimal_text(v as int),
{
    let mut out = String::new();
    if v < 0 {
        proof {
            reveal_strlit("-");
        }
        out.append("-");
        let magnitude: u64 = if v == i64::MIN {
            9223372036854775808u64
        } else {
            (-v) as u64
        };
        push_decimal_digits(&mut out, magnitude);
        assert(out@ =~= seq!['-'] + decimal_digits((-v) as nat));
    } else {
        push_decimal_digits(&mut out, v as u64);
        assert(out@ =~= decimal_digits(v as nat));
    }
    out
}


/// The index of the first `c` in `s`, or the length of `s` when there is none.
pub open spec fn find_char(s: Seq<char>, c: char) -> nat
    decreases s.len(),
{
    if s.len() == 0 {
        0
    } else if s[0] == c {
        0
    } else {
        1 + find_char(s.drop_first(), c)
    }
}

proof fn lemma_find_char(s: Seq<char>, c: char, k: int)
    requires
        0 <= k <= s.len(),
        forall|j: int| 0 <= j < k ==> s[j] != c,
        k < s.len() ==> s[k] == c,
    ensures
        find_char(s, c) == k,
    decreases s.len(),
{
    if s.len() > 0 && k > 0 {
        assert forall|j: int| 0 <= j < k - 1 implies s.drop_first()[j] != c by {
            assert(s.drop_first()[j] == s[j + 1]);
        }
        lemma_find_char(s.drop_first(), c, k - 1);
    }
}

/// Whether `sep` occurs in `s`, that is, whether splitting `s` at `sep`
/// gives at least two fields.
pub open spec fn has_second_field(s: Seq<char>, sep: char) -> bool {
    find_char(s, sep) < s.len()
}

/// The second field of `s` split at `sep`: the text between the first `sep`
/// and the next one (or the end), as `s.split(sep).nth(1)` gives it.
pub open spec fn second_field(s: Seq<char>, sep: char) -> Seq<char> {
    let rest = s.skip(find_char(s, sep) as int + 1);
    rest.take(find_char(rest, sep) as int)
}

/// Finds the first `c` in `s` at or after char index `from`.
fn find_char_from(s: &str, c: char, from: usize, len: usize) -> (r: usize)
    requires
        len == s@.len(),
        from <= len,
    ensures
        find_char(s@.skip(from as int), c) == r - from,
        from <= r <= len,
{
    let mut i = from;
    while i < len
        invariant
            len == s@.len(),
            from <= i <= len,
            forall|j: int| from <= j < i ==> s@[j] != c,
        ensures
            from <= i <= len,
            forall|j: int| from <= j < i ==> s@[j] != c,
            i < len ==> s@[i as int] == c,
        decreases len - i,
    {
        if s.get_char(i) == c {
            break;
        }
        i = i + 1;
    }
    proof {
        let t = s@.skip(from as int);
        assert forall|j: int| 0 <= j < i - from implies t[j] != c by {
            assert(t[j] == s@[j + from]);
        }
        if i < len {
            assert(t[i - from] == s@[i as int]);
        }
        lemma_find_char(t, c, i - from);
    }
    i
}

/// The second `sep`-separated field of `s`.
pub fn second_field_of(s: &str, sep: char) -> (r: String)
    requires
        has_second_field(s@, sep),
    ensures
        r@ == second_field(s@, sep),
{
    let len = s.unicode_len();
    let first = find_char_from(s, sep, 0, len);
    assert(s@.skip(0) =~= s@);
    let end = find_char_from(s, sep, first + 1, len);
    let piece = s.substring_char(first + 1, end);
    assert(piece@ =~= second_field(s@, sep));
    String::from_str(piece)
}

} // verus!
