//! Verified string utilities: character-exact equality, decimal parsing
//! and printing, and the human-readable byte-size formatter.

use vstd::prelude::*;

verus! {

/// Whether `c` is a decimal digit.
pub open spec fn spec_is_digit(c: char) -> bool {
    48 <= c as int <= 57
}

/// Every character of `s` is a decimal digit.
pub open spec fn spec_all_digits(s: Seq<char>) -> bool {
    forall|i: int| 0 <= i < s.len() ==> spec_is_digit(#[trigger] s[i])
}

/// The value of a digit string, most significant digit first.
pub open spec fn spec_digits_val(s: Seq<char>) -> int
    decreases s.len(),
{
    if s.len() == 0 {
        0
    } else {
        spec_digits_val(s.drop_last()) * 10 + (s.last() as int - 48)
    }
}

/// What parsing a decimal token yields: a non-empty all-digit string
/// whose value fits `u64`, and nothing else.
pub open spec fn spec_parse_u64(s: Seq<char>) -> Option<u64> {
    if s.len() >= 1 && spec_all_digits(s) && spec_digits_val(s) <= u64::MAX {
        Some(spec_digits_val(s) as u64)
    } else {
        None
    }
}

/// The digit character of a value below ten.
pub open spec fn spec_digit_char(d: int) -> char {
    if d == 0 {
        '0'
    } else if d == 1 {
        '1'
    } else if d == 2 {
        '2'
    } else if d == 3 {
        '3'
    } else if d == 4 {
        '4'
    } else if d == 5 {
        '5'
    } else if d == 6 {
        '6'
    } else if d == 7 {
        '7'
    } else if d == 8 {
        '8'
    } else {
        '9'
    }
}

/// The decimal digits of a non-negative value, most significant first.
pub open spec fn spec_dec_digits(n: int) -> Seq<char>
    decreases n,
{
    if n < 10 {
        seq![spec_digit_char(n)]
    } else {
        spec_dec_digits(n / 10).push(spec_digit_char(n % 10))
    }
}

/// A digit-string value is never negative.
proof fn lemma_digits_val_nonneg(s: Seq<char>)
    requires
        spec_all_digits(s),
    ensures
        spec_digits_val(s) >= 0,
    decreases s.len(),
{
    if s.len() > 0 {
        assert(spec_all_digits(s.drop_last())) by {
            assert(forall|i: int|
                0 <= i < s.len() - 1 ==> s.drop_last()[i] == #[trigger] s[i]);
        }
        lemma_digits_val_nonneg(s.drop_last());
    }
}

/// Extending a digit string never shrinks its value.
proof fn lemma_digits_val_mono(s: Seq<char>, i: int)
    requires
        spec_all_digits(s),
        0 <= i <= s.len(),
    ensures
        spec_digits_val(s.subrange(0, i)) <= spec_digits_val(s),
    decreases s.len() - i,
{
    if i == s.len() {
        assert(s.subrange(0, i) =~= s);
    } else {
        lemma_digits_val_mono(s, i + 1);
        assert(s.subrange(0, i + 1).drop_last() =~= s.subrange(0, i));
        assert(s.subrange(0, i + 1).last() == s[i]);
        assert(spec_all_digits(s.subrange(0, i))) by {
            assert(forall|j: int|
                0 <= j < i ==> s.subrange(0, i)[j] == #[trigger] s[j]);
        }
        lemma_digits_val_nonneg(s.subrange(0, i));
        assert(spec_digits_val(s.subrange(0, i)) <= spec_digits_val(s.subrange(0, i + 1)));
    }
}

/// Character-exact equality of two string slices.
pub fn str_eq(a: &str, b: &str) -> (r: bool)
    ensures
        r == (a@ == b@),
{
    let la = a.unicode_len();
    let lb = b.unicode_len();
    if la != lb {
        return false;
    }
    let mut i: usize = 0;
    while i < la
        invariant
            la == a@.len(),
            la == b@.len(),
            i <= la,
            forall|j: int| 0 <= j < i ==> a@[j] == b@[j],
        decreases la - i,
    {
        if a.get_char(i) != b.get_char(i) {
            return false;
        }
        i = i + 1;
    }
    proof {
        assert(a@ =~= b@);
    }
    true
}

/// Whether some element of `v` equals `s`, character for character.
pub fn contains_str(v: &Vec<String>, s: &str) -> (r: bool)
    ensures
        r == exists|i: int| 0 <= i < v@.len() && #[trigger] v@[i]@ == s@,
{
    let mut i: usize = 0;
    while i < v.len()
        invariant
            i <= v@.len(),
            forall|j: int| 0 <= j < i ==> #[trigger] v@[j]@ != s@,
        decreases v@.len() - i,
    {
        if str_eq(v[i].as_str(), s) {
            return true;
        }
        i = i + 1;
    }
    false
}

/// Parses a decimal token: every character must be a digit and the value
/// must fit `u64`.
pub fn parse_u64(s: &str) -> (r: Option<u64>)
    ensures
        r == spec_parse_u64(s@),
{
    let len = s.unicode_len();
    if len == 0 {
        return None;
    }
    let mut acc: u64 = 0;
    let mut i: usize = 0;
    while i < len
        invariant
            len == s@.len(),
            1 <= len,
            i <= len,
            spec_all_digits(s@.subrange(0, i as int)),
            acc == spec_digits_val(s@.subrange(0, i as int)),
        decreases len - i,
    {
        let c = s.get_char(i);
        let cu = c as u32;
        if cu < 48 || cu > 57 {
            assert(!spec_is_digit(s@[i as int]));
            return None;
        }
        let d: u64 = (cu - 48) as u64;
        if acc > (u64::MAX - d) / 10 {
            proof {
                assert(spec_all_digits(s@.subrange(0, i as int + 1))) by {
                    assert(forall|j: int|
                        0 <= j < i as int ==> s@.subrange(0, i as int + 1)[j] == #[trigger] s@.subrange(
                            0,
                            i as int,
                        )[j]);
                    assert(s@.subrange(0, i as int + 1)[i as int] == s@[i as int]);
                }
                assert(s@.subrange(0, i as int + 1).drop_last() =~= s@.subrange(0, i as int));
                assert(spec_digits_val(s@.subrange(0, i as int + 1)) == acc * 10 + d);
                if spec_all_digits(s@) {
                    lemma_digits_val_mono(s@, i as int + 1);
                    assert(spec_digits_val(s@) > u64::MAX);
                }
            }
            return None;
        }
        proof {
            assert(spec_all_digits(s@.subrange(0, i as int + 1))) by {
                assert(forall|j: int|
                    0 <= j < i as int ==> s@.subrange(0, i as int + 1)[j] == #[trigger] s@.subrange(
                        0,
                        i as int,
                    )[j]);
                assert(s@.subrange(0, i as int + 1)[i as int] == s@[i as int]);
            }
            assert(s@.subrange(0, i as int + 1).drop_last() =~= s@.subrange(0, i as int));
        }
        acc = acc * 10 + d;
        i = i + 1;
    }
    proof {
        assert(s@.subrange(0, len as int) =~= s@);
    }
    Some(acc)
}

/// The string of one digit.
fn digit_str(d: u8) -> (r: &'static str)
    requires
        d < 10,
    ensures
        r@ =~= seq![spec_digit_char(d as int)],
{
    proof {
        reveal_strlit("0");
        reveal_strlit("1");
        reveal_strlit("2");
        reveal_strlit("3");
        reveal_strlit("4");
        reveal_strlit("5");
        reveal_strlit("6");
        reveal_strlit("7");
        reveal_strlit("8");
        reveal_strlit("9");
    }
    match d {
        0 => "0",
        1 => "1",
        2 => "2",
        3 => "3",
        4 => "4",
        5 => "5",
        6 => "6",
        7 => "7",
        8 => "8",
        _ => "9",
    }
}

/// Appends the decimal digits of `n` to `out`.
fn push_dec(n: u64, out: &mut String)
    ensures
        final(out)@ == old(out)@ + spec_dec_digits(n as int),
    decreases n,
{
    if n >= 10 {
        push_dec(n / 10, out);
    }
    let d: u8 = (n % 10) as u8;
    out.append(digit_str(d));
    proof {
        if n >= 10 {
            assert(final(out)@ =~= old(out)@ + spec_dec_digits(n as int));
        } else {
            assert(final(out)@ =~= old(out)@ + spec_dec_digits(n as int));
        }
    }
}

/// The decimal representation of `n`.
pub fn u64_to_string(n: u64) -> (r: String)
    ensures
        r@ == spec_dec_digits(n as int),
{
    let mut out = String::new();
    push_dec(n, &mut out);
    proof {
        assert(out@ =~= spec_dec_digits(n as int));
    }
    out
}

/// The scale a byte count is reported in: the largest unit no bigger than
/// the count itself, capped at terabytes.
pub open spec fn spec_unit_index(b: int) -> int {
    if b < 1024 {
        0
    } else if b < 1048576 {
        1
    } else if b < 1073741824 {
        2
    } else if b < 1099511627776 {
        3
    } else {
        4
    }
}

/// The byte count of one unit at each scale.
pub open spec fn spec_unit_div(i: int) -> int {
    if i == 0 {
        1
    } else if i == 1 {
        1024
    } else if i == 2 {
        1048576
    } else if i == 3 {
        1073741824
    } else {
        1099511627776
    }
}

/// The name of each scale.
pub open spec fn spec_unit_name(i: int) -> Seq<char> {
    if i == 0 {
        "B"@
    } else if i == 1 {
        "KB"@
    } else if i == 2 {
        "MB"@
    } else if i == 3 {
        "GB"@
    } else {
        "TB"@
    }
}

/// A two-digit, zero-padded fraction.
pub open spec fn spec_two_digits(f: int) -> Seq<char> {
    seq![spec_digit_char(f / 10), spec_digit_char(f % 10)]
}

/// A byte count as text: the count scaled to its unit with two decimal
/// places, rounded to the nearest (halves up, carrying into the whole
/// part), then the unit name ("0 B" for zero).
pub open spec fn spec_format_file_size(b: int) -> Seq<char> {
    if b == 0 {
        "0 B"@
    } else {
        let i = spec_unit_index(b);
        let div = spec_unit_div(i);
        let frac = ((b % div) * 200 + div) / (2 * div);
        if frac == 100 {
            spec_dec_digits(b / div + 1) + "."@ + spec_two_digits(0) + " "@ + spec_unit_name(i)
        } else {
            spec_dec_digits(b / div) + "."@ + spec_two_digits(frac) + " "@ + spec_unit_name(i)
        }
    }
}

/// Formats a byte count for humans, as in `spec_format_file_size`.
pub fn format_file_size(bytes: usize) -> (r: String)
    ensures
        r@ == spec_format_file_size(bytes as int),
{
    if bytes == 0 {
        return "0 B".to_owned();
    }
    let b: u64 = bytes as u64;
    let div: u64 = if b < 1024 {
        1
    } else if b < 1048576 {
        1024
    } else if b < 1073741824 {
        1048576
    } else if b < 1099511627776 {
        1073741824
    } else {
        1099511627776
    };
    let unit: &str = if b < 1024 {
        "B"
    } else if b < 1048576 {
        "KB"
    } else if b < 1073741824 {
        "MB"
    } else if b < 1099511627776 {
        "GB"
    } else {
        "TB"
    };
    let whole: u64 = b / div;
    let rem: u64 = b % div;
    proof {
        assert(rem * 200 <= 1099511627776u64 * 200) by (nonlinear_arith)
            requires rem <= 1099511627776u64;
        assert(((rem as int) * 200 + div) / (2 * (div as int)) <= 100) by (nonlinear_arith)
            requires rem < div, div >= 1;
        assert(((rem as int) * 200 + div) / (2 * (div as int)) >= 0) by (nonlinear_arith)
            requires rem >= 0, div >= 1;
        assert(whole < 0xffff_ffff_ffff_ffffu64 || rem == 0) by (nonlinear_arith)
            requires
                whole == b / div,
                rem == b % div,
                b <= 0xffff_ffff_ffff_ffffu64,
                div >= 1;
    }
    let frac: u64 = (rem * 200 + div) / (2 * div);
    let mut out = if frac == 100 {
        u64_to_string(whole + 1)
    } else {
        u64_to_string(whole)
    };
    out.append(".");
    if frac == 100 {
        out.append(digit_str(0));
        out.append(digit_str(0));
    } else {
        out.append(digit_str((frac / 10) as u8));
        out.append(digit_str((frac % 10) as u8));
    }
    out.append(" ");
    out.append(unit);
    proof {
        reveal_strlit(".");
        reveal_strlit(" ");
        assert(out@ =~= spec_format_file_size(bytes as int));
    }
    out
}

} // verus!
