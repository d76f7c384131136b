//! Small text helpers: decimal rendering of counters, substring search, and
//! the human-readable size label shown for a selected image.

use vstd::prelude::*;
use vstd::string::StringExecFns;

verus! {

/// The character for one decimal digit.
pub open spec fn digit_char(d: nat) -> char {
    if d == 0 {
        '0'
    } else if d == 1 {
        '1'
    } else if d == 2 {
        '2'
    } else if d == 3 {
        '3'
    } else if d == 4 {
        '4'
    } else if d == 5 {
        '5'
    } else if d == 6 {
        '6'
    } else if d == 7 {
        '7'
    } else if d == 8 {
        '8'
    } else {
        '9'
    }
}

/// The decimal rendering of a number: no sign, no padding, most significant
/// digit first.
pub open spec fn dec_digits(n: nat) -> Seq<char>
    decreases n,
{
    if n < 10 {
        seq![digit_char(n)]
    } else {
        dec_digits(n / 10).push(digit_char(n % 10))
    }
}

/// Relies on u64's `Display` implementation: it renders the value in decimal
/// digits, most significant first, with no sign and no padding.
#[verifier::external_body]
pub(crate) fn u64_to_string(n: u64) -> (r: String)
    ensures
        r@ == dec_digits(n as nat),
{
    n.to_string()
}

/// True when `sub` occurs in `s` as a contiguous run of characters.
pub open spec fn contains_seq(s: Seq<char>, sub: Seq<char>) -> bool {
    exists|i: int| 0 <= i && i + sub.len() <= s.len() && #[trigger] s.subrange(i, i + sub.len())
        == sub
}

/// Relies on `str::contains`: true exactly when the pattern occurs as a
/// substring of the string slice.
#[verifier::external_body]
pub(crate) fn str_contains(s: &str, sub: &str) -> (r: bool)
    ensures
        r == contains_seq(s@, sub@),
{
    s.contains(sub)
}

/// Relies on str's `PartialEq` implementation: two string slices are equal
/// exactly when their character sequences are.
#[verifier::external_body]
pub(crate) fn str_eq(a: &str, b: &str) -> (r: bool)
    ensures
        r == (a@ == b@),
{
    a == b
}

/// The size in hundredths of gibibytes that `mebi` mebibytes round to, with
/// ties rounded to an even count of hundredths.
pub open spec fn gib_hundredths(mebi: nat) -> nat {
    let q = (25 * mebi) / 256;
    let r = (25 * mebi) % 256;
    if r > 128 {
        q + 1
    } else if r < 128 {
        q
    } else if q % 2 == 0 {
        q
    } else {
        q + 1
    }
}

/// A two-digit rendering of a number below one hundred, zero-padded.
pub open spec fn two_digit_frac(h: nat) -> Seq<char> {
    if h < 10 {
        "0"@ + dec_digits(h)
    } else {
        dec_digits(h)
    }
}

/// The size label for a byte count: whole mebibytes up to 1023, and
/// gibibytes with two decimals beyond that.
pub open spec fn size_string_of(bytes: u64) -> Seq<char> {
    let mebi = bytes as nat / 1048576;
    if mebi <= 1023 {
        dec_digits(mebi) + "MiB"@
    } else {
        let h = gib_hundredths(mebi);
        dec_digits(h / 100) + "."@ + two_digit_frac(h % 100) + "GiB"@
    }
}

/// Renders a byte count for display, as whole mebibytes below one gibibyte
/// and as gibibytes with exactly two decimals from there on.
pub fn get_size_string(bytes_size: u64) -> (r: String)
    ensures
        r@ == size_string_of(bytes_size),
{
    let mebi_bytes = bytes_size / 1048576;
    if mebi_bytes <= 1023 {
        u64_to_string(mebi_bytes).concat("MiB")
    } else {
        assert(mebi_bytes <= u64::MAX / 1048576) by {
            assert(bytes_size as nat / 1048576 <= u64::MAX as nat / 1048576);
        }
        let scaled = 25 * mebi_bytes;
        let q = scaled / 256;
        let rem = scaled % 256;
        let h = if rem > 128 {
            q + 1
        } else if rem < 128 {
            q
        } else if q % 2 == 0 {
            q
        } else {
            q + 1
        };
        let whole = h / 100;
        let frac = h % 100;
        let frac_str = if frac < 10 {
            String::from_str("0").concat(u64_to_string(frac).as_str())
        } else {
            u64_to_string(frac)
        };
        u64_to_string(whole).concat(".").concat(frac_str.as_str()).concat("GiB")
    }
}

} // verus!
