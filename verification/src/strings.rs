//! Verified text helpers: decimal rendering and character-level string
//! operations, used by the wire codec and the message builders.

use vstd::prelude::*;
use vstd::string::StrSliceExecFns;

verus! {

/// The character of decimal digit `d`.
pub open spec fn digit_char(d: nat) -> char
    recommends
        d < 10,
{
    ((d + 0x30) as u8) as char
}

/// The decimal rendering of `n`: most significant digit first, no sign, no
/// leading zero, a single `'0'` for zero.
pub open spec fn spec_dec(n: nat) -> Seq<char>
    decreases n,
{
    if n < 10 {
        seq![digit_char(n)]
    } else {
        spec_dec(n / 10).push(digit_char(n % 10))
    }
}

/// The character of decimal digit `d`, executably.
fn digit_of(d: u64) -> (c: char)
    requires
        d < 10,
    ensures
        c == digit_char(d as nat),
{
    ((d as u8) + 0x30) as char
}

/// Relies on `str::chars`: the characters of the string, in order.
#[verifier::external_body]
pub fn str_chars(s: &str) -> (r: Vec<char>)
    ensures
        r@ == s@,
{
    s.chars().collect()
}

/// Relies on `String::from_iter` over `Vec::iter`: the string of exactly
/// these characters, in order.
#[verifier::external_body]
pub fn chars_to_string(v: &Vec<char>) -> (r: String)
    ensures
        r@ == v@,
{
    v.iter().collect()
}

/// Renders `n` in decimal.
pub fn u64_to_string(n: u64) -> (r: String)
    ensures
        r@ == spec_dec(n as nat),
{
    let mut digits: Vec<char> = Vec::new();
    let mut m: u64 = n;
    digits.insert(0, digit_of(m % 10));
    proof {
        if n >= 10 {
            assert(spec_dec((n / 10) as nat).push(digit_char(n as nat % 10)) =~= spec_dec(
                (n / 10) as nat,
            ) + digits@);
        }
    }
    m = m / 10;
    while m > 0
        invariant
            spec_dec(n as nat) =~= if m > 0 {
                spec_dec(m as nat) + digits@
            } else {
                digits@
            },
        decreases m,
    {
        let ghost prev = digits@;
        let ghost pm = m as nat;
        digits.insert(0, digit_of(m % 10));
        proof {
            assert(digits@ =~= seq![digit_char(pm % 10)] + prev);
        }
        m = m / 10;
        proof {
            if pm >= 10 {
                assert(spec_dec(pm) =~= spec_dec(pm / 10) + seq![digit_char(pm % 10)]);
                assert(spec_dec(pm / 10) + seq![digit_char(pm % 10)] + prev =~= spec_dec(pm / 10)
                    + digits@);
            } else {
                assert(spec_dec(pm) =~= seq![digit_char(pm % 10)]);
                assert(spec_dec(pm) + prev =~= digits@);
            }
        }
    }
    chars_to_string(&digits)
}

/// Renders `n` in decimal.
pub fn u32_to_string(n: u32) -> (r: String)
    ensures
        r@ == spec_dec(n as nat),
{
    u64_to_string(n as u64)
}

/// Character-for-character equality of two string slices.
pub fn str_eq(a: &str, b: &str) -> (r: bool)
    ensures
        r == (a@ == b@),
{
    let na = a.unicode_len();
    let nb = b.unicode_len();
    if na != nb {
        return false;
    }
    let mut i: usize = 0;
    while i < na
        invariant
            na == a@.len(),
            na == b@.len(),
            i <= na,
            forall|k: int| 0 <= k < i ==> a@[k] == b@[k],
        decreases na - i,
    {
        if a.get_char(i) != b.get_char(i) {
            return false;
        }
        i += 1;
    }
    proof {
        assert(a@ =~= b@);
    }
    true
}

} // verus!

