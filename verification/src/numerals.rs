//! Base-10 numeric literal handling: deciding whether literal text denotes
//! a representable value, computing that value, and rendering the decimal
//! suffixes used by multiplicity expansion.
//!
//! The grammar is pinned down by spec functions: a digit region is a
//! non-empty run of ASCII digits whose value fits the stated bound, and a
//! signed literal is such a region with an optional leading minus sign.

use vstd::prelude::*;
use vstd::string::*;

verus! {

/// Whether `c` is an ASCII decimal digit.
pub open spec fn is_digit_char(c: char) -> bool {
    '0' <= c && c <= '9'
}

/// The numeric value of the digit `c`.
pub open spec fn digit_val(c: char) -> nat {
    (c as int - '0' as int) as nat
}

/// Whether every character of `s` is an ASCII decimal digit.
pub open spec fn all_digits(s: Seq<char>) -> bool {
    forall|i: int| 0 <= i < s.len() ==> is_digit_char(s[i])
}

/// The base-10 value of the digit string `s` (0 when empty).
pub open spec fn digits_val(s: Seq<char>) -> nat
    decreases s.len(),
{
    if s.len() == 0 {
        0
    } else {
        digits_val(s.drop_last()) * 10 + digit_val(s.last())
    }
}

/// Whether `s` is a non-empty digit run whose value is at most `bound`.
pub open spec fn digits_in_bound(s: Seq<char>, bound: nat) -> bool {
    s.len() > 0 && all_digits(s) && digits_val(s) <= bound
}

/// Extending a digit string by one character multiplies its value by ten
/// and adds the new digit.
proof fn lemma_digits_val_take_step(s: Seq<char>, i: int)
    requires
        0 <= i < s.len(),
    ensures
        digits_val(s.take(i + 1)) == digits_val(s.take(i)) * 10 + digit_val(s[i]),
{
    assert(s.take(i + 1).drop_last() =~= s.take(i));
    assert(s.take(i + 1).last() == s[i]);
}

/// The value of a digit string never falls below the value of any prefix.
proof fn lemma_digits_val_prefix(s: Seq<char>, i: int)
    requires
        0 <= i <= s.len(),
    ensures
        digits_val(s.take(i)) <= digits_val(s),
    decreases s.len() - i,
{
    if i == s.len() {
        assert(s.take(i) =~= s);
    } else {
        lemma_digits_val_take_step(s, i);
        assert(digits_val(s.take(i)) * 10 >= digits_val(s.take(i)) * 1) by (nonlinear_arith);
        lemma_digits_val_prefix(s, i + 1);
    }
}

/// Parses the digit region `s[start..]` as a base-10 value of at most
/// `bound`, reporting failure exactly when the region is empty, holds a
/// non-digit, or exceeds the bound.
fn parse_digits(s: &str, start: usize, bound: u64) -> (r: Option<u64>)
    requires
        start <= s@.len(),
    ensures
        (r matches Some(n) ==> digits_in_bound(
            s@.subrange(start as int, s@.len() as int),
            bound as nat,
        ) && n == digits_val(s@.subrange(start as int, s@.len() as int))),
        r is None ==> !digits_in_bound(s@.subrange(start as int, s@.len() as int), bound as nat),
{
    let ghost region = s@.subrange(start as int, s@.len() as int);
    let len = s.unicode_len();
    if start == len {
        assert(region.len() == 0);
        return None;
    }
    let mut acc: u64 = 0;
    let mut i: usize = start;
    while i < len
        invariant
            start <= i <= len,
            len == s@.len(),
            start < len,
            region == s@.subrange(start as int, len as int),
            all_digits(region.take(i - start)),
            acc == digits_val(region.take(i - start)),
            acc <= bound,
        decreases len - i,
    {
        let c = s.get_char(i);
        assert(region[i - start] == s@[i as int]);
        if c < '0' || '9' < c {
            assert(!is_digit_char(region[i - start]));
            return None;
        }
        let d: u64 = (c as u32 - 48) as u64;
        assert(d == digit_val(c));
        assert(d <= 9);
        proof {
            lemma_digits_val_take_step(region, i - start);
        }
        if d > bound || acc > (bound - d) / 10 {
            proof {
                let ghost q = (bound - d) as u64 / 10;
                if d <= bound {
                    assert((bound - d) as u64 == q * 10 + (bound - d) as u64 % 10);
                    assert(acc >= q + 1);
                    assert(acc * 10 >= (q + 1) * 10) by (nonlinear_arith)
                        requires acc >= q + 1;
                    assert(acc * 10 + d > bound);
                }
                assert(digits_val(region.take(i - start + 1)) > bound);
                lemma_digits_val_prefix(region, i - start + 1);
            }
            return None;
        }
        proof {
            let ghost q = (bound - d) as u64 / 10;
            assert((bound - d) as u64 == q * 10 + (bound - d) as u64 % 10);
            assert(acc * 10 <= q * 10) by (nonlinear_arith)
                requires acc <= q;
        }
        acc = acc * 10 + d;
        assert(forall|j: int|
            0 <= j < i - start + 1 ==> is_digit_char(#[trigger] region.take(i - start + 1)[j]));
        i = i + 1;
    }
    assert(region.take(i - start) =~= region);
    Some(acc)
}

/// Parses `s` as a base-10 count for multiplicity expansion: a non-empty
/// digit run whose value fits in sixteen unsigned bits.
pub fn parse_count(s: &str) -> (r: Option<u16>)
    ensures
        (r matches Some(n) ==> digits_in_bound(s@, 65535) && n == digits_val(s@)),
        r is None ==> !digits_in_bound(s@, 65535),
{
    let len = s.unicode_len();
    assert(s@.subrange(0, s@.len() as int) =~= s@);
    match parse_digits(s, 0, 65535) {
        Some(v) => Some(v as u16),
        None => None,
    }
}

/// Whether `s` denotes a signed 64-bit integer: an optional leading minus
/// sign followed by a non-empty digit run whose value is representable.
pub open spec fn i64_lit_valid(s: Seq<char>) -> bool {
    if s.len() > 0 && s[0] == '-' {
        digits_in_bound(s.skip(1), 9223372036854775808)
    } else {
        digits_in_bound(s, 9223372036854775807)
    }
}

/// The signed 64-bit value that `s` denotes, when `i64_lit_valid(s)` holds.
pub open spec fn i64_lit_val(s: Seq<char>) -> int {
    if s.len() > 0 && s[0] == '-' {
        -(digits_val(s.skip(1)) as int)
    } else {
        digits_val(s) as int
    }
}

/// Parses `s` as a signed base-10 64-bit integer, reporting failure
/// exactly when `s` is not a representable signed literal.
pub fn parse_i64(s: &str) -> (r: Option<i64>)
    ensures
        (r matches Some(n) ==> i64_lit_valid(s@) && n as int == i64_lit_val(s@)),
        r is None ==> !i64_lit_valid(s@),
{
    let len = s.unicode_len();
    if len == 0 {
        return None;
    }
    let c0 = s.get_char(0);
    if c0 == '-' {
        assert(s@.subrange(1, s@.len() as int) =~= s@.skip(1));
        match parse_digits(s, 1, 9223372036854775808u64) {
            Some(m) => {
                if m == 9223372036854775808u64 {
                    Some(i64::MIN)
                } else {
                    Some(-(m as i64))
                }
            },
            None => None,
        }
    } else {
        assert(s@.subrange(0, s@.len() as int) =~= s@);
        match parse_digits(s, 0, 9223372036854775807u64) {
            Some(m) => Some(m as i64),
            None => None,
        }
    }
}

/// The character for the single digit `d`.
pub open spec fn digit_char(d: nat) -> char {
    if d == 0 { '0' }
    else if d == 1 { '1' }
    else if d == 2 { '2' }
    else if d == 3 { '3' }
    else if d == 4 { '4' }
    else if d == 5 { '5' }
    else if d == 6 { '6' }
    else if d == 7 { '7' }
    else if d == 8 { '8' }
    else { '9' }
}

/// The base-10 rendering of `n`, most significant digit first, with no
/// leading zeros (`0` renders as the single digit `0`).
pub open spec fn dec_rep(n: nat) -> Seq<char>
    decreases n,
{
    if n < 10 {
        seq![digit_char(n)]
    } else {
        dec_rep(n / 10).push(digit_char(n % 10))
    }
}

/// The one-character string for the single digit `d`.
fn digit_str(d: u16) -> (r: &'static str)
    requires
        d < 10,
    ensures
        r@ == seq![digit_char(d as nat)],
{
    proof {
        reveal_strlit("0");
        reveal_strlit("1");
        reveal_strlit("2");
        reveal_strlit("3");
        reveal_strlit("4");
        reveal_strlit("5");
        reveal_strlit("6");
        reveal_strlit("7");
        reveal_strlit("8");
        reveal_strlit("9");
    }
    if d == 0 {
        assert("0"@ =~= seq![digit_char(0)]);
        "0"
    } else if d == 1 {
        assert("1"@ =~= seq![digit_char(1)]);
        "1"
    } else if d == 2 {
        assert("2"@ =~= seq![digit_char(2)]);
        "2"
    } else if d == 3 {
        assert("3"@ =~= seq![digit_char(3)]);
        "3"
    } else if d == 4 {
        assert("4"@ =~= seq![digit_char(4)]);
        "4"
    } else if d == 5 {
        assert("5"@ =~= seq![digit_char(5)]);
        "5"
    } else if d == 6 {
        assert("6"@ =~= seq![digit_char(6)]);
        "6"
    } else if d == 7 {
        assert("7"@ =~= seq![digit_char(7)]);
        "7"
    } else if d == 8 {
        assert("8"@ =~= seq![digit_char(8)]);
        "8"
    } else {
        assert("9"@ =~= seq![digit_char(9)]);
        "9"
    }
}

/// Renders `n` in base 10, matching `dec_rep`.
pub fn render_dec(n: u16) -> (r: String)
    ensures
        r@ == dec_rep(n as nat),
    decreases n,
{
    if n < 10 {
        String::from_str(digit_str(n))
    } else {
        let mut prefix = render_dec(n / 10);
        prefix.append(digit_str(n % 10));
        assert(prefix@ =~= dec_rep(n as nat / 10).push(digit_char(n as nat % 10)));
        prefix
    }
}

/// The canonical identifier of instance `k` of a multiplicity-expanded
/// stage: the base identifier, an underscore, and the decimal index.
pub open spec fn suffixed_id_spec(base: Seq<char>, k: nat) -> Seq<char> {
    base + seq!['_'] + dec_rep(k)
}

/// Builds the suffixed canonical identifier for instance `k` of `base`.
pub fn suffixed_id(base: &str, k: u16) -> (r: String)
    ensures
        r@ == suffixed_id_spec(base@, k as nat),
{
    let mut r = String::from_str(base);
    proof {
        reveal_strlit("_");
    }
    assert("_"@ =~= seq!['_']);
    r.append("_");
    let digits = render_dec(k);
    r.append(digits.as_str());
    r
}

} // verus!
