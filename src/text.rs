//! Decimal text: writing a nonce in base ten, and recognising a balance that
//! is a positive decimal number.

use vstd::prelude::*;
use vstd::string::{StrSliceExecFns, StringExecFns};

verus! {

/// The character of a decimal digit.
pub open spec fn digit_char(d: nat) -> char
    recommends
        d < 10,
{
    if d == 0 {
        '0'
    } else if d == 1 {
        '1'
    } else if d == 2 {
        '2'
    } else if d == 3 {
        '3'
    } else if d == 4 {
        '4'
    } else if d == 5 {
        '5'
    } else if d == 6 {
        '6'
    } else if d == 7 {
        '7'
    } else if d == 8 {
        '8'
    } else {
        '9'
    }
}

/// A natural number in base ten, without leading zeros.
pub open spec fn nat_text(n: nat) -> Seq<char>
    decreases n,
{
    if n < 10 {
        seq![digit_char(n)]
    } else {
        nat_text(n / 10).push(digit_char(n % 10))
    }
}

/// An integer in base ten, with a leading `-` when it is negative.
pub open spec fn int_text(n: int) -> Seq<char> {
    if n < 0 {
        seq!['-'] + nat_text((-n) as nat)
    } else {
        nat_text(n as nat)
    }
}

fn digit_str(d: u64) -> (r: &'static str)
    requires
        d < 10,
    ensures
        r@ == seq![digit_char(d as nat)],
{
    proof {
        reveal_strlit("0");
        reveal_strlit("1");
        reveal_strlit("2");
        reveal_strlit("3");
        reveal_strlit("4");
        reveal_strlit("5");
        reveal_strlit("6");
        reveal_strlit("7");
        reveal_strlit("8");
        reveal_strlit("9");
    }
    let r = if d == 0 {
        "0"
    } else if d == 1 {
        "1"
    } else if d == 2 {
        "2"
    } else if d == 3 {
        "3"
    } else if d == 4 {
        "4"
    } else if d == 5 {
        "5"
    } else if d == 6 {
        "6"
    } else if d == 7 {
        "7"
    } else if d == 8 {
        "8"
    } else {
        "9"
    };
    assert(r@ =~= seq![digit_char(d as nat)]);
    r
}

fn append_nat(out: &mut String, n: u64)
    ensures
        final(out)@ == old(out)@ + nat_text(n as nat),
    decreases n,
{
    if n >= 10 {
        append_nat(out, n / 10);
    }
    out.append(digit_str(n % 10));
    assert(final(out)@ =~= old(out)@ + nat_text(n as nat));
}

/// The base-ten text of an integer, as `format!("{}", n)` writes it.
pub fn int_to_text(n: i64) -> (r: String)
    ensures
        r@ == int_text(n as int),
{
    let mut out = String::new();
    if n < 0 {
        proof {
            reveal_strlit("-");
        }
        out.append("-");
        let magnitude: u64 = (0i128 - n as i128) as u64;
        append_nat(&mut out, magnitude);
    } else {
        append_nat(&mut out, n as u64);
    }
    assert(out@ =~= int_text(n as int));
    out
}

/// A decimal digit character.
pub open spec fn is_digit(c: char) -> bool {
    '0' <= c && c <= '9'
}

/// The text after an optional leading `+`.
pub open spec fn unsigned_part(s: Seq<char>) -> Seq<char> {
    if s.len() > 0 && s[0] == '+' {
        s.skip(1)
    } else {
        s
    }
}

/// Text that reads as a decimal number greater than zero: an optional `+`,
/// then digits with at most one decimal point, at least one digit of which
/// is not zero (`3.2`, `0.5`, `7.`, `+.1`; not `0.0`, `-1`, `1e3` or `inf`).
pub open spec fn is_positive_decimal(s: Seq<char>) -> bool {
    let u = unsigned_part(s);
    &&& forall|i: int| 0 <= i < u.len() ==> is_digit(#[trigger] u[i]) || u[i] == '.'
    &&& forall|i: int, j: int|
        0 <= i < u.len() && 0 <= j < u.len() && #[trigger] u[i] == '.' && #[trigger] u[j] == '.'
            ==> i == j
    &&& exists|i: int| 0 <= i < u.len() && is_digit(#[trigger] u[i]) && u[i] != '0'
}

/// Whether the text reads as a decimal number greater than zero.
pub fn positive_decimal(s: &str) -> (r: bool)
    ensures
        r == is_positive_decimal(s@),
{
    let len = s.unicode_len();
    let start: usize = if len > 0 && s.get_char(0) == '+' {
        1
    } else {
        0
    };
    let ghost u = unsigned_part(s@);
    assert(u =~= s@.skip(start as int));
    let mut seen_point = false;
    let mut seen_nonzero = false;
    let mut i: usize = start;
    while i < len
        invariant
            start <= i <= len,
            len == s@.len(),
            u == unsigned_part(s@),
            u =~= s@.skip(start as int),
            forall|k: int| 0 <= k < i - start ==> is_digit(#[trigger] u[k]) || u[k] == '.',
            seen_point <==> exists|k: int| 0 <= k < i - start && #[trigger] u[k] == '.',
            forall|k: int, m: int|
                0 <= k < i - start && 0 <= m < i - start && #[trigger] u[k] == '.'
                    && #[trigger] u[m] == '.' ==> k == m,
            seen_nonzero <==> exists|k: int|
                0 <= k < i - start && is_digit(#[trigger] u[k]) && u[k] != '0',
        decreases len - i,
    {
        let c = s.get_char(i);
        assert(u.len() == len - start);
        assert(c == u[i - start]);
        if c == '.' {
            if seen_point {
                let ghost k = choose|k: int| 0 <= k < i - start && #[trigger] u[k] == '.';
                assert(u[k] == '.' && u[i - start] == '.' && k != i - start);
                assert(!is_positive_decimal(s@));
                return false;
            }
            seen_point = true;
        } else if '0' <= c && c <= '9' {
            if c != '0' {
                seen_nonzero = true;
            }
        } else {
            let ghost j = i - start;
            assert(!(is_digit(u[j]) || u[j] == '.'));
            assert(!is_positive_decimal(s@));
            return false;
        }
        i = i + 1;
    }
    seen_nonzero
}

} // verus!
