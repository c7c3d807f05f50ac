//! Decimal representation of process ids.
//!
//! The metadata file stores the primary's process id as decimal text. This
//! module defines the mathematical decimal representation, an executable
//! encoder and parser proved against it, and the round-trip laws the
//! metadata store relies on.

use vstd::prelude::*;
use vstd::string::{StrSliceExecFns, StringExecFns};

verus! {

/// Whether `c` is a decimal digit.
pub open spec fn is_digit(c: char) -> bool {
    48 <= c as u32 && c as u32 <= 57
}

/// The numeric value of the digit `c`.
pub open spec fn digit_val(c: char) -> nat {
    (c as u32 - 48) as nat
}

/// The digit character for a value below ten.
pub open spec fn char_of_digit(d: nat) -> char {
    if d == 0 {
        '0'
    } else if d == 1 {
        '1'
    } else if d == 2 {
        '2'
    } else if d == 3 {
        '3'
    } else if d == 4 {
        '4'
    } else if d == 5 {
        '5'
    } else if d == 6 {
        '6'
    } else if d == 7 {
        '7'
    } else if d == 8 {
        '8'
    } else {
        '9'
    }
}

/// The decimal representation of `n`, most significant digit first, with no
/// sign and no leading zero (except for `n == 0` itself).
pub open spec fn dec_rep(n: nat) -> Seq<char>
    decreases n,
{
    if n < 10 {
        seq![char_of_digit(n)]
    } else {
        dec_rep(n / 10).push(char_of_digit(n % 10))
    }
}

/// Whether every character of `s` is a decimal digit.
pub open spec fn all_digits(s: Seq<char>) -> bool {
    forall|i: int| 0 <= i < s.len() ==> is_digit(#[trigger] s[i])
}

/// The numeric value of the digit string `s`, most significant digit first.
pub open spec fn dec_val(s: Seq<char>) -> nat
    decreases s.len(),
{
    if s.len() == 0 {
        0
    } else {
        dec_val(s.drop_last()) * 10 + digit_val(s.last())
    }
}

/// What parsing `s` as an unsigned 32-bit decimal number yields: the value
/// when `s` is a non-empty string of digits whose value fits, nothing
/// otherwise.
pub open spec fn dec_parse(s: Seq<char>) -> Option<u32> {
    if s.len() > 0 && all_digits(s) && dec_val(s) <= u32::MAX {
        Some(dec_val(s) as u32)
    } else {
        None
    }
}

/// The one-character string for a digit value.
fn digit_str(d: u32) -> (r: &'static str)
    requires
        d < 10,
    ensures
        r@ =~= seq![char_of_digit(d as nat)],
{
    proof {
        reveal_strlit("0");
        reveal_strlit("1");
        reveal_strlit("2");
        reveal_strlit("3");
        reveal_strlit("4");
        reveal_strlit("5");
        reveal_strlit("6");
        reveal_strlit("7");
        reveal_strlit("8");
        reveal_strlit("9");
    }
    if d == 0 {
        "0"
    } else if d == 1 {
        "1"
    } else if d == 2 {
        "2"
    } else if d == 3 {
        "3"
    } else if d == 4 {
        "4"
    } else if d == 5 {
        "5"
    } else if d == 6 {
        "6"
    } else if d == 7 {
        "7"
    } else if d == 8 {
        "8"
    } else {
        "9"
    }
}

/// Encodes `n` as decimal text.
pub fn encode_u32(n: u32) -> (r: String)
    ensures
        r@ == dec_rep(n as nat),
    decreases n,
{
    if n < 10 {
        let s = digit_str(n).to_owned();
        proof {
            assert(s@ =~= dec_rep(n as nat));
        }
        s
    } else {
        let mut s = encode_u32(n / 10);
        s.append(digit_str(n % 10));
        proof {
            assert(s@ =~= dec_rep(n as nat));
        }
        s
    }
}

/// Parses `s` as an unsigned 32-bit decimal number, accepting exactly the
/// non-empty all-digit strings whose value fits.
pub fn parse_u32(s: &str) -> (r: Option<u32>)
    ensures
        r == dec_parse(s@),
{
    let n = s.unicode_len();
    if n == 0 {
        return None;
    }
    let mut val: u32 = 0;
    let mut i: usize = 0;
    while i < n
        invariant
            0 <= i <= n,
            n == s@.len(),
            all_digits(s@.subrange(0, i as int)),
            val == dec_val(s@.subrange(0, i as int)),
        decreases n - i,
    {
        let c = s.get_char(i);
        let cu = c as u32;
        if cu < 48 || cu > 57 {
            assert(!is_digit(s@[i as int]));
            return None;
        }
        let d = cu - 48;
        if val > (u32::MAX - d) / 10 {
            proof {
                lemma_prefix_overflow(s@, i as int, val as nat, d as nat);
            }
            return None;
        }
        proof {
            assert(s@.subrange(0, i + 1).drop_last() =~= s@.subrange(0, i as int));
            assert(s@.subrange(0, i + 1).last() == s@[i as int]);
            assert((val * 10 + d) <= u32::MAX) by (nonlinear_arith)
                requires
                    d < 10,
                    val <= (u32::MAX - d) / 10,
            ;
        }
        val = val * 10 + d;
        i = i + 1;
    }
    proof {
        assert(s@.subrange(0, n as int) =~= s@);
    }
    Some(val)
}

/// A digit string whose prefix already overflows has a value that overflows:
/// used when the parser rejects early.
proof fn lemma_prefix_overflow(s: Seq<char>, i: int, val: nat, d: nat)
    requires
        0 <= i < s.len(),
        all_digits(s.subrange(0, i)),
        val == dec_val(s.subrange(0, i)),
        d == digit_val(s[i]),
        d < 10,
        val > (u32::MAX - d) / 10,
    ensures
        dec_parse(s) is None,
{
    assert(s.subrange(0, i + 1).drop_last() =~= s.subrange(0, i));
    assert(s.subrange(0, i + 1).last() == s[i]);
    assert(dec_val(s.subrange(0, i + 1)) == val * 10 + d);
    assert(val * 10 + d > u32::MAX) by (nonlinear_arith)
        requires
            d < 10,
            val > (u32::MAX - d) / 10,
    ;
    lemma_dec_val_prefix_le(s, i + 1);
    assert(dec_val(s) > u32::MAX);
}

/// The value of a digit string is at least the value of any of its prefixes.
proof fn lemma_dec_val_prefix_le(s: Seq<char>, i: int)
    requires
        0 <= i <= s.len(),
    ensures
        dec_val(s.subrange(0, i)) <= dec_val(s),
    decreases s.len() - i,
{
    if i == s.len() {
        assert(s.subrange(0, i) =~= s);
    } else {
        lemma_dec_val_prefix_le(s, i + 1);
        let t = s.subrange(0, i + 1);
        assert(t.drop_last() =~= s.subrange(0, i));
        assert(dec_val(t) == dec_val(s.subrange(0, i)) * 10 + digit_val(s[i]));
        assert(dec_val(s.subrange(0, i)) <= dec_val(s.subrange(0, i)) * 10) by (nonlinear_arith);
    }
}

/// The decimal representation of any number consists of digits only.
pub proof fn lemma_dec_rep_digits(n: nat)
    ensures
        dec_rep(n).len() > 0,
        all_digits(dec_rep(n)),
    decreases n,
{
    if n < 10 {
        assert(is_digit(dec_rep(n)[0]));
    } else {
        lemma_dec_rep_digits(n / 10);
        let s = dec_rep(n);
        assert forall|i: int| 0 <= i < s.len() implies is_digit(#[trigger] s[i]) by {
            if i < s.len() - 1 {
                assert(s[i] == dec_rep(n / 10)[i]);
            }
        }
    }
}

/// Round trip: parsing the decimal representation of a 32-bit number gives
/// that number back.
pub proof fn lemma_dec_rep_round_trip(n: u32)
    ensures
        dec_parse(dec_rep(n as nat)) == Some(n),
{
    lemma_dec_rep_digits(n as nat);
    lemma_dec_val_of_rep(n as nat);
}

/// The value of the decimal representation of `n` is `n`.
proof fn lemma_dec_val_of_rep(n: nat)
    ensures
        dec_val(dec_rep(n)) == n,
    decreases n,
{
    if n < 10 {
        let s = dec_rep(n);
        assert(s.drop_last() =~= Seq::<char>::empty());
        assert(dec_val(Seq::<char>::empty()) == 0);
        assert(s.last() == char_of_digit(n));
        assert(dec_val(s) == dec_val(s.drop_last()) * 10 + digit_val(s.last()));
    } else {
        lemma_dec_val_of_rep(n / 10);
        let s = dec_rep(n);
        assert(s.drop_last() =~= dec_rep(n / 10));
        assert(dec_val(s) == (n / 10) * 10 + digit_val(char_of_digit(n % 10)));
        assert(digit_val(char_of_digit(n % 10)) == n % 10);
        assert((n / 10) * 10 + n % 10 == n) by (nonlinear_arith);
    }
}

/// No digit is a newline, so a decimal representation never contains one.
pub proof fn lemma_dec_rep_no_newline(n: nat)
    ensures
        forall|i: int| 0 <= i < dec_rep(n).len() ==> dec_rep(n)[i] != '\n',
{
    lemma_dec_rep_digits(n);
    assert forall|i: int| 0 <= i < dec_rep(n).len() implies #[trigger] dec_rep(n)[i] != '\n' by {
        assert(is_digit(dec_rep(n)[i]));
    }
}

} // verus!
