//! Parsing of identity strings from the wire.
//!
//! Commands name their recipient as a decimal string; an unparseable string
//! names the unset (sentinel) identity zero, which never matches a live
//! registration, so routing to it reports a miss.

use vstd::prelude::*;
use vstd::string::StrSliceExecFns;

verus! {

/// A decimal digit character.
pub open spec fn is_dec_digit(c: char) -> bool {
    48 <= c as u32 <= 57
}

/// The numeric value of one decimal digit character.
pub open spec fn digit_value(c: char) -> nat {
    ((c as u32) - 48) as nat
}

/// Every character of `s` is a decimal digit.
pub open spec fn all_dec_digits(s: Seq<char>) -> bool {
    forall|i: int| 0 <= i < s.len() ==> is_dec_digit(#[trigger] s[i])
}

/// The number written by a sequence of decimal digits, most significant first.
pub open spec fn digits_value(s: Seq<char>) -> nat
    decreases s.len(),
{
    if s.len() == 0 {
        0
    } else {
        digits_value(s.drop_last()) * 10 + digit_value(s.last())
    }
}

/// The digit portion of an identity string: what follows an optional leading
/// plus sign.
pub open spec fn digits_part(s: Seq<char>) -> Seq<char> {
    if s.len() > 0 && s[0] == '+' {
        s.subrange(1, s.len() as int)
    } else {
        s
    }
}

/// An identity string is accepted exactly when `usize::from_str` would accept
/// it: an optional plus sign, then at least one decimal digit, naming a value
/// that fits in `usize`.
pub open spec fn is_valid_identity_str(s: Seq<char>) -> bool {
    &&& digits_part(s).len() > 0
    &&& all_dec_digits(digits_part(s))
    &&& digits_value(digits_part(s)) <= usize::MAX
}

/// The identity named by a wire string; rejected strings name the sentinel
/// identity zero.
pub open spec fn identity_of_str(s: Seq<char>) -> usize {
    if is_valid_identity_str(s) {
        digits_value(digits_part(s)) as usize
    } else {
        0
    }
}

/// Dropping a suffix of a digit string can only shrink its value.
proof fn lemma_digits_value_prefix_le(s: Seq<char>, k: int)
    requires
        0 <= k <= s.len(),
    ensures
        digits_value(s.subrange(0, k)) <= digits_value(s),
    decreases s.len() - k,
{
    if k == s.len() {
        assert(s.subrange(0, k) =~= s);
    } else {
        let shorter = s.subrange(0, k);
        let longer = s.subrange(0, k + 1);
        assert(longer.drop_last() =~= shorter);
        assert(digits_value(longer) == digits_value(shorter) * 10 + digit_value(longer.last()));
        assert(digits_value(shorter) <= digits_value(shorter) * 10) by (nonlinear_arith);
        lemma_digits_value_prefix_le(s, k + 1);
    }
}

/// Parse a wire identity string as `usize::from_str(..).unwrap_or(0)` does:
/// the named identity if the string is a well-formed decimal number that fits
/// in `usize`, and the sentinel identity zero otherwise.
pub fn parse_identity(s: &str) -> (id: usize)
    ensures
        id == identity_of_str(s@),
{
    let len = s.unicode_len();
    let start: usize = if len > 0 && s.get_char(0) == '+' {
        1
    } else {
        0
    };
    if start >= len {
        // empty string, or a lone plus sign: no digits at all
        assert(digits_part(s@).len() == 0);
        return 0;
    }
    let ghost dp = digits_part(s@);
    assert(dp =~= s@.subrange(start as int, len as int));
    let mut acc: usize = 0;
    let mut i: usize = start;
    while i < len
        invariant
            start <= i <= len,
            len == s@.len(),
            start < len,
            start == 1 ==> s@[0] == '+',
            start == 0 ==> !(s@.len() > 0 && s@[0] == '+'),
            dp == digits_part(s@),
            dp =~= s@.subrange(start as int, len as int),
            all_dec_digits(s@.subrange(start as int, i as int)),
            acc == digits_value(s@.subrange(start as int, i as int)),
        decreases len - i,
    {
        let c = s.get_char(i);
        let cu = c as u32;
        let ghost prefix = s@.subrange(start as int, i as int);
        let ghost extended = s@.subrange(start as int, i as int + 1);
        assert(extended.drop_last() =~= prefix);
        assert(extended.last() == s@[i as int]);
        if cu < 48 || cu > 57 {
            // a non-digit character: the whole string is rejected
            assert(dp[i - start] == s@[i as int]);
            assert(!all_dec_digits(dp));
            return 0;
        }
        let d = (cu - 48) as usize;
        if acc > (usize::MAX - d) / 10 {
            // the number does not fit in usize: the string is rejected
            proof {
                assert(acc * 10 + d > usize::MAX) by (nonlinear_arith)
                    requires
                        acc > (usize::MAX - d) / 10,
                        d <= usize::MAX,
                ;
                assert(digits_value(extended) == acc * 10 + d);
                if all_dec_digits(dp) {
                    assert(extended =~= dp.subrange(0, i - start + 1));
                    lemma_digits_value_prefix_le(dp, i - start + 1);
                    assert(digits_value(dp) > usize::MAX);
                }
            }
            return 0;
        }
        proof {
            assert(acc * 10 + d <= usize::MAX) by (nonlinear_arith)
                requires
                    acc <= (usize::MAX - d) / 10,
                    d <= usize::MAX,
            ;
            assert forall|j: int| 0 <= j < extended.len() implies is_dec_digit(extended[j]) by {
                if j < extended.len() - 1 {
                    assert(extended[j] == prefix[j]);
                }
            }
        }
        acc = acc * 10 + d;
        i = i + 1;
    }
    assert(s@.subrange(start as int, len as int) =~= dp);
    assert(is_valid_identity_str(s@));
    acc
}

} // verus!
