//! Decimal parsing of option values.
//!
//! Every numeric option value is an unsigned decimal integer that must fit
//! in a byte. The grammar is given by [`spec_parse_u8`]: one or more decimal
//! digits denoting a value of at most 255. Anything else — an empty string,
//! a sign, a stray character, or a too-large value — is not a valid value.

use vstd::prelude::*;
use vstd::string::StrSliceExecFns;

verus! {

/// `c` is a decimal digit.
pub open spec fn is_digit(c: char) -> bool {
    '0' <= c && c <= '9'
}

/// The numeric value of the decimal digit `c`.
pub open spec fn digit_value(c: char) -> int {
    c as int - '0' as int
}

/// Every character of `s` is a decimal digit.
pub open spec fn all_digits(s: Seq<char>) -> bool {
    forall|i: int| 0 <= i < s.len() ==> #[trigger] is_digit(s[i])
}

/// The integer denoted by a sequence of decimal digits, most significant
/// digit first.
pub open spec fn decimal_value(s: Seq<char>) -> int
    decreases s.len(),
{
    if s.len() == 0 {
        0
    } else {
        decimal_value(s.drop_last()) * 10 + digit_value(s.last())
    }
}

/// What parsing an option value accepts: one or more decimal digits whose
/// value fits in a byte.
pub open spec fn spec_parse_u8(s: Seq<char>) -> Option<u8> {
    if s.len() > 0 && all_digits(s) && decimal_value(s) <= 255 {
        Some(decimal_value(s) as u8)
    } else {
        None
    }
}

/// A sequence of digits denotes a non-negative value.
pub proof fn lemma_decimal_value_nonneg(s: Seq<char>)
    requires
        all_digits(s),
    ensures
        decimal_value(s) >= 0,
    decreases s.len(),
{
    if s.len() > 0 {
        assert(all_digits(s.drop_last()));
        lemma_decimal_value_nonneg(s.drop_last());
        assert(is_digit(s[s.len() - 1]));
        assert(digit_value(s.last()) >= 0);
    }
}

/// Extending a digit string to the right never decreases its value.
pub proof fn lemma_decimal_value_prefix(s: Seq<char>, i: int)
    requires
        all_digits(s),
        0 <= i <= s.len(),
    ensures
        decimal_value(s.take(i)) <= decimal_value(s),
    decreases s.len() - i,
{
    if i < s.len() {
        let t = s.drop_last();
        assert(all_digits(t));
        assert(s.take(i) =~= t.take(i));
        lemma_decimal_value_prefix(t, i);
        lemma_decimal_value_nonneg(t);
        assert(is_digit(s[s.len() - 1]));
        assert(digit_value(s.last()) >= 0);
        assert(decimal_value(t) * 10 >= decimal_value(t));
    } else {
        assert(s.take(i) =~= s);
    }
}

/// Parses `s` as an unsigned decimal integer fitting in a byte, per
/// [`spec_parse_u8`].
pub fn parse_u8(s: &str) -> (r: Option<u8>)
    ensures
        r == spec_parse_u8(s@),
{
    let n: usize = s.unicode_len();
    if n == 0 {
        return None;
    }
    let mut acc: u32 = 0;
    let mut i: usize = 0;
    while i < n
        invariant
            n == s@.len(),
            0 <= i <= n,
            all_digits(s@.take(i as int)),
            acc == decimal_value(s@.take(i as int)),
            acc <= 255,
        decreases n - i,
    {
        let c: char = s.get_char(i);
        let cv: u32 = c as u32;
        if cv < 48 || cv > 57 {
            proof {
                assert(!is_digit(s@[i as int]));
                assert(!all_digits(s@));
            }
            return None;
        }
        let d: u32 = cv - 48;
        proof {
            assert(s@.take(i + 1).drop_last() =~= s@.take(i as int));
            assert(s@.take(i + 1).last() == s@[i as int]);
            assert(is_digit(s@[i as int]));
            assert(all_digits(s@.take(i + 1)));
            assert(decimal_value(s@.take(i + 1)) == acc * 10 + d);
        }
        let next: u32 = acc * 10 + d;
        if next > 255 {
            proof {
                if all_digits(s@) {
                    lemma_decimal_value_prefix(s@, i + 1);
                }
            }
            return None;
        }
        acc = next;
        i = i + 1;
    }
    proof {
        assert(s@.take(n as int) =~= s@);
    }
    Some(acc as u8)
}

} // verus!
