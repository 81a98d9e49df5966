//! Parsing of numeric command-line values that may be unbounded.

use vstd::prelude::*;
use vstd::string::StringSliceAdditionalSpecFns;

verus! {

/// ASCII codes of the bytes the parser reads.
pub const LOWER_I: u8 = 105;

pub const LOWER_N: u8 = 110;

pub const LOWER_F: u8 = 102;

pub const DIGIT_ZERO: u8 = 48;

pub const DIGIT_NINE: u8 = 57;

/// The three bytes of the literal `"inf"`.
pub open spec fn is_infinity_word(s: Seq<u8>) -> bool {
    s =~= seq![LOWER_I, LOWER_N, LOWER_F]
}

/// True when `s` is a nonempty string of decimal digits.
pub open spec fn is_decimal(s: Seq<u8>) -> bool {
    &&& s.len() > 0
    &&& forall|i: int| 0 <= i < s.len() ==> DIGIT_ZERO <= #[trigger] s[i] <= DIGIT_NINE
}

/// The number a string of decimal digits denotes.
pub open spec fn decimal_value(s: Seq<u8>) -> int
    decreases s.len(),
{
    if s.len() == 0 {
        0
    } else {
        decimal_value(s.drop_last()) * 10 + (s.last() - DIGIT_ZERO)
    }
}

/// The value of a digit string is nonnegative and no digit prefix of it
/// denotes more than the whole string.
proof fn lemma_decimal_prefix_le(s: Seq<u8>, i: int)
    requires
        forall|j: int| 0 <= j < s.len() ==> DIGIT_ZERO <= #[trigger] s[j] <= DIGIT_NINE,
        0 <= i <= s.len(),
    ensures
        0 <= decimal_value(s.take(i)) <= decimal_value(s),
    decreases s.len() - i,
{
    lemma_decimal_nonneg(s.take(i));
    if i == s.len() {
        assert(s.take(i) =~= s);
    } else {
        assert(s.take(i + 1).drop_last() =~= s.take(i));
        assert(decimal_value(s.take(i + 1)) == decimal_value(s.take(i)) * 10 + (s[i] - DIGIT_ZERO));
        lemma_decimal_prefix_le(s, i + 1);
    }
}

/// A digit string denotes a nonnegative number.
proof fn lemma_decimal_nonneg(s: Seq<u8>)
    requires
        forall|j: int| 0 <= j < s.len() ==> DIGIT_ZERO <= #[trigger] s[j] <= DIGIT_NINE,
    ensures
        decimal_value(s) >= 0,
    decreases s.len(),
{
    if s.len() > 0 {
        lemma_decimal_nonneg(s.drop_last());
    }
}

/// Reads a bound that may be infinite: the word `inf` means no bound,
/// and a string of digits means itself.  Anything else is a fatal
/// configuration error, as is a number too large for the machine.
pub fn match_infinity(input: &str) -> (r: Option<usize>)
    requires
        is_infinity_word(input.spec_bytes()) || (is_decimal(input.spec_bytes())
            && decimal_value(input.spec_bytes()) <= usize::MAX),
    ensures
        is_infinity_word(input.spec_bytes()) <==> r is None,
        r matches Some(v) ==> v == decimal_value(input.spec_bytes()),
{
    let bytes = input.as_bytes();
    if bytes.len() == 3 && bytes[0] == LOWER_I && bytes[1] == LOWER_N && bytes[2] == LOWER_F {
        proof {
            assert(input.spec_bytes() =~= seq![LOWER_I, LOWER_N, LOWER_F]);
        }
        return None;
    }
    let ghost s = input.spec_bytes();
    let mut acc: usize = 0;
    let mut i: usize = 0;
    proof {
        assert(s.take(0int) =~= Seq::<u8>::empty());
    }
    while i < bytes.len()
        invariant
            bytes@ == s,
            is_decimal(s),
            decimal_value(s) <= usize::MAX,
            i <= s.len(),
            acc == decimal_value(s.take(i as int)),
        decreases s.len() - i,
    {
        let d = bytes[i];
        proof {
            assert(s.take(i + 1).drop_last() =~= s.take(i as int));
            lemma_decimal_prefix_le(s, i + 1);
            lemma_decimal_nonneg(s.take(i as int));
        }
        acc = acc * 10 + (d - DIGIT_ZERO) as usize;
        i = i + 1;
    }
    proof {
        assert(s.take(s.len() as int) =~= s);
    }
    Some(acc)
}

} // verus!

