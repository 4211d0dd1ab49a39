//! Checksum validation of Taiwanese business uniform numbers.
//!
//! A uniform number is eight decimal digits. Each digit is multiplied by the
//! weight of its position, the two digits of each product are added, and the
//! eight results are summed. The number is valid when that sum is a multiple
//! of ten, or when it leaves remainder seven and the seventh digit is a seven.
use vstd::prelude::*;

pub mod command;

verus! {

/// The multiplier of each of the eight positions, left to right.
pub open spec fn position_weights() -> Seq<int> {
    seq![1, 2, 1, 2, 1, 2, 4, 1]
}

/// An ASCII decimal digit.
pub open spec fn is_digit(c: char) -> bool {
    '0' <= c && c <= '9'
}

/// The value of a decimal digit character.
pub open spec fn digit_value(c: char) -> int {
    c as int - '0' as int
}

/// The sum of the tens digit and the units digit of a product.
pub open spec fn fold_product(p: int) -> int {
    p / 10 + p % 10
}

/// The folded, weighted contributions of the first `n` characters of `s`.
pub open spec fn weighted_sum(s: Seq<char>, n: int) -> int
    decreases n,
{
    if n <= 0 {
        0
    } else {
        weighted_sum(s, n - 1) + fold_product(digit_value(s[n - 1]) * position_weights()[n - 1])
    }
}

/// Exactly eight characters, each a decimal digit.
pub open spec fn well_formed(s: Seq<char>) -> bool {
    &&& s.len() == 8
    &&& forall|i: int| 0 <= i < 8 ==> is_digit(#[trigger] s[i])
}

/// The checksum of an eight-digit string.
pub open spec fn checksum(s: Seq<char>) -> int {
    weighted_sum(s, 8)
}

/// A valid uniform number: well formed, and its checksum is a multiple of ten,
/// or leaves remainder seven while the seventh digit is `7`.
pub open spec fn is_valid(s: Seq<char>) -> bool {
    &&& well_formed(s)
    &&& (checksum(s) % 10 == 0 || (checksum(s) % 10 == 7 && s[6] == '7'))
}

/// Tells whether `number` is a valid uniform number. Input that is not
/// eight decimal digits is not valid.
pub fn is_valid_uniform_number(number: &str) -> (r: bool)
    ensures
        r == is_valid(number@),
        number@.len() != 8 ==> !r,
        (exists|i: int| 0 <= i < number@.len() && !is_digit(#[trigger] number@[i])) ==> !r,
{
    let n: usize = number.unicode_len();
    if n != 8 {
        return false;
    }
    let mut i: usize = 0;
    while i < 8
        invariant
            i <= 8,
            number@.len() == 8,
            forall|j: int| 0 <= j < i ==> is_digit(#[trigger] number@[j]),
        decreases 8 - i,
    {
        let c: char = number.get_char(i);
        if !('0' <= c && c <= '9') {
            return false;
        }
        i += 1;
    }
    let weights: [u32; 8] = [1, 2, 1, 2, 1, 2, 4, 1];
    assert(weights@.map_values(|w: u32| w as int) =~= position_weights());
    let mut sum: u32 = 0;
    i = 0;
    while i < 8
        invariant
            i <= 8,
            well_formed(number@),
            weights@.map_values(|w: u32| w as int) == position_weights(),
            sum == weighted_sum(number@, i as int),
            sum <= 12 * i,
        decreases 8 - i,
    {
        let c: char = number.get_char(i);
        assert(is_digit(number@[i as int]));
        let digit: u32 = c as u32 - '0' as u32;
        let w: u32 = weights[i];
        assert(w == position_weights()[i as int]);
        assert(digit * w <= 36) by (nonlinear_arith)
            requires digit <= 9, w <= 4;
        let product: u32 = digit * w;
        sum = sum + product / 10 + product % 10;
        i += 1;
    }
    if sum % 10 == 0 {
        return true;
    }
    let seventh: char = number.get_char(6);
    sum % 10 == 7 && seventh == '7'
}

/// The verdict is a function of the input's characters alone: asking again,
/// or asking about another string with the same characters, gives the same
/// answer.
pub proof fn lemma_verdict_depends_only_on_input(a: &str, b: &str)
    requires
        a@ == b@,
    ensures
        is_valid(a@) == is_valid(b@),
{
}

} // verus!
