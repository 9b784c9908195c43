//! A count of retries without an upper bound.
//!
//! A roam or a reconnect may retry its authentication any number of times,
//! and the count is written into the note of its outcome. The count is held
//! as its decimal digits, so that it never overflows and its numeral is at
//! hand.

use crate::text::{decimal, digit_char, hex_digit_str};
use vstd::prelude::*;

verus! {

/// The number that decimal digits stand for, the most significant first.
pub open spec fn digits_value(digits: Seq<u8>) -> nat
    decreases digits.len(),
{
    if digits.len() == 0 {
        0
    } else {
        digits_value(digits.drop_last()) * 10 + digits.last() as nat
    }
}

/// Whether the digits are the numeral of a number: at least one digit, each
/// at most nine, and no leading zero but in the numeral of zero.
pub open spec fn is_numeral(digits: Seq<u8>) -> bool {
    &&& digits.len() >= 1
    &&& forall|i: int| 0 <= i < digits.len() ==> #[trigger] digits[i] <= 9
    &&& digits.len() > 1 ==> digits[0] != 0
}

/// The characters of the digits.
pub open spec fn digit_chars(digits: Seq<u8>) -> Seq<char> {
    digits.map_values(|d: u8| digit_char(d as int))
}

/// A numeral whose first digit is not zero stands for a positive number,
/// and the numeral of a positive number does not begin with zero.
proof fn lemma_leading_digit(digits: Seq<u8>)
    requires
        is_numeral(digits),
    ensures
        digits[0] != 0 <==> digits_value(digits) >= 1,
        digits.len() > 1 ==> digits_value(digits) >= 10,
    decreases digits.len(),
{
    if digits.len() == 1 {
        assert(digits.drop_last() =~= Seq::<u8>::empty());
        assert(digits_value(digits.drop_last()) == 0);
    } else {
        let front = digits.drop_last();
        assert(front[0] == digits[0]);
        assert(is_numeral(front)) by {
            assert forall|i: int| 0 <= i < front.len() implies #[trigger] front[i] <= 9 by {
                assert(front[i] == digits[i]);
            }
            if front.len() > 1 {
                assert(front[0] != 0);
            }
        }
        lemma_leading_digit(front);
    }
}

/// The digits of a numeral, as characters, are the decimal numeral of the
/// number that it stands for.
pub proof fn lemma_numeral_is_decimal(digits: Seq<u8>)
    requires
        is_numeral(digits),
    ensures
        digit_chars(digits) == decimal(digits_value(digits)),
    decreases digits.len(),
{
    let n = digits_value(digits);
    if digits.len() == 1 {
        assert(digits.drop_last() =~= Seq::<u8>::empty());
        assert(digits_value(digits.drop_last()) == 0);
        assert(digit_chars(digits) =~= seq![digit_char(digits[0] as int)]);
    } else {
        let front = digits.drop_last();
        assert(front[0] == digits[0]);
        assert(is_numeral(front)) by {
            assert forall|i: int| 0 <= i < front.len() implies #[trigger] front[i] <= 9 by {
                assert(front[i] == digits[i]);
            }
        }
        lemma_leading_digit(front);
        lemma_numeral_is_decimal(front);
        assert(digits.last() <= 9);
        assert(n / 10 == digits_value(front) && n % 10 == digits.last());
        assert(digit_chars(digits) =~= digit_chars(front).push(digit_char(digits.last() as int)));
    }
}

/// The numeral of `n`.
fn numeral_of(n: u64) -> (digits: Vec<u8>)
    ensures
        is_numeral(digits@),
        digits_value(digits@) == n,
    decreases n,
{
    if n < 10 {
        let mut digits: Vec<u8> = Vec::new();
        digits.push(n as u8);
        assert(digits@.drop_last() =~= Seq::<u8>::empty());
        assert(digits_value(digits@.drop_last()) == 0);
        digits
    } else {
        let mut digits = numeral_of(n / 10);
        let ghost front = digits@;
        proof {
            lemma_leading_digit(front);
        }
        digits.push((n % 10) as u8);
        assert(digits@.drop_last() =~= front);
        assert(digits@[0] == front[0]);
        digits
    }
}

/// Adds one to the number that the numeral stands for.
fn add_one(digits: &mut Vec<u8>)
    requires
        is_numeral(old(digits)@),
    ensures
        is_numeral(final(digits)@),
        digits_value(final(digits)@) == digits_value(old(digits)@) + 1,
    decreases old(digits)@.len(),
{
    let ghost before = digits@;
    let last = digits.pop().unwrap();
    let ghost front = digits@;
    assert(front =~= before.drop_last());
    assert(last == before.last() && last <= 9);
    assert forall|i: int| 0 <= i < front.len() implies #[trigger] front[i] <= 9 by {
        assert(front[i] == before[i]);
    }
    if last < 9 {
        digits.push(last + 1);
        assert(digits@.drop_last() =~= front);
        assert(digits@.len() > 1 ==> digits@[0] == before[0]);
    } else if digits.len() == 0 {
        digits.push(1);
        digits.push(0);
        proof {
            let now = digits@;
            assert(now.drop_last() =~= seq![1u8]);
            assert(now.drop_last().drop_last() =~= Seq::<u8>::empty());
            assert(digits_value(now.drop_last().drop_last()) == 0);
            assert(digits_value(now.drop_last()) == 1);
            assert(digits_value(front) == 0);
        }
    } else {
        assert(front[0] == before[0]);
        add_one(digits);
        let ghost carried = digits@;
        proof {
            lemma_leading_digit(carried);
        }
        digits.push(0);
        assert(digits@.drop_last() =~= carried);
        assert(digits@[0] == carried[0]);
    }
}

/// A count of retries. It has no upper bound.
#[derive(Debug, PartialEq, Eq)]
pub struct RetryCount {
    digits: Vec<u8>,
}

impl View for RetryCount {
    type V = nat;

    closed spec fn view(&self) -> nat {
        digits_value(self.digits@)
    }
}

impl RetryCount {
    #[verifier::type_invariant]
    spec fn holds_a_numeral(self) -> bool {
        is_numeral(self.digits@)
    }

    /// The count `n`.
    pub fn new(n: u64) -> (count: Self)
        ensures
            count@ == n,
    {
        RetryCount { digits: numeral_of(n) }
    }

    /// Whether nothing was counted.
    pub fn is_zero(&self) -> (zero: bool)
        ensures
            zero == (self@ == 0),
    {
        proof {
            use_type_invariant(self);
            lemma_leading_digit(self.digits@);
        }
        self.digits[0] == 0
    }

    /// A copy of the digits.
    fn copied_digits(&self) -> (digits: Vec<u8>)
        ensures
            digits@ == self.digits@,
    {
        let mut digits: Vec<u8> = Vec::new();
        let mut i: usize = 0;
        while i < self.digits.len()
            invariant
                i <= self.digits@.len(),
                digits@ == self.digits@.subrange(0, i as int),
            decreases self.digits@.len() - i,
        {
            digits.push(self.digits[i]);
            assert(digits@ =~= self.digits@.subrange(0, i + 1));
            i += 1;
        }
        assert(digits@ =~= self.digits@);
        digits
    }

    /// The count that is one more than this one.
    pub fn successor(&self) -> (next: Self)
        ensures
            next@ == self@ + 1,
    {
        proof {
            use_type_invariant(self);
        }
        let mut digits = self.copied_digits();
        add_one(&mut digits);
        RetryCount { digits }
    }

    /// Appends the decimal numeral of the count to `out`.
    pub fn push_decimal(&self, out: &mut String)
        ensures
            final(out)@ == old(out)@ + decimal(self@),
    {
        proof {
            use_type_invariant(self);
            lemma_numeral_is_decimal(self.digits@);
        }
        let mut i: usize = 0;
        assert(out@ =~= old(out)@ + digit_chars(self.digits@.subrange(0, 0)));
        while i < self.digits.len()
            invariant
                i <= self.digits@.len(),
                is_numeral(self.digits@),
                out@ == old(out)@ + digit_chars(self.digits@.subrange(0, i as int)),
            decreases self.digits@.len() - i,
        {
            assert(self.digits@[i as int] <= 9);
            out.append(hex_digit_str(self.digits[i]));
            assert(out@ =~= old(out)@ + digit_chars(self.digits@.subrange(0, i + 1))) by {
                assert(self.digits@.subrange(0, i + 1) =~= self.digits@.subrange(0, i as int).push(
                    self.digits@[i as int],
                ));
            }
            i += 1;
        }
        assert(self.digits@.subrange(0, self.digits@.len() as int) =~= self.digits@);
    }

    /// The decimal numeral of the count.
    pub fn to_string(&self) -> (text: String)
        ensures
            text@ == decimal(self@),
    {
        let mut text = String::new();
        self.push_decimal(&mut text);
        text
    }
}

impl Clone for RetryCount {
    /// A count of the same number.
    fn clone(&self) -> (count: Self)
        ensures
            count@ == self@,
    {
        proof {
            use_type_invariant(self);
        }
        RetryCount { digits: self.copied_digits() }
    }
}

} // verus!
