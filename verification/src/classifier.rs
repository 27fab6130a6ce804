//! The classifier: maps an integer to its label ("Fizz", "Buzz",
//! "FizzBuzz", or the number's own decimal text), first match wins.

use vstd::prelude::*;
use crate::decimal::decimal_chars;

verus! {

/// An input value.
pub type Number = u32;

/// A textual label for a number.
pub type Label = String;

/// The intermediate state of one classification: either no rule has
/// matched yet, or a rule has produced a label.
#[derive(Debug, Clone, PartialEq, Eq)]
pub enum FizzBuzzResult {
    Unhandled(Number),
    Handled(Label),
}

impl FizzBuzzResult {
    /// Applies `f` only while no rule has matched: a `Handled` value is
    /// kept as it is, an `Unhandled` one is given to `f`.
    pub fn if_unhandled_do<F: Fn(Number) -> FizzBuzzResult>(self, f: F) -> (r: FizzBuzzResult)
        requires
            self matches FizzBuzzResult::Unhandled(x) ==> call_requires(f, (x,)),
        ensures
            self matches FizzBuzzResult::Handled(_) ==> r == self,
            self matches FizzBuzzResult::Unhandled(x) ==> call_ensures(f, (x,), r),
    {
        match self {
            FizzBuzzResult::Handled(_) => self,
            FizzBuzzResult::Unhandled(x) => f(x),
        }
    }

    /// Closes the classification: a label that a rule produced is kept,
    /// a number that no rule handled becomes its own decimal text.
    pub fn last_step(self) -> (r: Label)
        ensures
            r@ == (match self {
                FizzBuzzResult::Unhandled(x) => decimal_chars(x as nat),
                FizzBuzzResult::Handled(s) => s@,
            }),
    {
        match self {
            FizzBuzzResult::Unhandled(x) => crate::decimal::decimal_string(x),
            FizzBuzzResult::Handled(s) => s,
        }
    }
}

/// Whether `div` divides `x` exactly.
pub fn is_divisible_by(x: Number, div: Number) -> (r: bool)
    requires
        div != 0,
    ensures
        r == (x % div == 0),
{
    x % div == 0
}

/// Applies one rule: if `div` divides `x`, the rule matches and `label`
/// is the result; otherwise `x` stays unhandled.
pub fn handle(x: Number, div: Number, label: Label) -> (r: FizzBuzzResult)
    requires
        div != 0,
    ensures
        x % div == 0 ==> r == FizzBuzzResult::Handled(label),
        x % div != 0 ==> r == FizzBuzzResult::Unhandled(x),
{
    if is_divisible_by(x, div) {
        FizzBuzzResult::Handled(label)
    } else {
        FizzBuzzResult::Unhandled(x)
    }
}

/// The label of `x`: the rules in their strict order — divisible by 15,
/// then by 5, then by 3, else the decimal text of `x`.
pub open spec fn spec_label(x: Number) -> Seq<char> {
    if x % 15 == 0 {
        "FizzBuzz"@
    } else if x % 5 == 0 {
        "Buzz"@
    } else if x % 3 == 0 {
        "Fizz"@
    } else {
        decimal_chars(x as nat)
    }
}

/// The rules stated by divisibility alone: a number divisible by 15 is
/// labelled "FizzBuzz"; one divisible by 5 but not by 15, "Buzz"; one
/// divisible by 3 but not by 15, "Fizz"; any other number, its own
/// decimal text. In particular, checking divisibility by 15 first
/// subsumes the independent checks of 3 and 5.
pub proof fn lemma_label_rules(x: Number)
    ensures
        x % 15 == 0 ==> spec_label(x) == "FizzBuzz"@,
        x % 5 == 0 && x % 15 != 0 ==> spec_label(x) == "Buzz"@,
        x % 3 == 0 && x % 15 != 0 ==> spec_label(x) == "Fizz"@,
        x % 3 != 0 && x % 5 != 0 ==> spec_label(x) == decimal_chars(x as nat),
{
    let xi = x as int;
    vstd::arithmetic::div_mod::lemma_mod_mod(xi, 3, 5);
    vstd::arithmetic::div_mod::lemma_mod_mod(xi, 5, 3);
    assert((xi % 15) % 3 == xi % 3);
    assert((xi % 15) % 5 == xi % 5);
}

/// A label is never empty: either it is one of the three fixed words,
/// or it is the decimal text of the number, which holds at least one
/// digit.
pub proof fn lemma_label_nonempty(x: Number)
    ensures
        spec_label(x).len() > 0,
{
    reveal_strlit("FizzBuzz");
    reveal_strlit("Buzz");
    reveal_strlit("Fizz");
    crate::decimal::lemma_decimal_chars_nonempty(x as nat);
}

/// Classification is deterministic: the label is a function of the
/// number alone, so two labels produced for the same number are equal.
pub proof fn lemma_label_deterministic(x: Number, a: Seq<char>, b: Seq<char>)
    requires
        a == spec_label(x),
        b == spec_label(x),
    ensures
        a == b,
{
}

/// Classifies `x`, pairing it with its label.
pub fn fizz_buzz(x: Number) -> (r: (Number, Label))
    ensures
        r.0 == x,
        r.1@ == spec_label(x),
        r.1@.len() > 0,
{
    proof {
        lemma_label_nonempty(x);
    }
    let handle_3 = |y: Number| -> (res: FizzBuzzResult)
        ensures
            y % 3 == 0 ==> (res matches FizzBuzzResult::Handled(s) && s@ == "Fizz"@),
            y % 3 != 0 ==> res == FizzBuzzResult::Unhandled(y),
        { handle(y, 3, "Fizz".to_owned()) };
    let handle_5 = |y: Number| -> (res: FizzBuzzResult)
        ensures
            y % 5 == 0 ==> (res matches FizzBuzzResult::Handled(s) && s@ == "Buzz"@),
            y % 5 != 0 ==> res == FizzBuzzResult::Unhandled(y),
        { handle(y, 5, "Buzz".to_owned()) };
    let handle_15 = |y: Number| -> (res: FizzBuzzResult)
        ensures
            y % 15 == 0 ==> (res matches FizzBuzzResult::Handled(s) && s@ == "FizzBuzz"@),
            y % 15 != 0 ==> res == FizzBuzzResult::Unhandled(y),
        { handle(y, 15, "FizzBuzz".to_owned()) };

    let s = handle_15(x)
        .if_unhandled_do(handle_5)
        .if_unhandled_do(handle_3)
        .last_step();

    (x, s)
}

} // verus!
