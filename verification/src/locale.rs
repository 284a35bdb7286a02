//! The English word catalog for spoken numbers.
//!
//! The catalog is a pure lookup from a small number to its word; the
//! number-to-words composition rules live in `spoken_numbers`.

use vstd::prelude::*;

verus! {

/// The word for a number below twenty, or the empty sequence outside that range.
pub open spec fn spec_small_word(n: int) -> Seq<char> {
    if n == 0 {
        "zero"@
    } else if n == 1 {
        "one"@
    } else if n == 2 {
        "two"@
    } else if n == 3 {
        "three"@
    } else if n == 4 {
        "four"@
    } else if n == 5 {
        "five"@
    } else if n == 6 {
        "six"@
    } else if n == 7 {
        "seven"@
    } else if n == 8 {
        "eight"@
    } else if n == 9 {
        "nine"@
    } else if n == 10 {
        "ten"@
    } else if n == 11 {
        "eleven"@
    } else if n == 12 {
        "twelve"@
    } else if n == 13 {
        "thirteen"@
    } else if n == 14 {
        "fourteen"@
    } else if n == 15 {
        "fifteen"@
    } else if n == 16 {
        "sixteen"@
    } else if n == 17 {
        "seventeen"@
    } else if n == 18 {
        "eighteen"@
    } else if n == 19 {
        "nineteen"@
    } else {
        Seq::<char>::empty()
    }
}

/// The word for a multiple of ten, indexed by the tens digit (2 through 9),
/// or the empty sequence outside that range.
pub open spec fn spec_tens_word(tens: int) -> Seq<char> {
    if tens == 2 {
        "twenty"@
    } else if tens == 3 {
        "thirty"@
    } else if tens == 4 {
        "forty"@
    } else if tens == 5 {
        "fifty"@
    } else if tens == 6 {
        "sixty"@
    } else if tens == 7 {
        "seventy"@
    } else if tens == 8 {
        "eighty"@
    } else if tens == 9 {
        "ninety"@
    } else {
        Seq::<char>::empty()
    }
}

/// Looks up the word for a number below twenty.
pub fn small_word(n: u64) -> (r: &'static str)
    requires
        n < 20,
    ensures
        r@ == spec_small_word(n as int),
{
    match n {
        0 => "zero",
        1 => "one",
        2 => "two",
        3 => "three",
        4 => "four",
        5 => "five",
        6 => "six",
        7 => "seven",
        8 => "eight",
        9 => "nine",
        10 => "ten",
        11 => "eleven",
        12 => "twelve",
        13 => "thirteen",
        14 => "fourteen",
        15 => "fifteen",
        16 => "sixteen",
        17 => "seventeen",
        18 => "eighteen",
        _ => "nineteen",
    }
}

/// Looks up the word for a multiple of ten by its tens digit.
pub fn tens_word(tens: u64) -> (r: &'static str)
    requires
        2 <= tens < 10,
    ensures
        r@ == spec_tens_word(tens as int),
{
    match tens {
        2 => "twenty",
        3 => "thirty",
        4 => "forty",
        5 => "fifty",
        6 => "sixty",
        7 => "seventy",
        8 => "eighty",
        _ => "ninety",
    }
}

} // verus!
