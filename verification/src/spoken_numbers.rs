//! Spoken English phrases for numbers.
//!
//! Numbers arrive in thousandths (a value of 1500 means 1.5). A magnitude
//! below one is mapped onto a fixed fractional phrase at the breakpoints
//! 0.125 / 0.375 / 0.625 / 0.875; a magnitude of one or more is split into
//! thousands, hundreds and tens-and-ones, joined with single spaces. The
//! sign is handled once at the top level: a negative number is the word
//! "negative" followed by the words for its magnitude.

use vstd::prelude::*;

use crate::locale::small_word;
use crate::locale::spec_small_word;
use crate::locale::spec_tens_word;
use crate::locale::tens_word;

verus! {

/// Words for a whole number from 1 through 99; empty for 0 and out of range.
pub open spec fn spec_under_hundred_words(n: int) -> Seq<char> {
    if 0 < n < 20 {
        spec_small_word(n)
    } else if 20 <= n < 100 {
        if n % 10 > 0 {
            spec_tens_word(n / 10) + " "@ + spec_small_word(n % 10)
        } else {
            spec_tens_word(n / 10)
        }
    } else {
        Seq::<char>::empty()
    }
}

/// Words for a nonnegative whole number, recursively split into thousands
/// and hundreds; empty for 0.
pub open spec fn spec_whole_number_words(n: int) -> Seq<char>
    decreases n,
{
    if n >= 1000 {
        let rest = n % 1000;
        if rest > 0 {
            spec_whole_number_words(n / 1000) + " "@ + "thousand"@ + " "@ + spec_whole_number_words(
                rest,
            )
        } else {
            spec_whole_number_words(n / 1000) + " "@ + "thousand"@
        }
    } else if n >= 100 {
        let rest = n % 100;
        if rest > 0 {
            spec_whole_number_words(n / 100) + " "@ + "hundred"@ + " "@ + spec_under_hundred_words(
                rest,
            )
        } else {
            spec_whole_number_words(n / 100) + " "@ + "hundred"@
        }
    } else {
        spec_under_hundred_words(n)
    }
}

/// Words for a nonnegative number of thousandths: a fractional phrase
/// below one, whole-number words from one upward (truncating the
/// fractional part, which rounding has already settled).
pub open spec fn spec_magnitude_words(m: int) -> Seq<char> {
    if m < 125 {
        "one eighth"@
    } else if m < 375 {
        "one quarter"@
    } else if m < 625 {
        "one half"@
    } else if m < 875 {
        "three quarter"@
    } else if m < 1000 {
        "one"@
    } else {
        spec_whole_number_words(m / 1000)
    }
}

/// Words for a number of thousandths, sign handled once at the top.
pub open spec fn spec_number_words(m: int) -> Seq<char> {
    if m < 0 {
        "negative"@ + " "@ + spec_magnitude_words(-m)
    } else {
        spec_magnitude_words(m)
    }
}

fn under_hundred_to_words(num: u64) -> (r: String)
    requires
        num < 100,
    ensures
        r@ == spec_under_hundred_words(num as int),
{
    if num == 0 {
        String::new()
    } else if num < 20 {
        String::from_str(small_word(num))
    } else {
        let tens = num / 10;
        let ones = num % 10;
        let mut result = String::from_str(tens_word(tens));
        if ones > 0 {
            result.append(" ");
            result.append(small_word(ones));
        }
        result
    }
}

/// Spells out a nonnegative whole number; 0 becomes the empty string.
pub fn whole_number_to_words(num: u64) -> (r: String)
    ensures
        r@ == spec_whole_number_words(num as int),
    decreases num,
{
    if num >= 1000 {
        let mut result = whole_number_to_words(num / 1000);
        result.append(" ");
        result.append("thousand");
        let rest = num % 1000;
        if rest > 0 {
            result.append(" ");
            let tail = whole_number_to_words(rest);
            result.append(tail.as_str());
        }
        result
    } else if num >= 100 {
        let mut result = whole_number_to_words(num / 100);
        result.append(" ");
        result.append("hundred");
        let rest = num % 100;
        if rest > 0 {
            result.append(" ");
            let tail = under_hundred_to_words(rest);
            result.append(tail.as_str());
        }
        result
    } else {
        under_hundred_to_words(num)
    }
}

fn magnitude_to_words(num: i64) -> (r: String)
    requires
        num >= 0,
    ensures
        r@ == spec_magnitude_words(num as int),
{
    if num < 125 {
        String::from_str("one eighth")
    } else if num < 375 {
        String::from_str("one quarter")
    } else if num < 625 {
        String::from_str("one half")
    } else if num < 875 {
        String::from_str("three quarter")
    } else if num < 1000 {
        String::from_str("one")
    } else {
        whole_number_to_words((num / 1000) as u64)
    }
}

/// Converts a number given in thousandths to its spoken English words.
pub fn number_to_words(num: i64) -> (r: String)
    requires
        num > i64::MIN,
    ensures
        r@ == spec_number_words(num as int),
{
    if num < 0 {
        let mut result = String::from_str("negative");
        result.append(" ");
        let tail = magnitude_to_words(-num);
        result.append(tail.as_str());
        result
    } else {
        magnitude_to_words(num)
    }
}

} // verus!
