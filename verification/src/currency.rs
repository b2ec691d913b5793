//! Currency amounts rendered with comma-grouped dollars and two decimal
//! places, carrying the sign separately.

use vstd::prelude::*;
use crate::format::{grouped_digits, padded_digits};

verus! {

/// A formatted currency amount: the rendered text and whether the amount
/// was negative.
pub struct Currency {
    pub value: String,
    pub is_neg: bool,
}

impl Currency {
    /// Format an amount given in cents: a minus sign when negative, the
    /// dollars with a comma before every group of three digits, a point,
    /// and exactly two cent digits.
    pub fn new(cents: i64) -> (r: Currency)
        requires
            cents > i64::MIN,
        ensures
            r.is_neg == (cents < 0),
            ({
                let mag: int = if cents < 0 {
                    -cents
                } else {
                    cents as int
                };
                r.value@ == (if cents < 0 {
                    seq!['-']
                } else {
                    Seq::<char>::empty()
                }) + grouped_digits((mag / 100) as nat) + seq!['.'] + padded_digits(
                    (mag % 100) as nat,
                    2,
                )
            }),
    {
        let is_neg = cents < 0;
        let mag: i64 = if is_neg {
            -cents
        } else {
            cents
        };
        let dollars: u64 = (mag / 100) as u64;
        let rem: u64 = (mag % 100) as u64;
        let mut value = String::new();
        if is_neg {
            proof {
                reveal_strlit("-");
                assert("-"@ =~= seq!['-']);
            }
            value.append("-");
        } else {
            proof {
                assert(value@ + Seq::<char>::empty() =~= value@);
            }
        }
        crate::format::push_grouped_digits(&mut value, dollars);
        proof {
            reveal_strlit(".");
            assert("."@ =~= seq!['.']);
        }
        value.append(".");
        crate::format::push_padded_digits(&mut value, rem, 2);
        Currency { value, is_neg }
    }
}

} // verus!
