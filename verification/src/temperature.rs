//! The sampling temperature of a request.

use crate::decimal::{decimal, decimal_text, digit};
use vstd::prelude::*;
use vstd::string::*;

verus! {

/// The highest temperature, in hundredths.
pub const MAX_HUNDREDTHS: u8 = 200;

/// A sampling temperature between 0 and 2, held exactly as a count of
/// hundredths.
#[derive(Clone, Copy, Debug, PartialEq, Eq, Structural)]
pub struct Temperature {
    hundredths: u8,
}

impl View for Temperature {
    type V = nat;

    /// The temperature in hundredths.
    closed spec fn view(&self) -> nat {
        self.hundredths as nat
    }
}

/// A count of hundredths written as a JSON number: the whole part, a point,
/// and one or two decimal places, the second only where it is not zero.
pub open spec fn hundredths_text(hundredths: nat) -> Seq<char> {
    let whole = hundredths / 100;
    let tenths = (hundredths % 100) / 10;
    let rest = hundredths % 10;
    if rest == 0 {
        decimal(whole) + seq!['.', digit(tenths)]
    } else {
        decimal(whole) + seq!['.', digit(tenths), digit(rest)]
    }
}

impl Temperature {
    #[verifier::type_invariant]
    spec fn in_range(self) -> bool {
        self.hundredths <= MAX_HUNDREDTHS
    }

    /// The temperature of so many hundredths, where that is at most 2.
    pub fn from_hundredths(hundredths: u8) -> (made: Option<Temperature>)
        ensures
            made is Some <==> hundredths <= MAX_HUNDREDTHS,
            made matches Some(temperature) ==> temperature@ == hundredths,
    {
        if hundredths <= MAX_HUNDREDTHS {
            Some(Temperature { hundredths })
        } else {
            None
        }
    }

    /// The temperature in hundredths.
    pub fn hundredths(&self) -> (hundredths: u8)
        ensures
            hundredths == self@,
            hundredths <= MAX_HUNDREDTHS,
    {
        proof {
            use_type_invariant(self);
        }
        self.hundredths
    }

    /// The temperature written as a JSON number.
    pub fn to_text(&self) -> (text: String)
        ensures
            text@ == hundredths_text(self@),
    {
        let whole: u8 = self.hundredths / 100;
        let tenths: u8 = (self.hundredths % 100) / 10;
        let rest: u8 = self.hundredths % 10;
        let mut text = decimal_text(whole as usize);
        text.append(".");
        let tenths_text = decimal_text(tenths as usize);
        text.append(tenths_text.as_str());
        if rest != 0 {
            let rest_text = decimal_text(rest as usize);
            text.append(rest_text.as_str());
        }
        proof {
            reveal_strlit(".");
            assert(text@ =~= hundredths_text(self@));
        }
        text
    }
}

} // verus!
