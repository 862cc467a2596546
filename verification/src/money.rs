//! Dollar amounts at the resolution at which they are shown: hundredths.

use crate::text::{
    decimal_string, decimal_text, decimal_value, digit_char, digit_value, is_decimal, is_digit,
    lemma_decimal_text_is_decimal, lemma_decimal_value_of_text, lemma_decimal_value_prefix,
};
use vstd::prelude::*;
use vstd::string::*;
use vstd::utf8::is_ascii_chars;

verus! {

/// A non-negative amount of US dollars, counted in hundredths of a dollar.
#[derive(Clone, Copy, Debug, PartialEq, Eq, Structural)]
pub struct UsdAmount {
    pub hundredths: u64,
}

/// The text of an amount: the whole dollars, a point, and two digits.
pub open spec fn money_text(hundredths: u64) -> Seq<char> {
    decimal_text((hundredths / 100) as nat) + seq![
        '.',
        digit_char(((hundredths % 100) / 10) as int),
        digit_char((hundredths % 10) as int),
    ]
}

/// The hundredths that a text of the form `digits '.' digit digit` denotes,
/// `None` for any other text.
pub open spec fn money_value(s: Seq<char>) -> Option<nat> {
    let n = s.len() as int;
    if n >= 4 && s[n - 3] == '.' && is_decimal(s.take(n - 3)) && is_digit(s[n - 2]) && is_digit(
        s[n - 1],
    ) {
        Some(
            (decimal_value(s.take(n - 3)) * 100 + digit_value(s[n - 2]) * 10 + digit_value(
                s[n - 1],
            )) as nat,
        )
    } else {
        None
    }
}

/// The amount that a text denotes, where it denotes one that fits.
pub open spec fn amount_of_text(s: Seq<char>) -> Option<UsdAmount> {
    match money_value(s) {
        Some(v) => if v <= u64::MAX {
            Some(UsdAmount { hundredths: v as u64 })
        } else {
            None
        },
        None => None,
    }
}

/// Reading the text of an amount gives the amount back.
pub proof fn lemma_money_text_round_trip(hundredths: u64)
    ensures
        amount_of_text(money_text(hundredths)) == Some(UsdAmount { hundredths }),
{
    let whole = (hundredths / 100) as nat;
    let s = money_text(hundredths);
    let n = s.len() as int;
    lemma_decimal_text_is_decimal(whole);
    lemma_decimal_value_of_text(whole);
    assert(s.take(n - 3) =~= decimal_text(whole));
}

impl UsdAmount {
    /// No dollars at all.
    pub fn zero() -> (amount: UsdAmount)
        ensures
            amount.hundredths == 0,
    {
        UsdAmount { hundredths: 0 }
    }

    /// The amount of `hundredths` hundredths of a dollar.
    pub fn from_hundredths(hundredths: u64) -> (amount: UsdAmount)
        ensures
            amount.hundredths == hundredths,
    {
        UsdAmount { hundredths }
    }

    /// Renders the amount with two decimals.
    pub fn to_text(&self) -> (s: String)
        ensures
            s@ == money_text(self.hundredths),
    {
        let h: u64 = self.hundredths;
        let mut s: String = decimal_string(h / 100);
        s.append(".");
        let tens: String = decimal_string((h % 100) / 10);
        s.append(tens.as_str());
        let ones: String = decimal_string(h % 10);
        s.append(ones.as_str());
        proof {
            reveal_strlit(".");
        }
        s
    }

    /// Reads an amount written with exactly two decimals, such as `12.50`.
    pub fn from_decimal_text(s: &str) -> (r: Option<UsdAmount>)
        ensures
            r == amount_of_text(s@),
    {
        broadcast use is_ascii_spec_bytes;

        if !s.is_ascii() {
            proof {
                if money_value(s@) is Some {
                    let k = s@.len() - 3;
                    assert forall|i: int| 0 <= i < s@.len() implies '\0' <= #[trigger] s@[i]
                        <= '\u{7f}' by {
                        if i < k {
                            assert(is_digit(s@.take(k)[i]));
                        }
                    }
                }
            }
            return None;
        }
        let bytes: &[u8] = s.as_bytes();
        let n: usize = bytes.len();
        if n < 4 {
            return None;
        }
        let m: usize = n - 3;
        let tens: u8 = bytes[n - 2];
        let ones: u8 = bytes[n - 1];
        if bytes[m] != 46 || tens < 48 || tens > 57 || ones < 48 || ones > 57 {
            return None;
        }
        let ghost whole = s@.take(m as int);
        let mut acc: u64 = 0;
        let mut i: usize = 0;
        while i < m
            invariant
                i <= m,
                m + 3 == n,
                n == bytes@.len(),
                n == s@.len(),
                is_ascii_chars(s@),
                whole == s@.take(m as int),
                forall|j: int| 0 <= j < n ==> bytes@[j] == (#[trigger] s@[j]) as u8,
                forall|j: int| 0 <= j < i ==> is_digit(#[trigger] whole[j]),
                acc == decimal_value(whole.take(i as int)),
            decreases m - i,
        {
            let b: u8 = bytes[i];
            if b < 48 || b > 57 {
                assert(!is_digit(whole[i as int]));
                return None;
            }
            let d: u64 = (b - 48) as u64;
            proof {
                let t = whole.take(i + 1);
                assert(t.drop_last() =~= whole.take(i as int));
            }
            if acc > (u64::MAX - d) / 10 {
                proof {
                    if is_decimal(whole) {
                        lemma_decimal_value_prefix(whole, i + 1);
                    }
                }
                return None;
            }
            acc = acc * 10 + d;
            i = i + 1;
        }
        assert(whole.take(m as int) =~= whole);
        let low: u64 = ((tens - 48) as u64) * 10 + (ones - 48) as u64;
        if acc > (u64::MAX - low) / 100 {
            return None;
        }
        Some(UsdAmount { hundredths: acc * 100 + low })
    }
}

} // verus!
