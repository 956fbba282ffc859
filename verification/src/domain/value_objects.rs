//! Payment value objects.

use vstd::prelude::*;
use vstd::string::*;
use crate::decimal::Decimal;
use crate::unique::{
    fresh_uuid, is_hex_digit, is_hyphenated_uuid, is_uuid_text, lemma_hyphenated_uuid_is_ascii,
};

verus! {

/// The text of a payment identifier: `pay_` and 24 lower-case hexadecimal digits.
pub open spec fn is_payment_token(s: Seq<char>) -> bool {
    &&& s.len() == 28
    &&& s.subrange(0, 4) == "pay_"@
    &&& forall|i: int| 4 <= i < 28 ==> is_hex_digit(#[trigger] s[i])
}

/// The payment token made from a hyphenated UUID: the prefix and the first
/// 24 of its hexadecimal digits.
pub open spec fn token_of_uuid(u: Seq<char>) -> Seq<char> {
    "pay_"@ + u.subrange(0, 8) + u.subrange(9, 13) + u.subrange(14, 18) + u.subrange(19, 23)
        + u.subrange(24, 28)
}

/// Identity of a payment.
#[derive(Debug, PartialEq, Eq, Hash)]
pub struct PaymentId(String);

impl View for PaymentId {
    type V = Seq<char>;

    closed spec fn view(&self) -> Seq<char> {
        self.0@
    }
}

impl Clone for PaymentId {
    fn clone(&self) -> (r: Self)
        ensures
            r == *self,
    {
        PaymentId(self.0.clone())
    }
}

impl PaymentId {
    /// A fresh random identifier.
    pub fn new() -> (r: Self)
        ensures
            is_payment_token(r@),
    {
        let u = fresh_uuid();
        Self::from_uuid(u.as_str()).unwrap()
    }

    /// The identifier made from the hyphenated UUID `u`: `None` where `u`
    /// is no such text.
    pub fn from_uuid(u: &str) -> (r: Option<Self>)
        ensures
            r is Some <==> is_hyphenated_uuid(u@),
            r matches Some(id) ==> id@ == token_of_uuid(u@) && is_payment_token(id@),
    {
        if !is_uuid_text(u) {
            return None;
        }
        proof {
            reveal_strlit("pay_");
            lemma_hyphenated_uuid_is_ascii(u@);
        }
        let mut s = String::from_str("pay_");
        s.append(u.substring_ascii(0, 8));
        s.append(u.substring_ascii(9, 13));
        s.append(u.substring_ascii(14, 18));
        s.append(u.substring_ascii(19, 23));
        s.append(u.substring_ascii(24, 28));
        proof {
            let t = token_of_uuid(u@);
            assert(s@ == t);
            assert(t.len() == 28);
            assert(t.subrange(0, 4) == "pay_"@);
            assert forall|i: int| 4 <= i < 28 implies is_hex_digit(#[trigger] t[i]) by {
                if i < 12 {
                    assert(t[i] == u@[i - 4]);
                } else if i < 16 {
                    assert(t[i] == u@[i - 3]);
                } else if i < 20 {
                    assert(t[i] == u@[i - 2]);
                } else if i < 24 {
                    assert(t[i] == u@[i - 1]);
                } else {
                    assert(t[i] == u@[i]);
                }
            }
        }
        Some(PaymentId(s))
    }

    /// The identifier with the text `s`.
    pub fn from_string(s: &str) -> (r: Self)
        ensures
            r@ == s@,
    {
        PaymentId(String::from_str(s))
    }

    /// The text of the identifier.
    pub fn as_str(&self) -> (s: &str)
        ensures
            s@ == self@,
    {
        self.0.as_str()
    }

    /// The text of the identifier, owned.
    pub fn to_string(&self) -> (s: String)
        ensures
            s@ == self@,
    {
        self.0.clone()
    }
}

impl Default for PaymentId {
    fn default() -> (r: Self)
        ensures
            is_payment_token(r@),
    {
        Self::new()
    }
}

/// How a payment is made.
#[derive(Clone, Copy, Debug, PartialEq, Eq, Structural)]
pub enum PaymentMethodType {
    Card,
    BankTransfer,
    Wallet,
    Crypto,
}

/// Description of the instrument a payment is made with.
#[derive(Debug, PartialEq, Eq)]
pub struct PaymentMethod {
    pub method_type: PaymentMethodType,
    pub last_four: Option<String>,
    pub brand: Option<String>,
    pub exp_month: Option<u8>,
    pub exp_year: Option<u16>,
}

impl Clone for PaymentMethod {
    fn clone(&self) -> (r: Self)
        ensures
            r == *self,
    {
        PaymentMethod {
            method_type: self.method_type,
            last_four: self.last_four.clone(),
            brand: self.brand.clone(),
            exp_month: self.exp_month,
            exp_year: self.exp_year,
        }
    }
}

/// An amount in a currency.
#[derive(Debug, PartialEq)]
pub struct Money {
    pub amount: Decimal,
    pub currency: String,
}

impl Clone for Money {
    fn clone(&self) -> (r: Self)
        ensures
            r == *self,
    {
        Money { amount: self.amount, currency: self.currency.clone() }
    }
}

impl Money {
    /// `amount` in the currency with the code `currency`.
    pub fn new(amount: Decimal, currency: &str) -> (r: Self)
        ensures
            r.amount == amount,
            r.currency@ == currency@,
    {
        Money { amount, currency: String::from_str(currency) }
    }

    /// `amount` in US dollars.
    pub fn usd(amount: Decimal) -> (r: Self)
        ensures
            r.amount == amount,
            r.currency@ == "USD"@,
    {
        Self::new(amount, "USD")
    }
}

} // verus!
