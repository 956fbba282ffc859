//! Payment processing core: decimal money, payment and subscription
//! aggregates with their lifecycle rules, and the events they emit.
//!
//! The crate root holds the records that a payment gateway exchanges with
//! its providers; [`domain`] holds the aggregates and their rules.

use vstd::prelude::*;
use vstd::string::*;
use std::collections::HashMap;
use crate::clock::Timestamp;
use crate::decimal::Decimal;

pub mod clock;
pub mod decimal;
pub mod domain;
pub mod service;
pub mod unique;

verus! {

/// A payment as a gateway records it.
#[derive(Clone, Debug)]
pub struct Payment {
    pub id: String,
    pub provider: PaymentProvider,
    pub provider_payment_id: Option<String>,
    pub amount: Money,
    pub status: PaymentStatus,
    pub customer_id: Option<String>,
    pub payment_method_id: Option<String>,
    pub description: Option<String>,
    pub metadata: HashMap<String, String>,
    pub failure_reason: Option<String>,
    pub refunded_amount: Money,
    pub created_at: Timestamp,
    pub updated_at: Timestamp,
}

/// An amount in a currency.
#[derive(Debug, PartialEq)]
pub struct Money {
    pub amount: Decimal,
    pub currency: String,
}

impl Clone for Money {
    fn clone(&self) -> (r: Self)
        ensures
            r == *self,
    {
        Money { amount: self.amount, currency: self.currency.clone() }
    }
}

impl Money {
    /// Nothing, in the currency with the code `currency`.
    pub fn zero(currency: &str) -> (r: Self)
        ensures
            r.amount == Decimal::spec_zero(),
            r.amount.units() == 0,
            r.currency@ == currency@,
    {
        Money { amount: Decimal::zero(), currency: String::from_str(currency) }
    }

    /// `amount` in the currency with the code `currency`.
    pub fn new(amount: Decimal, currency: &str) -> (r: Self)
        ensures
            r.amount == amount,
            r.currency@ == currency@,
    {
        Money { amount, currency: String::from_str(currency) }
    }
}

impl Default for Money {
    fn default() -> (r: Self)
        ensures
            r.amount == Decimal::spec_zero(),
            r.currency@ == "USD"@,
    {
        Self::zero("USD")
    }
}

/// Where a payment stands with its provider.
#[derive(Clone, Copy, Debug, PartialEq, Eq, Structural)]
pub enum PaymentStatus {
    Pending,
    Processing,
    RequiresAction,
    Succeeded,
    Failed,
    Cancelled,
    Refunded,
    PartiallyRefunded,
}

impl Default for PaymentStatus {
    fn default() -> (s: Self)
        ensures
            s == PaymentStatus::Pending,
    {
        PaymentStatus::Pending
    }
}

/// Who processes a payment.
#[derive(Clone, Copy, Debug, PartialEq, Eq, Structural)]
pub enum PaymentProvider {
    Internal,
    Stripe,
    PayPal,
    Square,
    Adyen,
    Braintree,
}

impl Default for PaymentProvider {
    fn default() -> (p: Self)
        ensures
            p == PaymentProvider::Internal,
    {
        PaymentProvider::Internal
    }
}

/// A payment method that a customer has on file.
#[derive(Clone, Debug)]
pub struct PaymentMethod {
    pub id: String,
    pub customer_id: String,
    pub method_type: PaymentMethodType,
    pub is_default: bool,
    pub billing_details: BillingDetails,
    pub created_at: Timestamp,
}

/// The instrument behind a payment method.
#[derive(Clone, Debug)]
pub enum PaymentMethodType {
    Card(CardDetails),
    BankAccount(BankAccountDetails),
    Wallet(WalletType),
}

/// What is known of a card.
#[derive(Clone, Debug)]
pub struct CardDetails {
    pub brand: String,
    pub last4: String,
    pub exp_month: u8,
    pub exp_year: u16,
    pub fingerprint: Option<String>,
}

/// What is known of a bank account.
#[derive(Clone, Debug)]
pub struct BankAccountDetails {
    pub bank_name: String,
    pub last4: String,
    pub account_type: String,
}

/// A wallet service.
#[derive(Clone, Copy, Debug, PartialEq, Eq, Structural)]
pub enum WalletType {
    ApplePay,
    GooglePay,
    PayPal,
}

/// Whom to bill.
#[derive(Clone, Debug)]
pub struct BillingDetails {
    pub name: Option<String>,
    pub email: Option<String>,
    pub phone: Option<String>,
    pub address: Option<Address>,
}

impl Default for BillingDetails {
    fn default() -> (d: Self)
        ensures
            d.name is None,
            d.email is None,
            d.phone is None,
            d.address is None,
    {
        BillingDetails { name: None, email: None, phone: None, address: None }
    }
}

/// A postal address.
#[derive(Clone, Debug)]
pub struct Address {
    pub line1: Option<String>,
    pub line2: Option<String>,
    pub city: Option<String>,
    pub state: Option<String>,
    pub postal_code: Option<String>,
    pub country: Option<String>,
}

impl Default for Address {
    fn default() -> (a: Self)
        ensures
            a.line1 is None,
            a.line2 is None,
            a.city is None,
            a.state is None,
            a.postal_code is None,
            a.country is None,
    {
        Address { line1: None, line2: None, city: None, state: None, postal_code: None, country: None }
    }
}

/// A subscription as a gateway records it.
#[derive(Clone, Debug)]
pub struct Subscription {
    pub id: String,
    pub customer_id: String,
    pub plan_id: String,
    pub status: SubscriptionStatus,
    pub current_period_start: Timestamp,
    pub current_period_end: Timestamp,
    pub cancel_at_period_end: bool,
    pub cancelled_at: Option<Timestamp>,
    pub payment_method_id: Option<String>,
    pub created_at: Timestamp,
}

/// Where a subscription stands with its provider.
#[derive(Clone, Copy, Debug, PartialEq, Eq, Structural)]
pub enum SubscriptionStatus {
    Active,
    Trialing,
    PastDue,
    Cancelled,
    Unpaid,
    Paused,
}

impl Default for SubscriptionStatus {
    fn default() -> (s: Self)
        ensures
            s == SubscriptionStatus::Active,
    {
        SubscriptionStatus::Active
    }
}

/// A refund as a gateway records it.
#[derive(Clone, Debug)]
pub struct Refund {
    pub id: String,
    pub payment_id: String,
    pub amount: Money,
    pub reason: Option<String>,
    pub status: RefundStatus,
    pub created_at: Timestamp,
}

/// Where a refund stands.
#[derive(Clone, Copy, Debug, PartialEq, Eq, Structural)]
pub enum RefundStatus {
    Pending,
    Succeeded,
    Failed,
}

impl Default for RefundStatus {
    fn default() -> (s: Self)
        ensures
            s == RefundStatus::Pending,
    {
        RefundStatus::Pending
    }
}

/// What can go wrong between a gateway and its provider.
#[derive(Debug)]
pub enum PaymentError {
    PaymentNotFound,
    PaymentMethodNotFound,
    PaymentFailed(String),
    CardDeclined(String),
    InsufficientFunds,
    InvalidAmount,
    ProviderError(String),
    RefundFailed(String),
}

impl PaymentError {
    /// The message of the error, as a specification value.
    pub open spec fn message(&self) -> Seq<char> {
        match *self {
            PaymentError::PaymentNotFound => "Payment not found"@,
            PaymentError::PaymentMethodNotFound => "Payment method not found"@,
            PaymentError::PaymentFailed(detail) => "Payment failed: "@ + detail@,
            PaymentError::CardDeclined(detail) => "Card declined: "@ + detail@,
            PaymentError::InsufficientFunds => "Insufficient funds"@,
            PaymentError::InvalidAmount => "Invalid amount"@,
            PaymentError::ProviderError(detail) => "Provider error: "@ + detail@,
            PaymentError::RefundFailed(detail) => "Refund failed: "@ + detail@,
        }
    }

    /// The message of the error.
    pub fn to_string(&self) -> (s: String)
        ensures
            s@ == self.message(),
    {
        match self {
            PaymentError::PaymentNotFound => String::from_str("Payment not found"),
            PaymentError::PaymentMethodNotFound => String::from_str("Payment method not found"),
            PaymentError::PaymentFailed(detail) => String::from_str("Payment failed: ").concat(
                detail.as_str(),
            ),
            PaymentError::CardDeclined(detail) => String::from_str("Card declined: ").concat(
                detail.as_str(),
            ),
            PaymentError::InsufficientFunds => String::from_str("Insufficient funds"),
            PaymentError::InvalidAmount => String::from_str("Invalid amount"),
            PaymentError::ProviderError(detail) => String::from_str("Provider error: ").concat(
                detail.as_str(),
            ),
            PaymentError::RefundFailed(detail) => String::from_str("Refund failed: ").concat(
                detail.as_str(),
            ),
        }
    }
}

} // verus!
