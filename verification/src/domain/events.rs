//! Domain events: the record of what happened to an aggregate.

use vstd::prelude::*;
use crate::decimal::Decimal;
use crate::domain::value_objects::PaymentId;

verus! {

/// An event of either aggregate.
#[derive(Debug, PartialEq)]
pub enum DomainEvent {
    Payment(PaymentEvent),
    Subscription(SubscriptionEvent),
}

/// What happened to a payment.
#[derive(Debug, PartialEq)]
pub enum PaymentEvent {
    Created { payment_id: PaymentId, amount: Decimal },
    Succeeded { payment_id: PaymentId },
    Failed { payment_id: PaymentId, reason: String },
    Refunded { payment_id: PaymentId, amount: Decimal },
}

/// What happened to a subscription.
#[derive(Debug, PartialEq)]
pub enum SubscriptionEvent {
    Created { subscription_id: String },
    Renewed { subscription_id: String },
    Cancelled { subscription_id: String, at_period_end: bool },
    PaymentFailed { subscription_id: String },
}

impl Clone for PaymentEvent {
    fn clone(&self) -> (r: Self)
        ensures
            r == *self,
    {
        match self {
            PaymentEvent::Created { payment_id, amount } => PaymentEvent::Created {
                payment_id: payment_id.clone(),
                amount: *amount,
            },
            PaymentEvent::Succeeded { payment_id } => PaymentEvent::Succeeded {
                payment_id: payment_id.clone(),
            },
            PaymentEvent::Failed { payment_id, reason } => PaymentEvent::Failed {
                payment_id: payment_id.clone(),
                reason: reason.clone(),
            },
            PaymentEvent::Refunded { payment_id, amount } => PaymentEvent::Refunded {
                payment_id: payment_id.clone(),
                amount: *amount,
            },
        }
    }
}

impl Clone for SubscriptionEvent {
    fn clone(&self) -> (r: Self)
        ensures
            r == *self,
    {
        match self {
            SubscriptionEvent::Created { subscription_id } => SubscriptionEvent::Created {
                subscription_id: subscription_id.clone(),
            },
            SubscriptionEvent::Renewed { subscription_id } => SubscriptionEvent::Renewed {
                subscription_id: subscription_id.clone(),
            },
            SubscriptionEvent::Cancelled { subscription_id, at_period_end } => {
                SubscriptionEvent::Cancelled {
                    subscription_id: subscription_id.clone(),
                    at_period_end: *at_period_end,
                }
            },
            SubscriptionEvent::PaymentFailed { subscription_id } => {
                SubscriptionEvent::PaymentFailed { subscription_id: subscription_id.clone() }
            },
        }
    }
}

impl Clone for DomainEvent {
    fn clone(&self) -> (r: Self)
        ensures
            r == *self,
    {
        match self {
            DomainEvent::Payment(e) => DomainEvent::Payment(e.clone()),
            DomainEvent::Subscription(e) => DomainEvent::Subscription(e.clone()),
        }
    }
}

} // verus!
