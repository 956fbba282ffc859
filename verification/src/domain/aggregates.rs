//! Aggregates.

pub mod payment;
pub mod subscription;

pub use payment::{Payment, PaymentError, PaymentStatus};
pub use subscription::{BillingCycle, Subscription, SubscriptionError, SubscriptionStatus};
