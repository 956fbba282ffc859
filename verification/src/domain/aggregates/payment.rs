//! Payment aggregate: the lifecycle of a single payment, with refunds.
//!
//! The state of a payment is its [`PaymentView`]. Each operation is described
//! by a function on views that gives the outcome and the next state; the
//! methods of [`Payment`] compute exactly that.

use vstd::prelude::*;
use vstd::string::*;
use std::collections::HashMap;
use crate::clock::{day_in_range, Timestamp, NANOS_PER_SECOND};
use crate::decimal::Decimal;
use crate::domain::events::{DomainEvent, PaymentEvent};
use crate::domain::value_objects::{is_payment_token, Money, PaymentId, PaymentMethod};

verus! {

/// Where a payment stands in its lifecycle.
#[derive(Clone, Copy, Debug, PartialEq, Eq, Structural)]
pub enum PaymentStatus {
    Pending,
    Processing,
    Succeeded,
    Failed,
    Cancelled,
    Refunded,
    PartiallyRefunded,
}

impl Default for PaymentStatus {
    fn default() -> (s: Self)
        ensures
            s == PaymentStatus::Pending,
    {
        PaymentStatus::Pending
    }
}

/// Why an operation on a payment was refused.
#[derive(Clone, Copy, Debug, PartialEq, Eq, Structural)]
pub enum PaymentError {
    /// The payment is not in the state that the operation asks for.
    InvalidStatus,
    /// The payment is neither succeeded nor partially refunded.
    NotRefundable,
    /// The refund would leave a total that the payment does not cover:
    /// more than was paid, less than nothing, or too large to write down.
    RefundExceedsPayment,
}

impl PaymentError {
    /// The message of the error.
    pub fn to_string(&self) -> (s: String)
        ensures
            s@ == match *self {
                PaymentError::InvalidStatus => "Invalid status"@,
                PaymentError::NotRefundable => "Not refundable"@,
                PaymentError::RefundExceedsPayment => "Refund exceeds payment"@,
            },
    {
        match self {
            PaymentError::InvalidStatus => String::from_str("Invalid status"),
            PaymentError::NotRefundable => String::from_str("Not refundable"),
            PaymentError::RefundExceedsPayment => String::from_str("Refund exceeds payment"),
        }
    }
}

/// Whether the lifecycle has an edge from `from` to `to`. `Failed` can be
/// entered from every state, and `Cancelled` from none.
pub open spec fn is_edge(from: PaymentStatus, to: PaymentStatus) -> bool {
    match (from, to) {
        (_, PaymentStatus::Failed) => true,
        (PaymentStatus::Pending, PaymentStatus::Processing) => true,
        (PaymentStatus::Processing, PaymentStatus::Succeeded) => true,
        (PaymentStatus::Succeeded, PaymentStatus::Refunded) => true,
        (PaymentStatus::Succeeded, PaymentStatus::PartiallyRefunded) => true,
        (PaymentStatus::PartiallyRefunded, PaymentStatus::Refunded) => true,
        (PaymentStatus::PartiallyRefunded, PaymentStatus::PartiallyRefunded) => true,
        _ => false,
    }
}

/// The state of a payment.
pub struct PaymentView {
    pub id: PaymentId,
    pub customer_id: Seq<char>,
    pub amount: Money,
    pub status: PaymentStatus,
    pub payment_method: Option<PaymentMethod>,
    pub description: Option<String>,
    pub metadata: Map<String, String>,
    pub refunded_amount: Decimal,
    pub created_at: Timestamp,
    pub events: Seq<DomainEvent>,
}

impl PaymentView {
    /// What holds of every payment: what is refunded is not below zero and
    /// not beyond the amount paid, the refunded amount agrees with the
    /// status, and the payment method is there from processing on and not
    /// before.
    pub open spec fn well_formed(self) -> bool {
        let paid = self.amount.amount.units();
        let back = self.refunded_amount.units();
        &&& 0 <= back <= paid
        &&& match self.status {
            PaymentStatus::Pending => back == 0 && self.payment_method is None,
            PaymentStatus::Processing | PaymentStatus::Succeeded => back == 0
                && self.payment_method is Some,
            PaymentStatus::PartiallyRefunded => back < paid && self.payment_method is Some,
            PaymentStatus::Refunded => back == paid && self.payment_method is Some,
            PaymentStatus::Failed | PaymentStatus::Cancelled => true,
        }
    }

    /// The state of a payment just created.
    pub open spec fn created(
        id: PaymentId,
        customer_id: Seq<char>,
        amount: Money,
        created_at: Timestamp,
    ) -> PaymentView {
        PaymentView {
            id,
            customer_id,
            amount,
            status: PaymentStatus::Pending,
            payment_method: None,
            description: None,
            metadata: Map::empty(),
            refunded_amount: Decimal::spec_zero(),
            created_at,
            events: seq![
                DomainEvent::Payment(PaymentEvent::Created { payment_id: id, amount: amount.amount }),
            ],
        }
    }

    /// Whether a refund can be made in this state.
    pub open spec fn can_refund(self) -> bool {
        self.status == PaymentStatus::Succeeded || self.status == PaymentStatus::PartiallyRefunded
    }

    /// Outcome and next state of processing with `method`.
    pub open spec fn process(self, method: PaymentMethod) -> (Result<(), PaymentError>, PaymentView) {
        if self.status == PaymentStatus::Pending {
            (
                Ok(()),
                PaymentView {
                    status: PaymentStatus::Processing,
                    payment_method: Some(method),
                    ..self
                },
            )
        } else {
            (Err(PaymentError::InvalidStatus), self)
        }
    }

    /// Outcome and next state of marking the payment as succeeded.
    pub open spec fn succeed(self) -> (Result<(), PaymentError>, PaymentView) {
        if self.status == PaymentStatus::Processing {
            (
                Ok(()),
                PaymentView {
                    status: PaymentStatus::Succeeded,
                    events: self.events.push(
                        DomainEvent::Payment(PaymentEvent::Succeeded { payment_id: self.id }),
                    ),
                    ..self
                },
            )
        } else {
            (Err(PaymentError::InvalidStatus), self)
        }
    }

    /// Next state of marking the payment as failed. No event is emitted.
    pub open spec fn fail(self) -> PaymentView {
        PaymentView { status: PaymentStatus::Failed, ..self }
    }

    /// Whether `new_total` can stand as what has been refunded in all: it
    /// is there, not below zero and not above the amount paid.
    pub open spec fn is_within_payment(self, new_total: Option<Decimal>) -> bool {
        new_total is Some && 0 <= new_total->0.units() <= self.amount.amount.units()
    }

    /// Outcome and next state of refunding `amount`, where `new_total` is
    /// the sum of what was refunded before and `amount`, `None` if that sum
    /// cannot be represented. A total that is missing, above the amount
    /// paid or below zero is refused with `RefundExceedsPayment`: the kind
    /// stands for every total that the payment does not cover, a negative
    /// one included.
    pub open spec fn refund(self, amount: Decimal, new_total: Option<Decimal>) -> (
        Result<(), PaymentError>,
        PaymentView,
    ) {
        if !self.can_refund() {
            (Err(PaymentError::NotRefundable), self)
        } else if !self.is_within_payment(new_total) {
            (Err(PaymentError::RefundExceedsPayment), self)
        } else {
            (
                Ok(()),
                PaymentView {
                    refunded_amount: new_total->0,
                    status: if new_total->0.units() == self.amount.amount.units() {
                        PaymentStatus::Refunded
                    } else {
                        PaymentStatus::PartiallyRefunded
                    },
                    events: self.events.push(
                        DomainEvent::Payment(
                            PaymentEvent::Refunded { payment_id: self.id, amount },
                        ),
                    ),
                    ..self
                },
            )
        }
    }

    /// Outcome and next state of refunding `amount` where the sum of what
    /// was refunded before and `amount` needs no rounding.
    pub open spec fn refund_exactly(self, amount: Decimal) -> (
        Result<(), PaymentError>,
        PaymentView,
    ) {
        self.refund(amount, Some(self.refunded_amount.exact_sum(&amount)))
    }

    /// Next state of draining the pending events.
    pub open spec fn drained(self) -> PaymentView {
        PaymentView { events: Seq::empty(), ..self }
    }
}

/// An operation on a payment. A refund carries the new total that decimal
/// addition gives, `None` if it cannot be represented.
pub enum PaymentOp {
    Process(PaymentMethod),
    Succeed,
    Fail,
    Refund { amount: Decimal, new_total: Option<Decimal> },
    TakeEvents,
}

impl PaymentView {
    /// Outcome and next state of an operation.
    pub open spec fn step(self, op: PaymentOp) -> (Result<(), PaymentError>, PaymentView) {
        match op {
            PaymentOp::Process(method) => self.process(method),
            PaymentOp::Succeed => self.succeed(),
            PaymentOp::Fail => (Ok(()), self.fail()),
            PaymentOp::Refund { amount, new_total } => self.refund(amount, new_total),
            PaymentOp::TakeEvents => (Ok(()), self.drained()),
        }
    }

    /// Every operation keeps a well-formed payment well formed, so that at
    /// no time less than nothing or more than was paid is refunded.
    pub proof fn lemma_step_keeps_well_formed(self, op: PaymentOp)
        requires
            self.well_formed(),
        ensures
            self.step(op).1.well_formed(),
            0 <= self.step(op).1.refunded_amount.units() <= self.step(op).1.amount.amount.units(),
    {
    }

    /// No operation brings what is refunded below zero or above the amount
    /// paid, whatever the amount of a refund is.
    pub proof fn lemma_step_keeps_refund_bounds(self, op: PaymentOp)
        ensures
            0 <= self.refunded_amount.units() ==> 0 <= self.step(op).1.refunded_amount.units(),
            self.refunded_amount.units() <= self.amount.amount.units() ==> self.step(
                op,
            ).1.refunded_amount.units() <= self.step(op).1.amount.amount.units(),
    {
    }

    /// A refund that would bring the total below zero is refused with
    /// `RefundExceedsPayment` and leaves the payment as it was.
    pub proof fn lemma_refund_below_zero_is_refused(self, amount: Decimal, new_total: Decimal)
        requires
            self.can_refund(),
            new_total.units() < 0,
        ensures
            self.refund(amount, Some(new_total)) == (
                Err::<(), PaymentError>(PaymentError::RefundExceedsPayment),
                self,
            ),
    {
    }

    /// The status changes only along the edges of the lifecycle, and an
    /// operation that is refused changes nothing at all.
    pub proof fn lemma_step_follows_edges(self, op: PaymentOp)
        ensures
            self.step(op).1.status == self.status || is_edge(self.status, self.step(op).1.status),
            self.step(op).0 is Err ==> self.step(op).1 == self,
            self.step(op).1.status != PaymentStatus::Cancelled || self.status
                == PaymentStatus::Cancelled,
    {
    }

    /// Identity, customer, amount and time of creation never change, and the
    /// payment method changes only when a pending payment is processed.
    pub proof fn lemma_step_keeps_identity(self, op: PaymentOp)
        ensures
            self.step(op).1.id == self.id,
            self.step(op).1.customer_id == self.customer_id,
            self.step(op).1.amount == self.amount,
            self.step(op).1.created_at == self.created_at,
            self.step(op).1.payment_method != self.payment_method ==> op is Process && self.status
                == PaymentStatus::Pending,
    {
    }

    /// A refund that would bring the total above the amount paid is refused
    /// with `RefundExceedsPayment` and leaves the payment as it was.
    pub proof fn lemma_refund_above_amount_is_refused(self, amount: Decimal, new_total: Decimal)
        requires
            self.can_refund(),
            new_total.units() > self.amount.amount.units(),
        ensures
            self.refund(amount, Some(new_total)) == (
                Err::<(), PaymentError>(PaymentError::RefundExceedsPayment),
                self,
            ),
    {
    }

    /// A refund that brings the total exactly to the amount paid makes the
    /// payment `Refunded`; one that leaves it below makes it
    /// `PartiallyRefunded`, after which further refunds can be made.
    pub proof fn lemma_refund_full_or_partial(self, amount: Decimal, new_total: Decimal)
        requires
            self.can_refund(),
            0 <= new_total.units() <= self.amount.amount.units(),
        ensures
            self.refund(amount, Some(new_total)).0 is Ok,
            self.refund(amount, Some(new_total)).1.refunded_amount == new_total,
            new_total.units() == self.amount.amount.units() ==> self.refund(
                amount,
                Some(new_total),
            ).1.status == PaymentStatus::Refunded,
            new_total.units() < self.amount.amount.units() ==> {
                &&& self.refund(amount, Some(new_total)).1.status
                    == PaymentStatus::PartiallyRefunded
                &&& self.refund(amount, Some(new_total)).1.can_refund()
            },
    {
    }

    /// The state after refunding `amounts` one after the other, each to
    /// the exact sum of what was refunded before and the amount.
    pub open spec fn refund_each(self, amounts: Seq<Decimal>) -> PaymentView
        decreases amounts.len(),
    {
        if amounts.len() == 0 {
            self
        } else {
            self.refund_each(amounts.drop_last()).refund_exactly(amounts.last()).1
        }
    }

    /// Whether each of the refunds of `amounts`, made one after the other,
    /// is accepted.
    pub open spec fn accepts_each(self, amounts: Seq<Decimal>) -> bool
        decreases amounts.len(),
    {
        amounts.len() == 0 || {
            &&& self.accepts_each(amounts.drop_last())
            &&& self.refund_each(amounts.drop_last()).refund_exactly(amounts.last()).0 is Ok
        }
    }

    /// Whether none of the sums needs rounding when `amounts` are refunded
    /// one after the other.
    pub open spec fn sums_are_exact(self, amounts: Seq<Decimal>) -> bool
        decreases amounts.len(),
    {
        amounts.len() == 0 || {
            &&& self.sums_are_exact(amounts.drop_last())
            &&& self.refund_each(amounts.drop_last()).refunded_amount.adds_exactly(&amounts.last())
        }
    }

    /// The sum of the values of `amounts`.
    pub open spec fn total_of(amounts: Seq<Decimal>) -> int
        decreases amounts.len(),
    {
        if amounts.len() == 0 {
            0
        } else {
            Self::total_of(amounts.drop_last()) + amounts.last().units()
        }
    }

    /// Refunds of amounts that are not negative are accepted one after the
    /// other as long as they stay within the amount paid: after them what
    /// is refunded is what was refunded before and the amounts together,
    /// and the payment is `Refunded` if that is the amount paid and
    /// `PartiallyRefunded` if it is less. The status goes by the total, not
    /// by the single amount. The total must be below the amount paid before
    /// the last refund, since no refund follows a full one; and no sum may
    /// need rounding.
    pub proof fn lemma_refunds_up_to_the_amount(self, amounts: Seq<Decimal>)
        requires
            self.can_refund(),
            self.well_formed(),
            self.refunded_amount.in_range(),
            forall|i: int|
                0 <= i < amounts.len() ==> (#[trigger] amounts[i]).in_range() && amounts[i].units()
                    >= 0,
            self.sums_are_exact(amounts),
            self.refunded_amount.units() + Self::total_of(amounts) <= self.amount.amount.units(),
            amounts.len() > 0 ==> self.refunded_amount.units() + Self::total_of(
                amounts.drop_last(),
            ) < self.amount.amount.units(),
        ensures
            self.accepts_each(amounts),
            self.refund_each(amounts).amount == self.amount,
            self.refund_each(amounts).well_formed(),
            self.refund_each(amounts).refunded_amount.in_range(),
            self.refund_each(amounts).refunded_amount.units() == self.refunded_amount.units()
                + Self::total_of(amounts),
            amounts.len() > 0 ==> self.refund_each(amounts).status == if self.refunded_amount.units()
                + Self::total_of(amounts) == self.amount.amount.units() {
                PaymentStatus::Refunded
            } else {
                PaymentStatus::PartiallyRefunded
            },
            amounts.len() > 0 ==> self.refund_each(amounts).refunded_amount
                == self.refund_each(amounts.drop_last()).refunded_amount.exact_sum(&amounts.last()),
        decreases amounts.len(),
    {
        if amounts.len() > 0 {
            let before = amounts.drop_last();
            let last = amounts.last();
            assert(last == amounts[amounts.len() - 1]);
            assert forall|i: int| 0 <= i < before.len() implies (#[trigger] before[i]).in_range()
                && before[i].units() >= 0 by {
                assert(before[i] == amounts[i]);
            }
            if before.len() > 0 {
                assert(before.last() == amounts[before.len() - 1]);
                assert(Self::total_of(before) == Self::total_of(before.drop_last())
                    + before.last().units());
            }
            self.lemma_refunds_up_to_the_amount(before);
            let mid = self.refund_each(before);
            Decimal::lemma_exact_sum(mid.refunded_amount, last);
        }
    }

    /// Where the amount paid and the amounts to refund are of one scale,
    /// and what was refunded before is nothing or of that scale too, no sum
    /// needs rounding as long as the refunds stay within the amount paid.
    pub proof fn lemma_sums_are_exact_at_one_scale(self, amounts: Seq<Decimal>)
        requires
            self.can_refund(),
            self.well_formed(),
            self.refunded_amount.in_range(),
            self.amount.amount.in_range(),
            self.refunded_amount.spec_mantissa() == 0 || self.refunded_amount.spec_scale()
                == self.amount.amount.spec_scale(),
            forall|i: int|
                0 <= i < amounts.len() ==> {
                    &&& (#[trigger] amounts[i]).in_range()
                    &&& amounts[i].units() >= 0
                    &&& amounts[i].spec_scale() == self.amount.amount.spec_scale()
                },
            self.refunded_amount.units() + Self::total_of(amounts) <= self.amount.amount.units(),
            amounts.len() > 0 ==> self.refunded_amount.units() + Self::total_of(
                amounts.drop_last(),
            ) < self.amount.amount.units(),
        ensures
            self.sums_are_exact(amounts),
            self.refund_each(amounts).refunded_amount.spec_mantissa() == 0 || self.refund_each(
                amounts,
            ).refunded_amount.spec_scale() == self.amount.amount.spec_scale(),
        decreases amounts.len(),
    {
        if amounts.len() > 0 {
            let before = amounts.drop_last();
            let last = amounts.last();
            let paid = self.amount.amount;
            assert(last == amounts[amounts.len() - 1]);
            assert forall|i: int| 0 <= i < before.len() implies {
                &&& (#[trigger] before[i]).in_range()
                &&& before[i].units() >= 0
                &&& before[i].spec_scale() == paid.spec_scale()
            } by {
                assert(before[i] == amounts[i]);
            }
            if before.len() > 0 {
                assert(before.last() == amounts[before.len() - 1]);
                assert(Self::total_of(before) == Self::total_of(before.drop_last())
                    + before.last().units());
            }
            self.lemma_sums_are_exact_at_one_scale(before);
            self.lemma_refunds_up_to_the_amount(before);
            let mid = self.refund_each(before);
            let back = mid.refunded_amount;
            if back.spec_mantissa() != 0 && last.spec_mantissa() != 0 {
                Decimal::lemma_sign(back);
                Decimal::lemma_sign(last);
                Decimal::lemma_order_at_equal_scales(back, paid);
                Decimal::lemma_order_at_equal_scales(last, paid);
                let p = vstd::arithmetic::power::pow(
                    10,
                    (crate::decimal::MAX_SCALE - paid.spec_scale()) as nat,
                );
                vstd::arithmetic::power::lemma_pow_positive(
                    10,
                    (crate::decimal::MAX_SCALE - paid.spec_scale()) as nat,
                );
                let x = back.spec_mantissa() as int;
                let y = last.spec_mantissa() as int;
                let z = paid.spec_mantissa() as int;
                assert(x + y <= z) by (nonlinear_arith)
                    requires
                        x * p + y * p <= z * p,
                        p > 0,
                ;
                Decimal::lemma_exact_sum_at_equal_scales(back, last);
            }
            assert(back.adds_exactly(&last));
            assert(self.sums_are_exact(amounts));
            self.lemma_refunds_up_to_the_amount(amounts);
            Decimal::lemma_exact_sum(back, last);
        }
    }

    /// Once the payment is `Refunded`, every further refund is refused with
    /// `NotRefundable`.
    pub proof fn lemma_no_refund_after_full_refund(
        self,
        amount: Decimal,
        new_total: Option<Decimal>,
    )
        requires
            self.status == PaymentStatus::Refunded,
        ensures
            self.refund(amount, new_total) == (
                Err::<(), PaymentError>(PaymentError::NotRefundable),
                self,
            ),
    {
    }

    /// A payment can be marked as succeeded only in `Processing`, which no
    /// operation but a successful `process` leads to; elsewhere `succeed` is
    /// refused with `InvalidStatus` and changes nothing.
    pub proof fn lemma_succeed_only_after_process(self, op: PaymentOp)
        ensures
            self.succeed().0 is Ok <==> self.status == PaymentStatus::Processing,
            self.status != PaymentStatus::Processing ==> self.succeed() == (
                Err::<(), PaymentError>(PaymentError::InvalidStatus),
                self,
            ),
            self.status != PaymentStatus::Processing && self.step(op).1.status
                == PaymentStatus::Processing ==> op is Process && self.step(op).0 is Ok,
    {
    }

    /// Draining returns the pending events and leaves none, so a second
    /// drain right after returns the empty sequence.
    pub proof fn lemma_drain_twice(self)
        ensures
            self.drained().events == Seq::<DomainEvent>::empty(),
            self.drained().drained() == self.drained(),
    {
    }

    /// The events that an operation emits in this state: `Succeeded` by a
    /// `succeed` that is accepted, `Refunded` by a refund that is accepted,
    /// and none else.
    pub open spec fn emitted(self, op: PaymentOp) -> Seq<DomainEvent> {
        match op {
            PaymentOp::Succeed => if self.succeed().0 is Ok {
                seq![DomainEvent::Payment(PaymentEvent::Succeeded { payment_id: self.id })]
            } else {
                Seq::empty()
            },
            PaymentOp::Refund { amount, new_total } => if self.refund(amount, new_total).0 is Ok {
                seq![DomainEvent::Payment(PaymentEvent::Refunded { payment_id: self.id, amount })]
            } else {
                Seq::empty()
            },
            _ => Seq::empty(),
        }
    }

    /// The state after the operations `ops`, one after the other.
    pub open spec fn run(self, ops: Seq<PaymentOp>) -> PaymentView
        decreases ops.len(),
    {
        if ops.len() == 0 {
            self
        } else {
            self.step(ops[0]).1.run(ops.drop_first())
        }
    }

    /// The events that the operations `ops` emit, one after the other.
    pub open spec fn emitted_by(self, ops: Seq<PaymentOp>) -> Seq<DomainEvent>
        decreases ops.len(),
    {
        if ops.len() == 0 {
            Seq::empty()
        } else {
            self.emitted(ops[0]) + self.step(ops[0]).1.emitted_by(ops.drop_first())
        }
    }

    /// An operation other than a drain appends what it emits to the pending
    /// events and touches no event that is pending already.
    pub proof fn lemma_events_are_appended(self, op: PaymentOp)
        requires
            op !is TakeEvents,
        ensures
            self.step(op).1.events == self.events + self.emitted(op),
    {
        assert(self.step(op).1.events =~= self.events + self.emitted(op));
    }

    /// What is pending after some operations without a drain is what was
    /// pending before, followed by what they emitted, in that order.
    pub proof fn lemma_pending_events(self, ops: Seq<PaymentOp>)
        requires
            forall|i: int| 0 <= i < ops.len() ==> #[trigger] ops[i] !is TakeEvents,
        ensures
            self.run(ops).events == self.events + self.emitted_by(ops),
        decreases ops.len(),
    {
        if ops.len() > 0 {
            let next = self.step(ops[0]).1;
            let rest = ops.drop_first();
            self.lemma_events_are_appended(ops[0]);
            assert forall|i: int| 0 <= i < rest.len() implies #[trigger] rest[i] !is TakeEvents by {
                assert(rest[i] == ops[i + 1]);
            }
            next.lemma_pending_events(rest);
        }
        assert(self.run(ops).events =~= self.events + self.emitted_by(ops));
    }

    /// A drain hands out exactly the events emitted since the drain before
    /// it, in the order of their emission.
    pub proof fn lemma_pending_events_since_drain(self, ops: Seq<PaymentOp>)
        requires
            forall|i: int| 0 <= i < ops.len() ==> #[trigger] ops[i] !is TakeEvents,
        ensures
            self.drained().run(ops).events == self.drained().emitted_by(ops),
    {
        self.drained().lemma_pending_events(ops);
        assert(self.drained().run(ops).events =~= self.drained().emitted_by(ops));
    }
}

/// A payment.
#[derive(Debug)]
pub struct Payment {
    id: PaymentId,
    customer_id: String,
    amount: Money,
    status: PaymentStatus,
    payment_method: Option<PaymentMethod>,
    description: Option<String>,
    metadata: HashMap<String, String>,
    refunded_amount: Decimal,
    created_at: Timestamp,
    events: Vec<DomainEvent>,
}

impl View for Payment {
    type V = PaymentView;

    closed spec fn view(&self) -> PaymentView {
        PaymentView {
            id: self.id,
            customer_id: self.customer_id@,
            amount: self.amount,
            status: self.status,
            payment_method: self.payment_method,
            description: self.description,
            metadata: self.metadata@,
            refunded_amount: self.refunded_amount,
            created_at: self.created_at,
            events: self.events@,
        }
    }
}

impl Clone for Payment {
    fn clone(&self) -> (r: Self)
        ensures
            r@ == self@,
    {
        let events = self.events.clone();
        assert(events@ =~= self.events@);
        Payment {
            id: self.id.clone(),
            customer_id: self.customer_id.clone(),
            amount: self.amount.clone(),
            status: self.status,
            payment_method: self.payment_method.clone(),
            description: self.description.clone(),
            metadata: self.metadata.clone(),
            refunded_amount: self.refunded_amount,
            created_at: self.created_at,
            events,
        }
    }
}

impl Payment {
    /// A new pending payment of `amount` by the customer, with a fresh
    /// identifier and the current time, and `Created` as its one event. The
    /// amount is taken as it is; the payment is well formed if it is not
    /// negative.
    pub fn create(customer_id: &str, amount: Money) -> (p: Payment)
        ensures
            is_payment_token(p@.id@),
            p@ == PaymentView::created(p@.id, customer_id@, amount, p@.created_at),
            p@.created_at.nanos < NANOS_PER_SECOND,
            day_in_range(p@.created_at.utc_day()),
            amount.amount.units() >= 0 ==> p@.well_formed(),
    {
        Self::create_with(PaymentId::new(), customer_id, amount, Timestamp::now())
    }

    /// A new pending payment of `amount` by the customer, with the given
    /// identifier and time of creation, and `Created` as its one event. The
    /// amount is taken as it is; the payment is well formed if it is not
    /// negative.
    pub fn create_with(id: PaymentId, customer_id: &str, amount: Money, created_at: Timestamp) -> (p:
        Payment)
        ensures
            p@ == PaymentView::created(id, customer_id@, amount, created_at),
            amount.amount.units() >= 0 ==> p@.well_formed(),
    {
        let mut events: Vec<DomainEvent> = Vec::new();
        events.push(
            DomainEvent::Payment(
                PaymentEvent::Created { payment_id: id.clone(), amount: amount.amount },
            ),
        );
        let p = Payment {
            id,
            customer_id: String::from_str(customer_id),
            amount,
            status: PaymentStatus::Pending,
            payment_method: None,
            description: None,
            metadata: HashMap::new(),
            refunded_amount: Decimal::zero(),
            created_at,
            events,
        };
        assert(p@.events =~= seq![
            DomainEvent::Payment(PaymentEvent::Created { payment_id: id, amount: amount.amount }),
        ]);
        p
    }

    /// The identifier.
    pub fn id(&self) -> (r: &PaymentId)
        ensures
            *r == self@.id,
    {
        &self.id
    }

    /// The amount to pay.
    pub fn amount(&self) -> (r: &Money)
        ensures
            *r == self@.amount,
    {
        &self.amount
    }

    /// The status.
    pub fn status(&self) -> (r: &PaymentStatus)
        ensures
            *r == self@.status,
    {
        &self.status
    }

    /// What has been refunded so far.
    pub fn refunded_amount(&self) -> (r: Decimal)
        ensures
            r == self@.refunded_amount,
    {
        self.refunded_amount
    }

    /// The customer.
    pub fn customer_id(&self) -> (r: &str)
        ensures
            r@ == self@.customer_id,
    {
        self.customer_id.as_str()
    }

    /// The payment method, once the payment has been processed.
    pub fn payment_method(&self) -> (r: &Option<PaymentMethod>)
        ensures
            *r == self@.payment_method,
    {
        &self.payment_method
    }

    /// When the payment was created.
    pub fn created_at(&self) -> (r: Timestamp)
        ensures
            r == self@.created_at,
    {
        self.created_at
    }

    /// Starts processing a pending payment with `method`; refused with
    /// `InvalidStatus` in any other state. No event is emitted.
    pub fn process(&mut self, method: PaymentMethod) -> (r: Result<(), PaymentError>)
        ensures
            (r, final(self)@) == old(self)@.process(method),
            old(self)@.well_formed() ==> final(self)@.well_formed(),
    {
        if self.status != PaymentStatus::Pending {
            return Err(PaymentError::InvalidStatus);
        }
        self.payment_method = Some(method);
        self.status = PaymentStatus::Processing;
        Ok(())
    }

    /// Marks a payment in processing as succeeded and emits `Succeeded`;
    /// refused with `InvalidStatus` in any other state.
    pub fn succeed(&mut self) -> (r: Result<(), PaymentError>)
        ensures
            (r, final(self)@) == old(self)@.succeed(),
            old(self)@.well_formed() ==> final(self)@.well_formed(),
    {
        if self.status != PaymentStatus::Processing {
            return Err(PaymentError::InvalidStatus);
        }
        self.status = PaymentStatus::Succeeded;
        let e = DomainEvent::Payment(PaymentEvent::Succeeded { payment_id: self.id.clone() });
        self.raise_event(e);
        Ok(())
    }

    /// Marks the payment as failed, whatever its state. No event is emitted.
    pub fn fail(&mut self, _reason: &str)
        ensures
            final(self)@ == old(self)@.fail(),
            old(self)@.well_formed() ==> final(self)@.well_formed(),
    {
        self.status = PaymentStatus::Failed;
    }

    /// Refunds `amount` of a succeeded or partially refunded payment. The
    /// new total is the sum of what was refunded before and `amount`, as
    /// decimal addition gives it, which is the exact sum wherever nothing
    /// has to be rounded. The refund is refused with `RefundExceedsPayment`
    /// where that total cannot be represented, is above the amount paid or
    /// is below zero, so that what is refunded never leaves the range from
    /// nothing to the amount paid, whatever `amount` is.
    pub fn refund(&mut self, amount: Decimal) -> (r: Result<(), PaymentError>)
        ensures
            (r, final(self)@) == old(self)@.refund(
                amount,
                old(self)@.refunded_amount.sum_with(&amount),
            ),
            old(self)@.refunded_amount.adds_exactly(&amount) ==> (r, final(self)@) == old(
                self,
            )@.refund_exactly(amount),
            old(self)@.well_formed() ==> final(self)@.well_formed(),
            r is Ok ==> 0 <= final(self)@.refunded_amount.units()
                <= final(self)@.amount.amount.units(),
            old(self)@.refunded_amount.units() >= 0 ==> final(self)@.refunded_amount.units() >= 0,
            old(self)@.can_refund() && old(self)@.refunded_amount.adds_exactly(&amount) ==> {
                let exact = old(self)@.refunded_amount.units() + amount.units();
                &&& r is Ok <==> 0 <= exact <= old(self)@.amount.amount.units()
                &&& r is Ok ==> final(self)@.refunded_amount.units() == exact
            },
    {
        let new_total = self.refunded_amount.checked_add(&amount);
        self.apply_refund(amount, new_total)
    }

    /// Refunds `amount` where `new_total` is what has then been refunded in
    /// all, `None` if that cannot be represented: refused with
    /// `NotRefundable` unless the payment is succeeded or partially refunded,
    /// and with `RefundExceedsPayment` if the new total is missing, above
    /// the amount paid or below zero. Else the new total is recorded, the
    /// payment is `Refunded` if the total equals the amount paid and
    /// `PartiallyRefunded` if not, and `Refunded` is emitted.
    pub fn apply_refund(&mut self, amount: Decimal, new_total: Option<Decimal>) -> (r: Result<
        (),
        PaymentError,
    >)
        ensures
            (r, final(self)@) == old(self)@.refund(amount, new_total),
            old(self)@.well_formed() ==> final(self)@.well_formed(),
    {
        if self.status != PaymentStatus::Succeeded && self.status
            != PaymentStatus::PartiallyRefunded {
            return Err(PaymentError::NotRefundable);
        }
        let total = match new_total {
            Some(t) => t,
            None => {
                return Err(PaymentError::RefundExceedsPayment);
            },
        };
        if total.gt(&self.amount.amount) || total.is_negative() {
            return Err(PaymentError::RefundExceedsPayment);
        }
        self.refunded_amount = total;
        self.status = if total.value_eq(&self.amount.amount) {
            PaymentStatus::Refunded
        } else {
            PaymentStatus::PartiallyRefunded
        };
        let e = DomainEvent::Payment(
            PaymentEvent::Refunded { payment_id: self.id.clone(), amount },
        );
        self.raise_event(e);
        Ok(())
    }

    /// Hands out the pending events in the order of their emission and
    /// leaves none behind.
    pub fn take_events(&mut self) -> (events: Vec<DomainEvent>)
        ensures
            events@ == old(self)@.events,
            final(self)@ == old(self)@.drained(),
            old(self)@.well_formed() ==> final(self)@.well_formed(),
    {
        let mut events: Vec<DomainEvent> = Vec::new();
        std::mem::swap(&mut events, &mut self.events);
        events
    }

    fn raise_event(&mut self, e: DomainEvent)
        ensures
            final(self)@ == (PaymentView { events: old(self)@.events.push(e), ..old(self)@ }),
    {
        self.events.push(e);
    }
}

} // verus!
