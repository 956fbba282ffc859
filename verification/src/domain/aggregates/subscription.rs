//! Subscription aggregate: recurring billing in periods of a fixed number
//! of days.
//!
//! The state of a subscription is its [`SubscriptionView`]. Each operation is
//! described by a function on views; the methods of [`Subscription`] compute
//! exactly that.

use vstd::prelude::*;
use vstd::string::*;
use crate::clock::{day_in_range, Date, Timestamp, NANOS_PER_SECOND};
use crate::domain::events::{DomainEvent, SubscriptionEvent};
use crate::domain::value_objects::Money;
use crate::unique::{fresh_uuid, is_hyphenated_uuid};

verus! {

/// Where a subscription stands.
#[derive(Clone, Copy, Debug, PartialEq, Eq, Structural)]
pub enum SubscriptionStatus {
    Active,
    PastDue,
    Cancelled,
    Trialing,
    Paused,
}

impl Default for SubscriptionStatus {
    fn default() -> (s: Self)
        ensures
            s == SubscriptionStatus::Active,
    {
        SubscriptionStatus::Active
    }
}

/// How often a subscription is billed.
#[derive(Clone, Copy, Debug, PartialEq, Eq, Structural)]
pub enum BillingCycle {
    Monthly,
    Yearly,
    Weekly,
}

impl Default for BillingCycle {
    fn default() -> (c: Self)
        ensures
            c == BillingCycle::Monthly,
    {
        BillingCycle::Monthly
    }
}

/// The length of a billing period in days: 30 for a month, 365 for a year,
/// 7 for a week.
pub open spec fn cycle_days(cycle: BillingCycle) -> int {
    match cycle {
        BillingCycle::Monthly => 30,
        BillingCycle::Yearly => 365,
        BillingCycle::Weekly => 7,
    }
}

impl BillingCycle {
    /// The length of a billing period in days.
    pub fn days(&self) -> (n: i32)
        ensures
            n == cycle_days(*self),
            n == 30 || n == 365 || n == 7,
    {
        match self {
            BillingCycle::Monthly => 30,
            BillingCycle::Yearly => 365,
            BillingCycle::Weekly => 7,
        }
    }
}

/// Why an operation on a subscription was refused. No operation refuses
/// yet; the kinds are there for those that will.
#[derive(Clone, Copy, Debug, PartialEq, Eq, Structural)]
pub enum SubscriptionError {
    AlreadyCancelled,
    NotPaused,
}

impl SubscriptionError {
    /// The message of the error, the same for both kinds.
    pub fn to_string(&self) -> (s: String)
        ensures
            s@ == "Subscription error"@,
    {
        String::from_str("Subscription error")
    }
}

/// Whether the status can change from `from` to `to`: a subscription can be
/// cancelled or paused in every state, and becomes active again only from
/// `Paused`.
pub open spec fn is_edge(from: SubscriptionStatus, to: SubscriptionStatus) -> bool {
    match (from, to) {
        (_, SubscriptionStatus::Cancelled) => true,
        (_, SubscriptionStatus::Paused) => true,
        (SubscriptionStatus::Paused, SubscriptionStatus::Active) => true,
        _ => false,
    }
}

/// The state of a subscription.
pub struct SubscriptionView {
    pub id: String,
    pub customer_id: Seq<char>,
    pub plan_id: Seq<char>,
    pub status: SubscriptionStatus,
    pub current_period_start: Date,
    pub current_period_end: Date,
    pub billing_cycle: BillingCycle,
    pub amount: Money,
    pub cancel_at_period_end: bool,
    pub cancelled_at: Option<Timestamp>,
    pub created_at: Timestamp,
    pub events: Seq<DomainEvent>,
}

/// An operation on a subscription. A cancellation carries the time at which
/// it is made.
pub enum SubscriptionOp {
    Renew,
    Cancel { at_period_end: bool, now: Timestamp },
    Pause,
    Resume,
    TakeEvents,
}

impl SubscriptionView {
    /// What holds of every subscription: the period ends one billing cycle
    /// after it starts, both days are dates, and a cancelled subscription
    /// knows when it was cancelled.
    pub open spec fn well_formed(self) -> bool {
        &&& day_in_range(self.current_period_start.spec_days() as int)
        &&& day_in_range(self.current_period_end.spec_days() as int)
        &&& self.current_period_end.spec_days() == self.current_period_start.spec_days()
            + cycle_days(self.billing_cycle)
        &&& self.status == SubscriptionStatus::Cancelled ==> self.cancelled_at is Some
    }

    /// Whether a first period that starts on `today` ends on a date.
    pub open spec fn can_start(today: Date, cycle: BillingCycle) -> bool {
        day_in_range(today.spec_days() + cycle_days(cycle))
    }

    /// The state of a subscription just created on the day `today`.
    pub open spec fn created(
        id: String,
        customer_id: Seq<char>,
        plan_id: Seq<char>,
        amount: Money,
        cycle: BillingCycle,
        today: Date,
        created_at: Timestamp,
    ) -> SubscriptionView {
        SubscriptionView {
            id,
            customer_id,
            plan_id,
            status: SubscriptionStatus::Active,
            current_period_start: today,
            current_period_end: today.plus_days(cycle_days(cycle)),
            billing_cycle: cycle,
            amount,
            cancel_at_period_end: false,
            cancelled_at: None,
            created_at,
            events: seq![
                DomainEvent::Subscription(SubscriptionEvent::Created { subscription_id: id }),
            ],
        }
    }

    /// Whether the next period ends on a date.
    pub open spec fn can_renew(self) -> bool {
        day_in_range(self.current_period_end.spec_days() + cycle_days(self.billing_cycle))
    }

    /// Next state of renewing: the next period starts where this one ends
    /// and lasts one billing cycle. Status and cancellation flag stay.
    pub open spec fn renew(self) -> SubscriptionView {
        SubscriptionView {
            current_period_start: self.current_period_end,
            current_period_end: self.current_period_end.plus_days(cycle_days(self.billing_cycle)),
            events: self.events.push(
                DomainEvent::Subscription(SubscriptionEvent::Renewed { subscription_id: self.id }),
            ),
            ..self
        }
    }

    /// Next state of cancelling at the time `now`: at the end of the period
    /// only the flag is set; at once the status becomes `Cancelled` and the
    /// time is recorded. `Cancelled` is emitted either way.
    pub open spec fn cancel(self, at_period_end: bool, now: Timestamp) -> SubscriptionView {
        let events = self.events.push(
            DomainEvent::Subscription(
                SubscriptionEvent::Cancelled { subscription_id: self.id, at_period_end },
            ),
        );
        if at_period_end {
            SubscriptionView { cancel_at_period_end: true, events, ..self }
        } else {
            SubscriptionView {
                status: SubscriptionStatus::Cancelled,
                cancelled_at: Some(now),
                events,
                ..self
            }
        }
    }

    /// Next state of pausing.
    pub open spec fn pause(self) -> SubscriptionView {
        SubscriptionView { status: SubscriptionStatus::Paused, ..self }
    }

    /// Next state of resuming: active again if paused, else unchanged.
    pub open spec fn resume(self) -> SubscriptionView {
        if self.status == SubscriptionStatus::Paused {
            SubscriptionView { status: SubscriptionStatus::Active, ..self }
        } else {
            self
        }
    }

    /// Next state of draining the pending events.
    pub open spec fn drained(self) -> SubscriptionView {
        SubscriptionView { events: Seq::empty(), ..self }
    }

    /// Next state of an operation.
    pub open spec fn step(self, op: SubscriptionOp) -> SubscriptionView {
        match op {
            SubscriptionOp::Renew => self.renew(),
            SubscriptionOp::Cancel { at_period_end, now } => self.cancel(at_period_end, now),
            SubscriptionOp::Pause => self.pause(),
            SubscriptionOp::Resume => self.resume(),
            SubscriptionOp::TakeEvents => self.drained(),
        }
    }

    /// A subscription just created is well formed, active, not flagged for
    /// cancellation, and its first period lasts one billing cycle.
    pub proof fn lemma_created_is_well_formed(
        id: String,
        customer_id: Seq<char>,
        plan_id: Seq<char>,
        amount: Money,
        cycle: BillingCycle,
        today: Date,
        created_at: Timestamp,
    )
        requires
            day_in_range(today.spec_days() as int),
            Self::can_start(today, cycle),
        ensures
            Self::created(id, customer_id, plan_id, amount, cycle, today, created_at).well_formed(),
            Self::created(
                id,
                customer_id,
                plan_id,
                amount,
                cycle,
                today,
                created_at,
            ).current_period_end.spec_days() == today.spec_days() + cycle_days(cycle),
    {
        Date::lemma_at_day(today.spec_days() + cycle_days(cycle));
    }

    /// Renewal moves the period on by exactly one billing cycle: the new
    /// period starts where the old one ended and ends 30, 365 or 7 days
    /// after its start, as the cycle is monthly, yearly or weekly.
    pub proof fn lemma_renew_advances_one_cycle(self)
        requires
            self.well_formed(),
            self.can_renew(),
        ensures
            self.renew().current_period_start == self.current_period_end,
            self.renew().current_period_end.spec_days() == self.renew().current_period_start.spec_days()
                + cycle_days(self.billing_cycle),
            self.renew().current_period_end.spec_days() == self.current_period_end.spec_days()
                + cycle_days(self.billing_cycle),
            self.renew().status == self.status,
            self.renew().cancel_at_period_end == self.cancel_at_period_end,
            self.renew().well_formed(),
    {
        Date::lemma_at_day(self.current_period_end.spec_days() + cycle_days(self.billing_cycle));
    }

    /// Every operation keeps a well-formed subscription well formed, a
    /// renewal where the next period ends on a date.
    pub proof fn lemma_step_keeps_well_formed(self, op: SubscriptionOp)
        requires
            self.well_formed(),
            op is Renew ==> self.can_renew(),
        ensures
            self.step(op).well_formed(),
    {
        if op is Renew {
            self.lemma_renew_advances_one_cycle();
        }
    }

    /// The status changes only by cancelling at once, pausing, or resuming
    /// from `Paused`.
    pub proof fn lemma_step_follows_edges(self, op: SubscriptionOp)
        ensures
            self.step(op).status == self.status || is_edge(self.status, self.step(op).status),
            self.step(op).status != self.status ==> op is Cancel || op is Pause || op is Resume,
    {
    }

    /// Resuming changes nothing unless the subscription is paused, and then
    /// only makes it active; pausing gives `Paused` from every state.
    pub proof fn lemma_pause_and_resume(self)
        ensures
            self.status != SubscriptionStatus::Paused ==> self.resume() == self,
            self.status == SubscriptionStatus::Paused ==> self.resume() == (SubscriptionView {
                status: SubscriptionStatus::Active,
                ..self
            }),
            self.pause().status == SubscriptionStatus::Paused,
            self.pause().resume().status == SubscriptionStatus::Active,
    {
    }

    /// Cancelling at the end of the period leaves the status as it is and
    /// sets the flag; cancelling at once gives `Cancelled` and leaves the
    /// flag as it is.
    pub proof fn lemma_cancel_signals(self, now: Timestamp)
        ensures
            self.cancel(true, now).status == self.status,
            self.cancel(true, now).cancel_at_period_end,
            self.cancel(true, now).cancelled_at == self.cancelled_at,
            self.cancel(false, now).status == SubscriptionStatus::Cancelled,
            self.cancel(false, now).cancelled_at == Some(now),
            self.cancel(false, now).cancel_at_period_end == self.cancel_at_period_end,
    {
    }

    /// Draining returns the pending events and leaves none, so a second
    /// drain right after returns the empty sequence.
    pub proof fn lemma_drain_twice(self)
        ensures
            self.drained().events == Seq::<DomainEvent>::empty(),
            self.drained().drained() == self.drained(),
    {
    }

    /// The events that an operation emits: `Renewed` by a renewal,
    /// `Cancelled` by a cancellation, and none else.
    pub open spec fn emitted(self, op: SubscriptionOp) -> Seq<DomainEvent> {
        match op {
            SubscriptionOp::Renew => seq![
                DomainEvent::Subscription(SubscriptionEvent::Renewed { subscription_id: self.id }),
            ],
            SubscriptionOp::Cancel { at_period_end, now } => seq![
                DomainEvent::Subscription(
                    SubscriptionEvent::Cancelled { subscription_id: self.id, at_period_end },
                ),
            ],
            _ => Seq::empty(),
        }
    }

    /// The state after the operations `ops`, one after the other.
    pub open spec fn run(self, ops: Seq<SubscriptionOp>) -> SubscriptionView
        decreases ops.len(),
    {
        if ops.len() == 0 {
            self
        } else {
            self.step(ops[0]).run(ops.drop_first())
        }
    }

    /// The events that the operations `ops` emit, one after the other.
    pub open spec fn emitted_by(self, ops: Seq<SubscriptionOp>) -> Seq<DomainEvent>
        decreases ops.len(),
    {
        if ops.len() == 0 {
            Seq::empty()
        } else {
            self.emitted(ops[0]) + self.step(ops[0]).emitted_by(ops.drop_first())
        }
    }

    /// An operation other than a drain appends what it emits to the pending
    /// events and touches no event that is pending already.
    pub proof fn lemma_events_are_appended(self, op: SubscriptionOp)
        requires
            op !is TakeEvents,
        ensures
            self.step(op).events == self.events + self.emitted(op),
    {
        assert(self.step(op).events =~= self.events + self.emitted(op));
    }

    /// What is pending after some operations without a drain is what was
    /// pending before, followed by what they emitted, in that order.
    pub proof fn lemma_pending_events(self, ops: Seq<SubscriptionOp>)
        requires
            forall|i: int| 0 <= i < ops.len() ==> #[trigger] ops[i] !is TakeEvents,
        ensures
            self.run(ops).events == self.events + self.emitted_by(ops),
        decreases ops.len(),
    {
        if ops.len() > 0 {
            let next = self.step(ops[0]);
            let rest = ops.drop_first();
            self.lemma_events_are_appended(ops[0]);
            assert forall|i: int| 0 <= i < rest.len() implies #[trigger] rest[i] !is TakeEvents by {
                assert(rest[i] == ops[i + 1]);
            }
            next.lemma_pending_events(rest);
        }
        assert(self.run(ops).events =~= self.events + self.emitted_by(ops));
    }

    /// A drain hands out exactly the events emitted since the drain before
    /// it, in the order of their emission.
    pub proof fn lemma_pending_events_since_drain(self, ops: Seq<SubscriptionOp>)
        requires
            forall|i: int| 0 <= i < ops.len() ==> #[trigger] ops[i] !is TakeEvents,
        ensures
            self.drained().run(ops).events == self.drained().emitted_by(ops),
    {
        self.drained().lemma_pending_events(ops);
        assert(self.drained().run(ops).events =~= self.drained().emitted_by(ops));
    }
}

/// A subscription.
#[derive(Debug)]
pub struct Subscription {
    id: String,
    customer_id: String,
    plan_id: String,
    status: SubscriptionStatus,
    current_period_start: Date,
    current_period_end: Date,
    billing_cycle: BillingCycle,
    amount: Money,
    cancel_at_period_end: bool,
    cancelled_at: Option<Timestamp>,
    created_at: Timestamp,
    events: Vec<DomainEvent>,
}

impl View for Subscription {
    type V = SubscriptionView;

    closed spec fn view(&self) -> SubscriptionView {
        SubscriptionView {
            id: self.id,
            customer_id: self.customer_id@,
            plan_id: self.plan_id@,
            status: self.status,
            current_period_start: self.current_period_start,
            current_period_end: self.current_period_end,
            billing_cycle: self.billing_cycle,
            amount: self.amount,
            cancel_at_period_end: self.cancel_at_period_end,
            cancelled_at: self.cancelled_at,
            created_at: self.created_at,
            events: self.events@,
        }
    }
}

impl Clone for Subscription {
    fn clone(&self) -> (r: Self)
        ensures
            r@ == self@,
    {
        let events = self.events.clone();
        assert(events@ =~= self.events@);
        Subscription {
            id: self.id.clone(),
            customer_id: self.customer_id.clone(),
            plan_id: self.plan_id.clone(),
            status: self.status,
            current_period_start: self.current_period_start,
            current_period_end: self.current_period_end,
            billing_cycle: self.billing_cycle,
            amount: self.amount.clone(),
            cancel_at_period_end: self.cancel_at_period_end,
            cancelled_at: self.cancelled_at,
            created_at: self.created_at,
            events,
        }
    }
}

impl Subscription {
    /// A new active subscription of the customer to the plan, with a fresh
    /// identifier, whose first period starts today and lasts one billing
    /// cycle, created at the current instant, and `Created` as its one
    /// event. `None` only where that period would end after the last date
    /// there is; whether it does is for the clock to say, and `create_at`
    /// says it for every date.
    pub fn create(customer_id: &str, plan_id: &str, amount: Money, cycle: BillingCycle) -> (r:
        Option<Subscription>)
        ensures
            r matches Some(s) ==> {
                &&& is_hyphenated_uuid(s@.id@)
                &&& SubscriptionView::can_start(s@.current_period_start, cycle)
                &&& s@.created_at.nanos < NANOS_PER_SECOND
                &&& day_in_range(s@.created_at.utc_day())
                &&& s@ == SubscriptionView::created(
                    s@.id,
                    customer_id@,
                    plan_id@,
                    amount,
                    cycle,
                    s@.current_period_start,
                    s@.created_at,
                )
                &&& s@.well_formed()
            },
    {
        Self::create_at(fresh_uuid(), customer_id, plan_id, amount, cycle, Date::today(), Timestamp::now())
    }

    /// A new active subscription with the given identifier and time of
    /// creation, whose first period starts on `today`: `None` where that
    /// period would end after the last date there is, and only there.
    pub fn create_at(
        id: String,
        customer_id: &str,
        plan_id: &str,
        amount: Money,
        cycle: BillingCycle,
        today: Date,
        created_at: Timestamp,
    ) -> (r: Option<Subscription>)
        ensures
            r is Some <==> SubscriptionView::can_start(today, cycle),
            r matches Some(s) ==> {
                &&& s@ == SubscriptionView::created(
                    id,
                    customer_id@,
                    plan_id@,
                    amount,
                    cycle,
                    today,
                    created_at,
                )
                &&& s@.current_period_end.spec_days() == today.spec_days() + cycle_days(cycle)
                &&& s@.well_formed()
            },
    {
        let start = today.days_from_ce();
        let period_end = match today.checked_add_days(cycle.days()) {
            Some(d) => d,
            None => {
                return None;
            },
        };
        let mut events: Vec<DomainEvent> = Vec::new();
        events.push(
            DomainEvent::Subscription(SubscriptionEvent::Created { subscription_id: id.clone() }),
        );
        let s = Subscription {
            id,
            customer_id: String::from_str(customer_id),
            plan_id: String::from_str(plan_id),
            status: SubscriptionStatus::Active,
            current_period_start: today,
            current_period_end: period_end,
            billing_cycle: cycle,
            amount,
            cancel_at_period_end: false,
            cancelled_at: None,
            created_at,
            events,
        };
        assert(s@.events =~= seq![
            DomainEvent::Subscription(SubscriptionEvent::Created { subscription_id: id }),
        ]);
        Some(s)
    }

    /// The identifier.
    pub fn id(&self) -> (r: &str)
        ensures
            r@ == self@.id@,
    {
        self.id.as_str()
    }

    /// The status.
    pub fn status(&self) -> (r: &SubscriptionStatus)
        ensures
            *r == self@.status,
    {
        &self.status
    }

    /// The amount billed each period.
    pub fn amount(&self) -> (r: &Money)
        ensures
            *r == self@.amount,
    {
        &self.amount
    }

    /// Whether the status is `Active`.
    pub fn is_active(&self) -> (r: bool)
        ensures
            r == (self@.status == SubscriptionStatus::Active),
    {
        self.status == SubscriptionStatus::Active
    }

    /// The customer.
    pub fn customer_id(&self) -> (r: &str)
        ensures
            r@ == self@.customer_id,
    {
        self.customer_id.as_str()
    }

    /// The plan subscribed to.
    pub fn plan_id(&self) -> (r: &str)
        ensures
            r@ == self@.plan_id,
    {
        self.plan_id.as_str()
    }

    /// When the subscription was created.
    pub fn created_at(&self) -> (r: Timestamp)
        ensures
            r == self@.created_at,
    {
        self.created_at
    }

    /// The first day of the current period.
    pub fn current_period_start(&self) -> (r: Date)
        ensures
            r == self@.current_period_start,
    {
        self.current_period_start
    }

    /// The day the current period ends.
    pub fn current_period_end(&self) -> (r: Date)
        ensures
            r == self@.current_period_end,
    {
        self.current_period_end
    }

    /// The billing cycle.
    pub fn billing_cycle(&self) -> (r: BillingCycle)
        ensures
            r == self@.billing_cycle,
    {
        self.billing_cycle
    }

    /// Whether the subscription is flagged to be cancelled at the end of
    /// the period.
    pub fn cancel_at_period_end(&self) -> (r: bool)
        ensures
            r == self@.cancel_at_period_end,
    {
        self.cancel_at_period_end
    }

    /// When the subscription was cancelled at once, if it ever was.
    pub fn cancelled_at(&self) -> (r: Option<Timestamp>)
        ensures
            r == self@.cancelled_at,
    {
        self.cancelled_at
    }

    /// Whether the next period ends on a date, so that the subscription can
    /// be renewed.
    pub fn can_renew(&self) -> (r: bool)
        ensures
            r == self@.can_renew(),
    {
        self.current_period_end.checked_add_days(self.billing_cycle.days()).is_some()
    }

    /// Moves on to the next period, which starts where the current one ends
    /// and lasts one billing cycle, and emits `Renewed`. Status and
    /// cancellation flag stay as they are.
    pub fn renew(&mut self)
        requires
            old(self)@.can_renew(),
        ensures
            final(self)@ == old(self)@.renew(),
            final(self)@.current_period_end.spec_days() == old(self)@.current_period_end.spec_days()
                + cycle_days(old(self)@.billing_cycle),
            old(self)@.well_formed() ==> final(self)@.well_formed(),
    {
        let start = self.current_period_end;
        let end = start.checked_add_days(self.billing_cycle.days());
        self.current_period_start = start;
        self.current_period_end = end.unwrap();
        let e = DomainEvent::Subscription(
            SubscriptionEvent::Renewed { subscription_id: self.id.clone() },
        );
        self.raise_event(e);
    }

    /// Cancels now: at the end of the period, which only sets the flag, or
    /// at once, which makes the status `Cancelled` and records the current
    /// instant, one whose nanoseconds are less than a second and whose day
    /// is a date. `Cancelled` is emitted either way, also on a subscription
    /// that is cancelled already.
    pub fn cancel(&mut self, at_period_end: bool)
        ensures
            exists|now: Timestamp|
                {
                    &&& now.nanos < NANOS_PER_SECOND
                    &&& day_in_range(now.utc_day())
                    &&& final(self)@ == #[trigger] old(self)@.cancel(at_period_end, now)
                },
            !at_period_end ==> {
                &&& final(self)@.cancelled_at is Some
                &&& final(self)@.cancelled_at->0.nanos < NANOS_PER_SECOND
                &&& day_in_range(final(self)@.cancelled_at->0.utc_day())
            },
            old(self)@.well_formed() ==> final(self)@.well_formed(),
    {
        let now = Timestamp::now();
        self.cancel_at(at_period_end, now);
    }

    /// Cancels at the time `now`: at the end of the period, which only sets
    /// the flag, or at once, which makes the status `Cancelled` and records
    /// `now`. `Cancelled` is emitted either way.
    pub fn cancel_at(&mut self, at_period_end: bool, now: Timestamp)
        ensures
            final(self)@ == old(self)@.cancel(at_period_end, now),
            old(self)@.well_formed() ==> final(self)@.well_formed(),
    {
        if at_period_end {
            self.cancel_at_period_end = true;
        } else {
            self.status = SubscriptionStatus::Cancelled;
            self.cancelled_at = Some(now);
        }
        let e = DomainEvent::Subscription(
            SubscriptionEvent::Cancelled { subscription_id: self.id.clone(), at_period_end },
        );
        self.raise_event(e);
    }

    /// Pauses the subscription, whatever its state.
    pub fn pause(&mut self)
        ensures
            final(self)@ == old(self)@.pause(),
            old(self)@.well_formed() ==> final(self)@.well_formed(),
    {
        self.status = SubscriptionStatus::Paused;
    }

    /// Makes a paused subscription active again; changes nothing in any
    /// other state.
    pub fn resume(&mut self)
        ensures
            final(self)@ == old(self)@.resume(),
            old(self)@.well_formed() ==> final(self)@.well_formed(),
    {
        if self.status == SubscriptionStatus::Paused {
            self.status = SubscriptionStatus::Active;
        }
    }

    /// Hands out the pending events in the order of their emission and
    /// leaves none behind.
    pub fn take_events(&mut self) -> (events: Vec<DomainEvent>)
        ensures
            events@ == old(self)@.events,
            final(self)@ == old(self)@.drained(),
            old(self)@.well_formed() ==> final(self)@.well_formed(),
    {
        let mut events: Vec<DomainEvent> = Vec::new();
        std::mem::swap(&mut events, &mut self.events);
        events
    }

    fn raise_event(&mut self, e: DomainEvent)
        ensures
            final(self)@ == (SubscriptionView { events: old(self)@.events.push(e), ..old(self)@ }),
    {
        self.events.push(e);
    }
}

} // verus!
