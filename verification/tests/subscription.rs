use opensase_payments::clock::{Date, Timestamp, MAX_DAY};
use opensase_payments::decimal::Decimal;
use opensase_payments::domain::aggregates::subscription::{
    BillingCycle, Subscription, SubscriptionError, SubscriptionStatus,
};
use opensase_payments::domain::events::{DomainEvent, SubscriptionEvent};
use opensase_payments::domain::value_objects::Money;

const DAY: i32 = 739_000;

fn at(cycle: BillingCycle, day: i32) -> Subscription {
    Subscription::create_at(
        "sub-1".to_string(),
        "CUST001",
        "PLAN_PRO",
        Money::usd(Decimal::new(49, 0)),
        cycle,
        Date::from_days_from_ce(day).unwrap(),
        Timestamp { secs: 1_700_000_000, nanos: 0 },
    )
    .unwrap()
}

#[test]
fn test_subscription() {
    let mut s = Subscription::create(
        "CUST001",
        "PLAN_PRO",
        Money::usd(Decimal::new(49, 0)),
        BillingCycle::Monthly,
    )
    .unwrap();
    assert!(s.is_active());
    s.cancel(true);
    assert!(s.cancel_at_period_end());
}

#[test]
fn create_starts_today_with_a_fresh_identifier() {
    let before = Date::today();
    let mut s = Subscription::create(
        "CUST001",
        "PLAN_PRO",
        Money::usd(Decimal::new(49, 0)),
        BillingCycle::Weekly,
    )
    .unwrap();
    let after = Date::today();
    assert_eq!(s.id().len(), 36);
    assert_eq!(s.status(), &SubscriptionStatus::Active);
    assert!(before.days_from_ce() <= s.current_period_start().days_from_ce());
    assert!(s.current_period_start().days_from_ce() <= after.days_from_ce());
    assert_eq!(
        s.current_period_end().days_from_ce(),
        s.current_period_start().days_from_ce() + 7
    );
    assert!(!s.cancel_at_period_end());
    assert!(s.cancelled_at().is_none());
    assert_eq!(s.amount(), &Money::usd(Decimal::new(49, 0)));
    assert_eq!(
        s.take_events(),
        vec![DomainEvent::Subscription(SubscriptionEvent::Created {
            subscription_id: s.id().to_string(),
        })]
    );
}

#[test]
fn monthly_period_is_30_days_and_renews_by_30() {
    let mut s = at(BillingCycle::Monthly, DAY);
    assert_eq!(s.current_period_start().days_from_ce(), DAY);
    assert_eq!(s.current_period_end().days_from_ce(), DAY + 30);
    s.take_events();
    s.renew();
    assert_eq!(s.current_period_start().days_from_ce(), DAY + 30);
    assert_eq!(s.current_period_end().days_from_ce(), DAY + 60);
    assert_eq!(
        s.take_events(),
        vec![DomainEvent::Subscription(SubscriptionEvent::Renewed {
            subscription_id: "sub-1".to_string(),
        })]
    );
}

#[test]
fn yearly_period_is_365_days_and_renews_by_365() {
    let mut s = at(BillingCycle::Yearly, DAY);
    assert_eq!(s.current_period_end().days_from_ce(), DAY + 365);
    s.renew();
    assert_eq!(s.current_period_start().days_from_ce(), DAY + 365);
    assert_eq!(s.current_period_end().days_from_ce(), DAY + 730);
    assert_eq!(s.billing_cycle(), BillingCycle::Yearly);
}

#[test]
fn weekly_period_is_7_days_and_renews_by_7() {
    let mut s = at(BillingCycle::Weekly, DAY);
    assert_eq!(s.current_period_end().days_from_ce(), DAY + 7);
    s.renew();
    s.renew();
    assert_eq!(s.current_period_start().days_from_ce(), DAY + 14);
    assert_eq!(s.current_period_end().days_from_ce(), DAY + 21);
}

#[test]
fn billing_cycle_lengths() {
    assert_eq!(BillingCycle::Monthly.days(), 30);
    assert_eq!(BillingCycle::Yearly.days(), 365);
    assert_eq!(BillingCycle::Weekly.days(), 7);
    assert_eq!(BillingCycle::default(), BillingCycle::Monthly);
}

#[test]
fn renew_keeps_status_and_flag() {
    let mut s = at(BillingCycle::Monthly, DAY);
    s.cancel(true);
    s.pause();
    s.renew();
    assert_eq!(s.status(), &SubscriptionStatus::Paused);
    assert!(s.cancel_at_period_end());
    let mut c = at(BillingCycle::Monthly, DAY);
    c.cancel(false);
    c.renew();
    assert_eq!(c.status(), &SubscriptionStatus::Cancelled);
    assert_eq!(c.current_period_start().days_from_ce(), DAY + 30);
}

#[test]
fn create_at_is_refused_where_the_period_would_end_out_of_range() {
    let late = Date::from_days_from_ce(MAX_DAY - 29).unwrap();
    let r = Subscription::create_at(
        "sub-2".to_string(),
        "CUST001",
        "PLAN_PRO",
        Money::usd(Decimal::new(49, 0)),
        BillingCycle::Monthly,
        late,
        Timestamp { secs: 0, nanos: 0 },
    );
    assert!(r.is_none());
    let s = at(BillingCycle::Monthly, MAX_DAY - 30);
    assert_eq!(s.current_period_end().days_from_ce(), MAX_DAY);
    assert!(!s.can_renew());
    assert!(at(BillingCycle::Weekly, MAX_DAY - 14).can_renew());
    assert!(!at(BillingCycle::Weekly, MAX_DAY - 13).can_renew());
}

#[test]
fn cancel_at_period_end_only_sets_the_flag() {
    let mut s = at(BillingCycle::Monthly, DAY);
    s.take_events();
    s.cancel(true);
    assert_eq!(s.status(), &SubscriptionStatus::Active);
    assert!(s.is_active());
    assert!(s.cancel_at_period_end());
    assert!(s.cancelled_at().is_none());
    assert_eq!(
        s.take_events(),
        vec![DomainEvent::Subscription(SubscriptionEvent::Cancelled {
            subscription_id: "sub-1".to_string(),
            at_period_end: true,
        })]
    );
}

#[test]
fn cancel_at_once_records_the_time() {
    let mut s = at(BillingCycle::Monthly, DAY);
    s.take_events();
    let now = Timestamp { secs: 1_000_000_000, nanos: 7 };
    s.cancel_at(false, now);
    assert_eq!(s.status(), &SubscriptionStatus::Cancelled);
    assert!(!s.is_active());
    assert!(!s.cancel_at_period_end());
    assert_eq!(s.cancelled_at(), Some(now));
    let before = Timestamp::now();
    s.cancel(false);
    let after = Timestamp::now();
    assert_eq!(s.status(), &SubscriptionStatus::Cancelled);
    let at = s.cancelled_at().unwrap();
    assert!(at.secs > now.secs);
    assert!(before.secs <= at.secs && at.secs <= after.secs);
    assert!(at.nanos < 1_000_000_000);
    assert_eq!(
        s.take_events(),
        vec![
            DomainEvent::Subscription(SubscriptionEvent::Cancelled {
                subscription_id: "sub-1".to_string(),
                at_period_end: false,
            }),
            DomainEvent::Subscription(SubscriptionEvent::Cancelled {
                subscription_id: "sub-1".to_string(),
                at_period_end: false,
            }),
        ]
    );
}

#[test]
fn pause_always_applies_and_resume_only_from_paused() {
    let mut s = at(BillingCycle::Monthly, DAY);
    s.take_events();
    s.resume();
    assert_eq!(s.status(), &SubscriptionStatus::Active);
    s.pause();
    assert_eq!(s.status(), &SubscriptionStatus::Paused);
    s.pause();
    assert_eq!(s.status(), &SubscriptionStatus::Paused);
    s.resume();
    assert_eq!(s.status(), &SubscriptionStatus::Active);
    s.cancel(false);
    s.resume();
    assert_eq!(s.status(), &SubscriptionStatus::Cancelled);
    s.pause();
    assert_eq!(s.status(), &SubscriptionStatus::Paused);
    s.resume();
    assert_eq!(s.status(), &SubscriptionStatus::Active);
    assert_eq!(s.take_events().len(), 1);
}

#[test]
fn subscription_take_events_twice() {
    let mut s = at(BillingCycle::Monthly, DAY);
    assert_eq!(
        s.take_events(),
        vec![DomainEvent::Subscription(SubscriptionEvent::Created {
            subscription_id: "sub-1".to_string(),
        })]
    );
    assert!(s.take_events().is_empty());
    s.renew();
    s.cancel(true);
    assert_eq!(s.take_events().len(), 2);
    assert!(s.take_events().is_empty());
}

#[test]
fn subscription_clone_is_the_same_subscription() {
    let mut s = at(BillingCycle::Yearly, DAY);
    s.cancel(true);
    let mut t = s.clone();
    assert_eq!(t.id(), s.id());
    assert_eq!(t.status(), s.status());
    assert_eq!(t.current_period_end(), s.current_period_end());
    assert_eq!(t.cancel_at_period_end(), s.cancel_at_period_end());
    assert_eq!(t.take_events(), s.take_events());
}

#[test]
fn subscription_error_message_and_defaults() {
    assert_eq!(SubscriptionError::AlreadyCancelled.to_string(), "Subscription error");
    assert_eq!(SubscriptionError::NotPaused.to_string(), "Subscription error");
    assert_eq!(SubscriptionStatus::default(), SubscriptionStatus::Active);
}
