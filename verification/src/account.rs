//! The remote account model: plans, subscriptions and their labels.
//!
//! The session never decides on these values; they are fetched, shown
//! and forwarded.  Their human-readable labels are fixed here.

use vstd::prelude::*;

use crate::types::{
    Plan, ProjectStatus, SubscriptionInterval, SubscriptionState, SubscriptionSuspensionReason,
};

verus! {

/// English label of a billing plan.
pub fn human_plan(v: Plan) -> (r: &'static str)
    ensures
        r@ == match v {
            Plan::PayAsYouGo => "pay as you go"@,
            Plan::Subscription => "subscription"@,
        },
{
    match v {
        Plan::PayAsYouGo => "pay as you go",
        Plan::Subscription => "subscription",
    }
}

/// English label of a subscription state.
pub fn human_subscription_state(v: SubscriptionState) -> (r: &'static str)
    ensures
        r@ == match v {
            SubscriptionState::Active => "active"@,
            SubscriptionState::Cancelled => "cancelled"@,
            SubscriptionState::Suspended => "suspended"@,
        },
{
    match v {
        SubscriptionState::Active => "active",
        SubscriptionState::Cancelled => "cancelled",
        SubscriptionState::Suspended => "suspended",
    }
}

/// English label of a billing interval.
pub fn human_subscription_interval(v: SubscriptionInterval) -> (r: &'static str)
    ensures
        r@ == match v {
            SubscriptionInterval::Monthly => "monthly"@,
            SubscriptionInterval::Yearly => "yearly"@,
        },
{
    match v {
        SubscriptionInterval::Monthly => "monthly",
        SubscriptionInterval::Yearly => "yearly",
    }
}

/// English label of a suspension reason.
pub fn human_suspension_reason(v: SubscriptionSuspensionReason) -> (r: &'static str)
    ensures
        r@ == match v {
            SubscriptionSuspensionReason::PaymentRequiresAction => "payment requires action"@,
            SubscriptionSuspensionReason::PaymentFailed => "payment failed"@,
        },
{
    match v {
        SubscriptionSuspensionReason::PaymentRequiresAction => "payment requires action",
        SubscriptionSuspensionReason::PaymentFailed => "payment failed",
    }
}

/// English label of a project status.
pub fn human_project_status(v: ProjectStatus) -> (r: &'static str)
    ensures
        r@ == match v {
            ProjectStatus::Active => "active"@,
            ProjectStatus::Closed => "closed"@,
        },
{
    match v {
        ProjectStatus::Active => "active",
        ProjectStatus::Closed => "closed",
    }
}

} // verus!
