//! Buying a subscription: the plans on offer, and what becomes of a purchase
//! once the payment service and the store have answered.

use vstd::prelude::*;
use vstd::string::StringExecFns;
use crate::id::Id;
use crate::models::{PurchaseRequest, StoreFault, Subscription};
use crate::plan::{lemma_plan_names_differ, permits};
use crate::subscription::{active_plan, is_current, latest_current};
use crate::text::same_text;

verus! {

/// One day in microseconds.
pub const MICROS_PER_DAY: i64 = 86_400_000_000;

/// The currency in which plans are priced.
pub const CURRENCY: &'static str = "USD";

/// A plan that can be bought.
#[derive(Clone, Copy, Debug, PartialEq, Eq, Structural)]
pub enum Plan {
    Basic,
    Premium,
}

/// What a plan costs, in hundredths of the currency unit, and how many days
/// it runs.
#[derive(Clone, Copy, Debug, PartialEq, Eq, Structural)]
pub struct PlanTerms {
    pub price_cents: u64,
    pub duration_days: i64,
}

impl Plan {
    /// The plan that a plan identifier stands for. Only `basic` and `premium`
    /// can be bought.
    pub open spec fn named(plan_id: Seq<char>) -> Option<Plan> {
        if plan_id == "basic"@ {
            Some(Plan::Basic)
        } else if plan_id == "premium"@ {
            Some(Plan::Premium)
        } else {
            None
        }
    }

    /// The identifier of the plan.
    pub open spec fn name(self) -> Seq<char> {
        match self {
            Plan::Basic => "basic"@,
            Plan::Premium => "premium"@,
        }
    }

    /// The price list: `basic` costs 9.99 and `premium` 19.99, each for 30 days.
    pub open spec fn offer(self) -> PlanTerms {
        match self {
            Plan::Basic => PlanTerms { price_cents: 999, duration_days: 30 },
            Plan::Premium => PlanTerms { price_cents: 1999, duration_days: 30 },
        }
    }

    /// Reads a plan identifier.
    pub fn from_name(plan_id: &str) -> (plan: Option<Plan>)
        ensures
            plan == Plan::named(plan_id@),
    {
        if same_text(plan_id, "basic") {
            Some(Plan::Basic)
        } else if same_text(plan_id, "premium") {
            Some(Plan::Premium)
        } else {
            None
        }
    }

    /// The identifier of the plan, as it is stored with a subscription.
    pub fn plan_id(self) -> (plan_id: String)
        ensures
            plan_id@ == self.name(),
    {
        match self {
            Plan::Basic => String::from_str("basic"),
            Plan::Premium => String::from_str("premium"),
        }
    }

    /// The price and the duration of the plan.
    pub fn terms(self) -> (terms: PlanTerms)
        ensures
            terms == self.offer(),
    {
        match self {
            Plan::Basic => PlanTerms { price_cents: 999, duration_days: 30 },
            Plan::Premium => PlanTerms { price_cents: 1999, duration_days: 30 },
        }
    }
}

/// The latest instant at which a subscription can still start, so that its
/// end can be written down.
pub open spec fn latest_start(plan: Plan) -> int {
    i64::MAX - plan.offer().duration_days * MICROS_PER_DAY
}

/// The payment service could not be reached or did not answer.
#[derive(Clone, Copy, Debug, PartialEq, Eq, Structural)]
pub struct PaymentFault;

/// Why a purchase ends without a subscription.
#[derive(Clone, Copy, Debug, PartialEq, Eq, Structural)]
pub enum PurchaseRefusal {
    /// The request carries no identity.
    Unauthorized,
    /// The plan identifier names no plan on offer.
    InvalidPlan,
    /// The payment service declined the charge.
    PaymentFailed,
    /// The payment service could not be asked.
    PaymentError,
    /// The subscription could not be stored.
    Internal,
}

impl PurchaseRefusal {
    /// The status code of the reply: 401 without an identity, 400 for a plan
    /// that is not on offer, 402 for a declined charge, 500 for a fault.
    pub open spec fn code(self) -> u16 {
        match self {
            PurchaseRefusal::Unauthorized => 401,
            PurchaseRefusal::InvalidPlan => 400,
            PurchaseRefusal::PaymentFailed => 402,
            PurchaseRefusal::PaymentError => 500,
            PurchaseRefusal::Internal => 500,
        }
    }

    /// What the `error` field of the reply says.
    pub open spec fn wording(self) -> Seq<char> {
        match self {
            PurchaseRefusal::Unauthorized => "Unauthorized"@,
            PurchaseRefusal::InvalidPlan => "Invalid plan"@,
            PurchaseRefusal::PaymentFailed => "Payment failed"@,
            PurchaseRefusal::PaymentError => "Payment processing error"@,
            PurchaseRefusal::Internal => "Internal server error"@,
        }
    }

    /// The status code of the reply.
    pub fn status(&self) -> (code: u16)
        ensures
            code == self.code(),
    {
        match self {
            PurchaseRefusal::Unauthorized => 401,
            PurchaseRefusal::InvalidPlan => 400,
            PurchaseRefusal::PaymentFailed => 402,
            PurchaseRefusal::PaymentError => 500,
            PurchaseRefusal::Internal => 500,
        }
    }

    /// The text of the `error` field of the reply.
    pub fn error(&self) -> (text: &'static str)
        ensures
            text@ == self.wording(),
    {
        match self {
            PurchaseRefusal::Unauthorized => "Unauthorized",
            PurchaseRefusal::InvalidPlan => "Invalid plan",
            PurchaseRefusal::PaymentFailed => "Payment failed",
            PurchaseRefusal::PaymentError => "Payment processing error",
            PurchaseRefusal::Internal => "Internal server error",
        }
    }
}

/// What the caller does with a purchase request.
#[derive(Clone, Debug, PartialEq, Eq)]
pub enum PurchaseStep {
    /// Charge `amount_cents` hundredths of a unit of `currency` to
    /// `payment_token`, then call [`settle_purchase`] with the answer.
    Charge {
        user_id: Id,
        plan: Plan,
        payment_token: String,
        amount_cents: u64,
        currency: &'static str,
    },
    /// Reply with the refusal.
    Refuse(PurchaseRefusal),
}

/// The reply to a purchase that went through.
#[derive(Clone, Copy, Debug, PartialEq, Eq, Structural)]
pub struct Receipt {
    pub subscription_id: Id,
    pub expires_at: i64,
}

/// What a purchase request leads to, before any money moves.
pub open spec fn purchase_begins(identity: Option<Id>, request: PurchaseRequest) -> PurchaseStep {
    match identity {
        None => PurchaseStep::Refuse(PurchaseRefusal::Unauthorized),
        Some(user_id) => match Plan::named(request.plan_id@) {
            None => PurchaseStep::Refuse(PurchaseRefusal::InvalidPlan),
            Some(plan) => PurchaseStep::Charge {
                user_id,
                plan,
                payment_token: request.payment_token,
                amount_cents: plan.offer().price_cents,
                currency: CURRENCY,
            },
        },
    }
}

/// Begins a purchase: a request without an identity and a request for a plan
/// that is not on offer are refused, any other is charged the plan's price, in
/// [`CURRENCY`], to the payment token it carries.
pub fn purchase_subscription(identity: Option<Id>, request: &PurchaseRequest) -> (step:
    PurchaseStep)
    ensures
        step == purchase_begins(identity, *request),
{
    match identity {
        None => PurchaseStep::Refuse(PurchaseRefusal::Unauthorized),
        Some(user_id) => match Plan::from_name(request.plan_id.as_str()) {
            None => PurchaseStep::Refuse(PurchaseRefusal::InvalidPlan),
            Some(plan) => PurchaseStep::Charge {
                user_id,
                plan,
                payment_token: request.payment_token.clone(),
                amount_cents: plan.terms().price_cents,
                currency: CURRENCY,
            },
        },
    }
}

/// The subscription that a paid purchase creates: it belongs to the buyer,
/// names the plan, is switched on, starts at `now` and runs out exactly the
/// plan's duration later.
pub open spec fn is_purchased(
    subscription: Subscription,
    id: Id,
    user_id: Id,
    plan: Plan,
    now: i64,
) -> bool {
    &&& subscription.id == id
    &&& subscription.user_id == user_id
    &&& subscription.plan_id@ == plan.name()
    &&& subscription.started_at == now
    &&& subscription.expires_at == now + plan.offer().duration_days * MICROS_PER_DAY
    &&& subscription.is_active
}

/// Settles a purchase once the payment service has answered. A charge that
/// went through makes a subscription with the fresh identifier `id`, starting
/// at `now`; a declined charge and a fault of the payment service make none.
pub fn settle_purchase(
    user_id: Id,
    plan: Plan,
    payment: Result<bool, PaymentFault>,
    id: Id,
    now: i64,
) -> (settled: Result<Subscription, PurchaseRefusal>)
    requires
        now <= latest_start(plan),
    ensures
        match payment {
            Ok(true) => settled matches Ok(subscription) && is_purchased(
                subscription,
                id,
                user_id,
                plan,
                now,
            ),
            Ok(false) => settled == Err::<Subscription, PurchaseRefusal>(
                PurchaseRefusal::PaymentFailed,
            ),
            Err(_) => settled == Err::<Subscription, PurchaseRefusal>(
                PurchaseRefusal::PaymentError,
            ),
        },
{
    match payment {
        Ok(true) => {
            let days: i64 = plan.terms().duration_days;
            Ok(
                Subscription {
                    id,
                    user_id,
                    plan_id: plan.plan_id(),
                    started_at: now,
                    expires_at: now + days * MICROS_PER_DAY,
                    is_active: true,
                },
            )
        },
        Ok(false) => Err(PurchaseRefusal::PaymentFailed),
        Err(_) => Err(PurchaseRefusal::PaymentError),
    }
}

/// What the buyer is told once the store has answered.
pub open spec fn purchase_ends(
    subscription: Subscription,
    stored: Result<(), StoreFault>,
) -> Result<Receipt, PurchaseRefusal> {
    match stored {
        Ok(_) => Ok(
            Receipt { subscription_id: subscription.id, expires_at: subscription.expires_at },
        ),
        Err(_) => Err(PurchaseRefusal::Internal),
    }
}

/// Ends a purchase once the store has answered: the receipt where the
/// subscription was stored, an internal fault where it was not.
pub fn confirm_purchase(subscription: &Subscription, stored: Result<(), StoreFault>) -> (reply:
    Result<Receipt, PurchaseRefusal>)
    ensures
        reply == purchase_ends(*subscription, stored),
{
    match stored {
        Ok(_) => Ok(
            Receipt { subscription_id: subscription.id, expires_at: subscription.expires_at },
        ),
        Err(_) => Err(PurchaseRefusal::Internal),
    }
}

/// A bought subscription runs out exactly thirty days after it started,
/// whatever the plan.
pub proof fn lemma_thirty_days(
    subscription: Subscription,
    id: Id,
    user_id: Id,
    plan: Plan,
    now: i64,
)
    requires
        is_purchased(subscription, id, user_id, plan, now),
    ensures
        subscription.expires_at - subscription.started_at == 30 * MICROS_PER_DAY,
        subscription.expires_at - subscription.started_at == 2_592_000_000_000int,
{
}

/// A bought subscription counts for its buyer from the instant of the purchase
/// until it runs out, and unlocks the content that requires its plan.
pub proof fn lemma_purchase_unlocks(
    subscription: Subscription,
    id: Id,
    user_id: Id,
    plan: Plan,
    now: i64,
    at: i64,
)
    requires
        is_purchased(subscription, id, user_id, plan, now),
        now <= at < subscription.expires_at,
    ensures
        is_current(subscription, user_id, at),
        active_plan(seq![subscription], user_id, at) == Some(plan.name()),
        permits(plan.name(), active_plan(seq![subscription], user_id, at)),
        permits("free"@, active_plan(seq![subscription], user_id, at)),
{
    let rows = seq![subscription];
    assert(rows.drop_last() =~= Seq::<Subscription>::empty());
    reveal_with_fuel(latest_current, 2);
    assert(latest_current(rows, user_id, at) == Some(0int));
    lemma_plan_names_differ();
}

/// The plan stored with a bought subscription is the plan that was asked for.
pub proof fn lemma_purchased_plan(plan_id: Seq<char>)
    ensures
        Plan::named(plan_id) matches Some(plan) ==> plan.name() == plan_id,
{
}

} // verus!
