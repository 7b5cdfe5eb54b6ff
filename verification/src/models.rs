//! The records that the service stores and the requests that it receives.
//!
//! Instants are whole microseconds since the start of 1970 (UTC).

use vstd::prelude::*;
use crate::id::Id;

verus! {

/// A registered user.
#[derive(Clone, Debug, PartialEq, Eq)]
pub struct User {
    pub id: Id,
    pub username: String,
    pub email: String,
    pub password_hash: String,
    pub created_at: i64,
}

/// One subscription of a user to a plan. It counts from `started_at` and runs
/// out at `expires_at`; nothing switches it off when it has run out.
#[derive(Clone, Debug, PartialEq, Eq)]
pub struct Subscription {
    pub id: Id,
    pub user_id: Id,
    pub plan_id: String,
    pub started_at: i64,
    pub expires_at: i64,
    pub is_active: bool,
}

/// A piece of content and the plan that a reader needs for it.
#[derive(Clone, Debug, PartialEq, Eq)]
pub struct Content {
    pub id: Id,
    pub title: String,
    pub body: String,
    pub required_plan: String,
    pub created_at: i64,
}

/// One recorded interaction of a user with a piece of content.
///
/// The scroll depth and the interaction score are single-precision numbers.
/// The library stores and hands them on, and never computes with them: it
/// holds each by its IEEE 754 bit pattern, so `0` stands for `0.0`.
#[derive(Clone, Copy, Debug, PartialEq, Eq)]
pub struct UserBehavior {
    pub user_id: Id,
    pub content_id: Id,
    pub view_time_seconds: i32,
    pub scroll_depth_percent_bits: u32,
    pub interaction_score_bits: u32,
    pub timestamp: i64,
}

impl UserBehavior {
    /// The record of a plain view: no time spent, nothing scrolled, no score.
    pub open spec fn plain_view(user_id: Id, content_id: Id, at: i64) -> UserBehavior {
        UserBehavior {
            user_id,
            content_id,
            view_time_seconds: 0,
            scroll_depth_percent_bits: 0,
            interaction_score_bits: 0,
            timestamp: at,
        }
    }

    /// The zero-valued record that is logged when content is handed out.
    pub fn viewed(user_id: Id, content_id: Id, at: i64) -> (record: UserBehavior)
        ensures
            record == UserBehavior::plain_view(user_id, content_id, at),
    {
        UserBehavior {
            user_id,
            content_id,
            view_time_seconds: 0,
            scroll_depth_percent_bits: 0,
            interaction_score_bits: 0,
            timestamp: at,
        }
    }
}

/// The claims of a session token: whose it is, and the second at which it
/// stops being valid, counted from the start of 1970.
#[derive(Clone, Debug, PartialEq, Eq)]
pub struct Claims {
    pub sub: String,
    pub exp: usize,
}

/// The body of a sign-in request.
#[derive(Clone, Debug, PartialEq, Eq)]
pub struct LoginRequest {
    pub username: String,
    pub password: String,
}

/// The body of a registration request.
#[derive(Clone, Debug, PartialEq, Eq)]
pub struct RegisterRequest {
    pub username: String,
    pub email: String,
    pub password: String,
}

/// The body of a purchase request.
#[derive(Clone, Debug, PartialEq, Eq)]
pub struct PurchaseRequest {
    pub plan_id: String,
    pub payment_token: String,
}

/// A store could not be read or written. The cause stays with the caller,
/// who logs it; no reply ever shows it.
#[derive(Clone, Copy, Debug, PartialEq, Eq, Structural)]
pub struct StoreFault;

} // verus!
