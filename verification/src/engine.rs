//! The access decision engine.
//!
//! One request is decided in a few stages. The engine never reads a store
//! itself: at each stage it names the one query it needs answered, the caller
//! performs the query and comes back with the answer, and the engine names the
//! next query or finishes. A request is first looked up in the cache of
//! verdicts. On a miss the content and the reader's subscriptions are loaded
//! and the plan rule is applied; a reader whom the rule turns away is shown to
//! the fallback model, whose answer changes the message and never the denial.

use vstd::prelude::*;
use crate::cache::CacheKey;
use crate::features::FeatureVector;
use crate::id::Id;
use crate::ml::{accepts, admissible, suggests, suggests_grant};
use crate::models::{Content, StoreFault, Subscription, UserBehavior};
use crate::plan::{authorize, permits};
use crate::subscription::{active_plan, get_active_subscription};
use crate::verdict::{AccessVerdict, Advisory};

verus! {

/// Who asks for what, and when.
#[derive(Clone, Copy, Debug, PartialEq, Eq, Structural)]
pub struct Request {
    pub user_id: Id,
    pub content_id: Id,
    /// The instant of the request.
    pub now: i64,
}

impl Request {
    /// The cache key of the request's reader and content.
    pub open spec fn key(self) -> CacheKey {
        CacheKey { content_id: self.content_id, user_id: self.user_id }
    }
}

/// Where the decision of a request stands: which answer the engine waits for.
#[derive(Clone, Debug, PartialEq, Eq)]
pub enum Stage {
    /// The cache is being asked for an earlier verdict.
    CacheCheck { request: Request },
    /// The content is being loaded.
    ContentLookup { request: Request },
    /// The reader's subscriptions are being loaded.
    SubscriptionLookup { request: Request, content: Content },
    /// The plan rule has denied; the features for the model are being worked out.
    FeatureExtraction { request: Request, content: Content },
    /// The model is being asked.
    Inference { request: Request, content: Content },
}

/// What the engine needs answered before it can go on.
#[derive(Clone, Debug, PartialEq, Eq)]
pub enum Query {
    /// The verdict cached under `key`, if there is one.
    Cache { key: CacheKey },
    /// The content with this identifier.
    Content { content_id: Id },
    /// The stored subscriptions of this user.
    Subscriptions { user_id: Id },
    /// The feature vector of this user and content.
    Features { user_id: Id, content_id: Id },
    /// The class that the model predicts for `vector`.
    Inference { vector: FeatureVector },
}

/// The answer to a query.
#[derive(Debug, PartialEq, Eq)]
pub enum Event {
    /// What the cache held.
    Cache(Option<AccessVerdict>),
    /// The content, `None` where there is none with that identifier.
    Content(Result<Option<Content>, StoreFault>),
    /// The user's subscriptions, in the order in which they are stored.
    Subscriptions(Result<Vec<Subscription>, StoreFault>),
    /// The feature vector, or the fault that kept it from being worked out.
    Features(Result<FeatureVector, StoreFault>),
    /// The class that the model predicted, `None` where it predicted nothing.
    Inference(Option<usize>),
}

/// Why a request ends without a verdict.
#[derive(Clone, Copy, Debug, PartialEq, Eq, Structural)]
pub enum Refusal {
    /// The request carries no identity.
    Unauthorized,
    /// There is no such content.
    NotFound,
    /// A store failed, or an answer came that the stage did not wait for.
    Internal,
}

impl Refusal {
    /// The status code of the reply: 401 without an identity, 404 for missing
    /// content, 500 for an internal fault.
    pub open spec fn code(self) -> u16 {
        match self {
            Refusal::Unauthorized => 401,
            Refusal::NotFound => 404,
            Refusal::Internal => 500,
        }
    }

    /// What the `error` field of the reply says. An internal fault is named
    /// and never described.
    pub open spec fn wording(self) -> Seq<char> {
        match self {
            Refusal::Unauthorized => "Unauthorized"@,
            Refusal::NotFound => "Content not found"@,
            Refusal::Internal => "Internal server error"@,
        }
    }

    /// The status code of the reply.
    pub fn status(&self) -> (code: u16)
        ensures
            code == self.code(),
    {
        match self {
            Refusal::Unauthorized => 401,
            Refusal::NotFound => 404,
            Refusal::Internal => 500,
        }
    }

    /// The text of the `error` field of the reply.
    pub fn error(&self) -> (text: &'static str)
        ensures
            text@ == self.wording(),
    {
        match self {
            Refusal::Unauthorized => "Unauthorized",
            Refusal::NotFound => "Content not found",
            Refusal::Internal => "Internal server error",
        }
    }
}

/// How a request ends.
#[derive(Clone, Debug, PartialEq, Eq)]
pub enum Outcome {
    /// The cache held a verdict. It is the reply as it stands: nothing is
    /// decided again, logged or written.
    Replay(AccessVerdict),
    /// A verdict was reached. The caller logs `log` where there is one, without
    /// waiting for the log and whatever becomes of it, writes `verdict` to the
    /// cache under `key`, and replies with `verdict`.
    Fresh { key: CacheKey, verdict: AccessVerdict, log: Option<UserBehavior> },
    /// There is no verdict, and nothing is cached.
    Refuse(Refusal),
}

/// What the caller does next.
#[derive(Clone, Debug, PartialEq, Eq)]
pub enum Step {
    /// Perform the query and call [`advance`] with the stage and the answer.
    Ask(Stage, Query),
    /// The request is decided.
    Finish(Outcome),
}

/// The end of a request that the plan rule has denied.
pub open spec fn denial(request: Request, content: Content, advisory: Advisory) -> Step {
    Step::Finish(
        Outcome::Fresh {
            key: request.key(),
            verdict: AccessVerdict::denying(content, advisory),
            log: None,
        },
    )
}

/// The first step of a request: without an identity it is refused, with one
/// the cache is asked.
pub open spec fn first(identity: Option<Id>, content_id: Id, now: i64) -> Step {
    match identity {
        Some(user_id) => {
            let request = Request { user_id, content_id, now };
            Step::Ask(Stage::CacheCheck { request }, Query::Cache { key: request.key() })
        },
        None => Step::Finish(Outcome::Refuse(Refusal::Unauthorized)),
    }
}

/// The step that follows when `event` answers the query of `stage`.
pub open spec fn next(stage: Stage, event: Event) -> Step {
    match (stage, event) {
        (Stage::CacheCheck { request }, Event::Cache(Some(verdict))) => Step::Finish(
            Outcome::Replay(verdict),
        ),
        (Stage::CacheCheck { request }, Event::Cache(None)) => Step::Ask(
            Stage::ContentLookup { request },
            Query::Content { content_id: request.content_id },
        ),
        (Stage::ContentLookup { request }, Event::Content(Ok(Some(content)))) => Step::Ask(
            Stage::SubscriptionLookup { request, content },
            Query::Subscriptions { user_id: request.user_id },
        ),
        (Stage::ContentLookup { request }, Event::Content(Ok(None))) => Step::Finish(
            Outcome::Refuse(Refusal::NotFound),
        ),
        (Stage::SubscriptionLookup { request, content }, Event::Subscriptions(Ok(rows))) => {
            if permits(content.required_plan@, active_plan(rows@, request.user_id, request.now)) {
                Step::Finish(
                    Outcome::Fresh {
                        key: request.key(),
                        verdict: AccessVerdict::granting(content),
                        log: Some(
                            UserBehavior::plain_view(
                                request.user_id,
                                request.content_id,
                                request.now,
                            ),
                        ),
                    },
                )
            } else {
                Step::Ask(
                    Stage::FeatureExtraction { request, content },
                    Query::Features { user_id: request.user_id, content_id: request.content_id },
                )
            }
        },
        (Stage::FeatureExtraction { request, content }, Event::Features(Ok(vector))) => {
            if admissible(vector) {
                Step::Ask(Stage::Inference { request, content }, Query::Inference { vector })
            } else {
                denial(request, content, Advisory::UpgradeRequired)
            }
        },
        (Stage::FeatureExtraction { request, content }, Event::Features(Err(_))) => denial(
            request,
            content,
            Advisory::UpgradeRequired,
        ),
        (Stage::Inference { request, content }, Event::Inference(label)) => denial(
            request,
            content,
            if suggests(label) {
                Advisory::FallbackEligible
            } else {
                Advisory::UpgradeRequired
            },
        ),
        _ => Step::Finish(Outcome::Refuse(Refusal::Internal)),
    }
}

/// Begins the decision of a request for the content `content_id`. `identity`
/// is the reader that the request was authenticated as, `now` the instant of
/// the request.
pub fn get_content(identity: Option<Id>, content_id: Id, now: i64) -> (step: Step)
    ensures
        step == first(identity, content_id, now),
{
    match identity {
        Some(user_id) => {
            let request = Request { user_id, content_id, now };
            Step::Ask(
                Stage::CacheCheck { request },
                Query::Cache { key: CacheKey { content_id, user_id } },
            )
        },
        None => Step::Finish(Outcome::Refuse(Refusal::Unauthorized)),
    }
}

fn deny(request: Request, content: Content, advisory: Advisory) -> (step: Step)
    ensures
        step == denial(request, content, advisory),
{
    Step::Finish(
        Outcome::Fresh {
            key: CacheKey { content_id: request.content_id, user_id: request.user_id },
            verdict: AccessVerdict::deny(content, advisory),
            log: None,
        },
    )
}

fn decide(request: Request, content: Content, rows: Vec<Subscription>) -> (step: Step)
    ensures
        step == next(
            Stage::SubscriptionLookup { request, content },
            Event::Subscriptions(Ok(rows)),
        ),
{
    let allowed = match get_active_subscription(&rows, request.user_id, request.now) {
        Some(i) => authorize(content.required_plan.as_str(), Some(rows[i].plan_id.as_str())),
        None => authorize(content.required_plan.as_str(), None),
    };
    if allowed {
        Step::Finish(
            Outcome::Fresh {
                key: CacheKey { content_id: request.content_id, user_id: request.user_id },
                verdict: AccessVerdict::grant(content),
                log: Some(UserBehavior::viewed(request.user_id, request.content_id, request.now)),
            },
        )
    } else {
        Step::Ask(
            Stage::FeatureExtraction { request, content },
            Query::Features { user_id: request.user_id, content_id: request.content_id },
        )
    }
}

/// Takes the answer `event` to the query of `stage` and says what comes next.
/// An answer that the stage did not wait for ends the request as an internal
/// fault.
pub fn advance(stage: Stage, event: Event) -> (step: Step)
    ensures
        step == next(stage, event),
{
    match stage {
        Stage::CacheCheck { request } => match event {
            Event::Cache(Some(verdict)) => Step::Finish(Outcome::Replay(verdict)),
            Event::Cache(None) => Step::Ask(
                Stage::ContentLookup { request },
                Query::Content { content_id: request.content_id },
            ),
            _ => Step::Finish(Outcome::Refuse(Refusal::Internal)),
        },
        Stage::ContentLookup { request } => match event {
            Event::Content(Ok(Some(content))) => Step::Ask(
                Stage::SubscriptionLookup { request, content },
                Query::Subscriptions { user_id: request.user_id },
            ),
            Event::Content(Ok(None)) => Step::Finish(Outcome::Refuse(Refusal::NotFound)),
            _ => Step::Finish(Outcome::Refuse(Refusal::Internal)),
        },
        Stage::SubscriptionLookup { request, content } => match event {
            Event::Subscriptions(Ok(rows)) => decide(request, content, rows),
            _ => Step::Finish(Outcome::Refuse(Refusal::Internal)),
        },
        Stage::FeatureExtraction { request, content } => match event {
            Event::Features(Ok(vector)) => {
                if accepts(&vector) {
                    Step::Ask(Stage::Inference { request, content }, Query::Inference { vector })
                } else {
                    deny(request, content, Advisory::UpgradeRequired)
                }
            },
            Event::Features(Err(_)) => deny(request, content, Advisory::UpgradeRequired),
            _ => Step::Finish(Outcome::Refuse(Refusal::Internal)),
        },
        Stage::Inference { request, content } => match event {
            Event::Inference(label) => {
                if suggests_grant(label) {
                    deny(request, content, Advisory::FallbackEligible)
                } else {
                    deny(request, content, Advisory::UpgradeRequired)
                }
            },
            _ => Step::Finish(Outcome::Refuse(Refusal::Internal)),
        },
    }
}

} // verus!
