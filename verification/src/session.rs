//! Whole requests, played against a model of the stores.
//!
//! The engine decides one step at a time. What should hold of a request from
//! its first query to its outcome, and of one request after another, is stated
//! here: the stores are modelled as plain mathematical values, the engine's
//! steps are chained, and the laws are proved of every model.

use vstd::prelude::*;
use crate::cache::{key_text, lemma_key_text_injective, CacheKey};
use crate::engine::{denial, first, next, Event, Outcome, Query, Request, Stage, Step};
use crate::features::FeatureVector;
use crate::id::Id;
use crate::models::{Content, StoreFault, Subscription};
use crate::plan::permits;
use crate::subscription::active_plan;
use crate::verdict::{AccessVerdict, Advisory};

verus! {

/// The stores and the model as the engine meets them: what each query is
/// answered with.
pub struct World {
    /// The cached verdicts, by the text of their key.
    pub cache: Map<Seq<char>, AccessVerdict>,
    /// The answer of the content store for each identifier.
    pub content: spec_fn(Id) -> Result<Option<Content>, StoreFault>,
    /// The answer of the subscription store for each user.
    pub subscriptions: spec_fn(Id) -> Result<Vec<Subscription>, StoreFault>,
    /// The answer of the feature extraction for each user and content.
    pub features: spec_fn(Id, Id) -> Result<FeatureVector, StoreFault>,
    /// The class that the model predicts for each vector.
    pub model: spec_fn(FeatureVector) -> Option<usize>,
}

impl World {
    /// The answer of this world to a query.
    pub open spec fn answer(self, query: Query) -> Event {
        match query {
            Query::Cache { key } => Event::Cache(
                if self.cache.dom().contains(key_text(key)) {
                    Some(self.cache[key_text(key)])
                } else {
                    None
                },
            ),
            Query::Content { content_id } => Event::Content((self.content)(content_id)),
            Query::Subscriptions { user_id } => Event::Subscriptions((self.subscriptions)(user_id)),
            Query::Features { user_id, content_id } => Event::Features(
                (self.features)(user_id, content_id),
            ),
            Query::Inference { vector } => Event::Inference((self.model)(vector)),
        }
    }

    /// This world after the caller has done what `outcome` asks for: a fresh
    /// verdict is written to the cache, and nothing else changes.
    pub open spec fn after(self, outcome: Outcome) -> World {
        match outcome {
            Outcome::Fresh { key, verdict, log } => World {
                cache: self.cache.insert(key_text(key), verdict),
                ..self
            },
            _ => self,
        }
    }
}

/// How many queries a request can still need.
pub open spec fn queries_left(step: Step) -> nat {
    match step {
        Step::Finish(_) => 0,
        Step::Ask(Stage::CacheCheck { .. }, _) => 5,
        Step::Ask(Stage::ContentLookup { .. }, _) => 4,
        Step::Ask(Stage::SubscriptionLookup { .. }, _) => 3,
        Step::Ask(Stage::FeatureExtraction { .. }, _) => 2,
        Step::Ask(Stage::Inference { .. }, _) => 1,
    }
}

/// The outcome that `step` leads to in `world`.
pub open spec fn run(world: World, step: Step) -> Outcome
    decreases queries_left(step),
{
    match step {
        Step::Finish(outcome) => outcome,
        Step::Ask(stage, query) => run(world, next(stage, world.answer(query))),
    }
}

/// The queries that are performed from `step` on, in their order.
pub open spec fn asked(world: World, step: Step) -> Seq<Query>
    decreases queries_left(step),
{
    match step {
        Step::Finish(_) => Seq::empty(),
        Step::Ask(stage, query) => seq![query] + asked(world, next(stage, world.answer(query))),
    }
}

/// The outcome of a whole request in `world`.
pub open spec fn evaluate(world: World, identity: Option<Id>, content_id: Id, now: i64) -> Outcome {
    run(world, first(identity, content_id, now))
}

/// The verdict that an outcome replies with, if it replies with one.
pub open spec fn verdict_of(outcome: Outcome) -> Option<AccessVerdict> {
    match outcome {
        Outcome::Replay(verdict) => Some(verdict),
        Outcome::Fresh { key, verdict, log } => Some(verdict),
        Outcome::Refuse(_) => None,
    }
}

/// Every step that does not finish the request brings it nearer to its end:
/// no request needs more than five queries.
pub proof fn lemma_requests_end(stage: Stage, query: Query, event: Event)
    ensures
        queries_left(next(stage, event)) < queries_left(Step::Ask(stage, query)),
{
}

/// Cache idempotence. When a request has ended with a verdict and the caller
/// has done what the outcome asks for, the same reader's next request for the
/// same content is answered with that very verdict, whenever it comes, and
/// the only query performed for it is the cache lookup: the plan rule is not
/// applied, no feature is worked out, and the model is not asked.
pub proof fn lemma_cache_idempotence(
    world: World,
    user_id: Id,
    content_id: Id,
    now: i64,
    later: i64,
)
    ensures
        ({
            let outcome = evaluate(world, Some(user_id), content_id, now);
            let then = world.after(outcome);
            let key = CacheKey { content_id, user_id };
            verdict_of(outcome) matches Some(verdict) ==> {
                &&& evaluate(then, Some(user_id), content_id, later) == Outcome::Replay(verdict)
                &&& asked(then, first(Some(user_id), content_id, later)) == seq![
                    Query::Cache { key },
                ]
            }
        }),
{
    let request = Request { user_id, content_id, now };
    let key = CacheKey { content_id, user_id };
    let outcome = evaluate(world, Some(user_id), content_id, now);
    let then = world.after(outcome);
    lemma_fresh_key(world, request);
    let again = Request { user_id, content_id, now: later };
    match verdict_of(outcome) {
        Some(verdict) => {
            assert(then.cache.dom().contains(key_text(key)));
            assert(then.cache[key_text(key)] == verdict);
            assert(then.answer(Query::Cache { key }) == Event::Cache(Some(verdict)));
            let start = first(Some(user_id), content_id, later);
            assert(start == Step::Ask(Stage::CacheCheck { request: again }, Query::Cache { key }));
            let hit = next(Stage::CacheCheck { request: again }, Event::Cache(Some(verdict)));
            assert(hit == Step::Finish(Outcome::Replay(verdict)));
            assert(run(then, start) == run(then, hit));
            assert(run(then, hit) == Outcome::Replay(verdict));
            assert(asked(then, hit) == Seq::<Query>::empty());
            assert(asked(then, start) == seq![Query::Cache { key }] + asked(then, hit));
            assert(asked(then, first(Some(user_id), content_id, later)) =~= seq![
                Query::Cache { key },
            ]);
        },
        None => {},
    }
}

/// A request that ends with a fresh verdict writes it under the key of its own
/// reader and content, and a replayed verdict is the one the cache held under
/// that key.
pub proof fn lemma_fresh_key(world: World, request: Request)
    ensures
        ({
            let outcome = evaluate(
                world,
                Some(request.user_id),
                request.content_id,
                request.now,
            );
            &&& outcome matches Outcome::Fresh { key, verdict, log } ==> key == request.key()
                && verdict.well_formed()
            &&& outcome matches Outcome::Replay(verdict) ==> world.cache.dom().contains(
                key_text(request.key()),
            ) && world.cache[key_text(request.key())] == verdict
        }),
{
    let step = first(Some(request.user_id), request.content_id, request.now);
    assert(step == Step::Ask(Stage::CacheCheck { request }, Query::Cache { key: request.key() }));
    let s1 = next(Stage::CacheCheck { request }, world.answer(Query::Cache { key: request.key() }));
    assert(run(world, step) == run(world, s1));
    match s1 {
        Step::Finish(_) => {},
        Step::Ask(stage1, query1) => {
            let s2 = next(stage1, world.answer(query1));
            assert(run(world, s1) == run(world, s2));
            match s2 {
                Step::Finish(_) => {},
                Step::Ask(stage2, query2) => {
                    let s3 = next(stage2, world.answer(query2));
                    assert(run(world, s2) == run(world, s3));
                    match s3 {
                        Step::Finish(_) => {},
                        Step::Ask(stage3, query3) => {
                            let s4 = next(stage3, world.answer(query3));
                            assert(run(world, s3) == run(world, s4));
                            match s4 {
                                Step::Finish(_) => {},
                                Step::Ask(stage4, query4) => {
                                    let s5 = next(stage4, world.answer(query4));
                                    assert(run(world, s4) == run(world, s5));
                                },
                            }
                        },
                    }
                },
            }
        },
    }
}

/// Writing the verdict of one reader and content changes what the cache
/// answers for that pair and for no other.
pub proof fn lemma_cache_entries_apart(
    world: World,
    key: CacheKey,
    verdict: AccessVerdict,
    other: CacheKey,
)
    requires
        other != key,
    ensures
        world.after(Outcome::Fresh { key, verdict, log: None }).answer(Query::Cache { key: other })
            == world.answer(Query::Cache { key: other }),
{
    if key_text(other) == key_text(key) {
        lemma_key_text_injective(other, key);
    }
}

/// Requests of different pairs leave each other alone: what one request
/// writes to the cache changes neither the outcome nor the queries of a
/// request by another reader or for other content.
pub proof fn lemma_requests_do_not_interfere(
    world: World,
    written: Outcome,
    request: Request,
)
    requires
        written matches Outcome::Fresh { key, verdict, log } ==> key != request.key(),
    ensures
        evaluate(world.after(written), Some(request.user_id), request.content_id, request.now)
            == evaluate(world, Some(request.user_id), request.content_id, request.now),
        asked(
            world.after(written),
            first(Some(request.user_id), request.content_id, request.now),
        ) == asked(world, first(Some(request.user_id), request.content_id, request.now)),
{
    let then = world.after(written);
    let key = request.key();
    match written {
        Outcome::Fresh { key: other, verdict, log } => {
            if key_text(other) == key_text(key) {
                lemma_key_text_injective(other, key);
            }
        },
        _ => {},
    }
    assert(then.answer(Query::Cache { key }) == world.answer(Query::Cache { key }));
    let step = first(Some(request.user_id), request.content_id, request.now);
    assert(step == Step::Ask(Stage::CacheCheck { request }, Query::Cache { key }));
    let s1 = next(Stage::CacheCheck { request }, world.answer(Query::Cache { key }));
    assert(run(world, step) == run(world, s1));
    assert(run(then, step) == run(then, s1));
    assert(asked(world, step) == seq![Query::Cache { key }] + asked(world, s1));
    assert(asked(then, step) == seq![Query::Cache { key }] + asked(then, s1));
    lemma_same_answers_same_run(world, then, s1);
}

/// Two worlds that differ in their caches only treat a request alike from the
/// moment it has left the cache lookup behind.
proof fn lemma_same_answers_same_run(a: World, b: World, step: Step)
    requires
        a.content == b.content,
        a.subscriptions == b.subscriptions,
        a.features == b.features,
        a.model == b.model,
        !(step matches Step::Ask(Stage::CacheCheck { .. }, _)),
        step matches Step::Ask(_, query) ==> !(query is Cache),
    ensures
        run(a, step) == run(b, step),
        asked(a, step) == asked(b, step),
    decreases queries_left(step),
{
    match step {
        Step::Finish(_) => {},
        Step::Ask(stage, query) => {
            assert(a.answer(query) == b.answer(query));
            let following = next(stage, a.answer(query));
            lemma_same_answers_same_run(a, b, following);
        },
    }
}

/// Writing the same verdict twice is writing it once: requests that miss the
/// cache side by side and reach the same verdict leave the cache as one of
/// them alone would.
pub proof fn lemma_writes_are_idempotent(world: World, outcome: Outcome)
    ensures
        world.after(outcome).after(outcome) == world.after(outcome),
{
    match outcome {
        Outcome::Fresh { key, verdict, log } => {
            assert(world.cache.insert(key_text(key), verdict).insert(key_text(key), verdict)
                =~= world.cache.insert(key_text(key), verdict));
        },
        _ => {},
    }
}

/// Fail-closed. When the features cannot be worked out, the reader whom the
/// plan rule has turned away is told to upgrade: the request ends at once, the
/// model is not asked, and the message is never the model's suggestion.
pub proof fn lemma_fail_closed(request: Request, content: Content, fault: StoreFault)
    ensures
        next(Stage::FeatureExtraction { request, content }, Event::Features(Err(fault))) == denial(
            request,
            content,
            Advisory::UpgradeRequired,
        ),
{
}

/// Fail-closed, for a whole request: in a world where the features of a reader
/// and a piece of content cannot be worked out, no request of that reader for
/// that content that misses the cache ends with the model's suggestion, and
/// every denial among them carries the advice to upgrade.
pub proof fn lemma_fail_closed_request(world: World, request: Request)
    requires
        (world.features)(request.user_id, request.content_id) is Err,
        !world.cache.dom().contains(key_text(request.key())),
    ensures
        verdict_of(
            evaluate(world, Some(request.user_id), request.content_id, request.now),
        ) matches Some(verdict) ==> {
            &&& verdict.message != Some(Advisory::FallbackEligible)
            &&& !verdict.granted ==> verdict.message == Some(Advisory::UpgradeRequired)
        },
{
    let step = first(Some(request.user_id), request.content_id, request.now);
    let s1 = next(Stage::CacheCheck { request }, world.answer(Query::Cache { key: request.key() }));
    assert(run(world, step) == run(world, s1));
    match s1 {
        Step::Finish(_) => {},
        Step::Ask(stage1, query1) => {
            let s2 = next(stage1, world.answer(query1));
            assert(run(world, s1) == run(world, s2));
            match s2 {
                Step::Finish(_) => {},
                Step::Ask(stage2, query2) => {
                    let s3 = next(stage2, world.answer(query2));
                    assert(run(world, s2) == run(world, s3));
                    match s3 {
                        Step::Finish(_) => {},
                        Step::Ask(stage3, query3) => {
                            let s4 = next(stage3, world.answer(query3));
                            assert(run(world, s3) == run(world, s4));
                        },
                    }
                },
            }
        },
    }
}

/// The shape guard. A feature vector that does not have exactly six components
/// is never shown to the model: the request ends at once as a denial with the
/// advice to upgrade.
pub proof fn lemma_shape_guard(request: Request, content: Content, vector: FeatureVector)
    requires
        vector.components@.len() != 6,
    ensures
        next(Stage::FeatureExtraction { request, content }, Event::Features(Ok(vector))) == denial(
            request,
            content,
            Advisory::UpgradeRequired,
        ),
{
}

/// The model advises and never unlocks: a step that ends a request with a
/// grant is the step at which the plan rule was applied, and the rule allowed.
pub proof fn lemma_only_the_plan_grants(stage: Stage, event: Event)
    ensures
        next(stage, event) matches Step::Finish(Outcome::Fresh { key, verdict, log }) ==> (
        verdict.granted ==> {
            &&& stage matches Stage::SubscriptionLookup { request, content }
            &&& event matches Event::Subscriptions(Ok(rows))
            &&& permits(content.required_plan@, active_plan(rows@, request.user_id, request.now))
            &&& verdict == AccessVerdict::granting(content)
        }),
{
}

/// What the model's answer does to a denied request: the message is the
/// model's suggestion exactly when the predicted class is 1.
pub proof fn lemma_inference_sets_the_message(
    request: Request,
    content: Content,
    label: Option<usize>,
)
    ensures
        next(Stage::Inference { request, content }, Event::Inference(label)) == denial(
            request,
            content,
            if label == Some(1usize) {
                Advisory::FallbackEligible
            } else {
                Advisory::UpgradeRequired
            },
        ),
{
}

/// Every fresh verdict is well formed, is written under the key of the request
/// it answers, and is logged exactly when it is a grant.
pub proof fn lemma_fresh_verdicts(stage: Stage, event: Event)
    ensures
        next(stage, event) matches Step::Finish(Outcome::Fresh { key, verdict, log }) ==> {
            &&& verdict.well_formed()
            &&& key == stage_request(stage).key()
            &&& log is Some <==> verdict.granted
        },
{
}

/// A fault is never retried: whatever the stage, an answer that reports a
/// fault ends the request.
pub proof fn lemma_faults_end_the_request(stage: Stage, event: Event)
    requires
        event matches Event::Content(Err(_)) || event matches Event::Subscriptions(Err(_))
            || event matches Event::Features(Err(_)),
    ensures
        next(stage, event) is Finish,
{
}

/// A reader whom the plan entitles is served whatever state the features and
/// the model are in: on a cache miss, with the content and the subscriptions
/// at hand and the plan rule allowing, the request ends with the grant, the
/// view is logged, and neither the features nor the model are asked for.
pub proof fn lemma_entitled_readers_are_served(
    world: World,
    request: Request,
    content: Content,
    rows: Vec<Subscription>,
)
    requires
        !world.cache.dom().contains(key_text(request.key())),
        (world.content)(request.content_id) == Ok::<Option<Content>, StoreFault>(Some(content)),
        (world.subscriptions)(request.user_id) == Ok::<Vec<Subscription>, StoreFault>(rows),
        permits(content.required_plan@, active_plan(rows@, request.user_id, request.now)),
    ensures
        evaluate(world, Some(request.user_id), request.content_id, request.now) == (Outcome::Fresh {
            key: request.key(),
            verdict: AccessVerdict::granting(content),
            log: Some(
                crate::models::UserBehavior::plain_view(
                    request.user_id,
                    request.content_id,
                    request.now,
                ),
            ),
        }),
        asked(world, first(Some(request.user_id), request.content_id, request.now)) == seq![
            Query::Cache { key: request.key() },
            Query::Content { content_id: request.content_id },
            Query::Subscriptions { user_id: request.user_id },
        ],
{
    let step = first(Some(request.user_id), request.content_id, request.now);
    let q0 = Query::Cache { key: request.key() };
    let s1 = next(Stage::CacheCheck { request }, world.answer(q0));
    let q1 = Query::Content { content_id: request.content_id };
    assert(s1 == Step::Ask(Stage::ContentLookup { request }, q1));
    let s2 = next(Stage::ContentLookup { request }, world.answer(q1));
    let q2 = Query::Subscriptions { user_id: request.user_id };
    assert(s2 == Step::Ask(Stage::SubscriptionLookup { request, content }, q2));
    let s3 = next(Stage::SubscriptionLookup { request, content }, world.answer(q2));
    assert(s3 is Finish);
    assert(run(world, step) == run(world, s1));
    assert(run(world, s1) == run(world, s2));
    assert(run(world, s2) == run(world, s3));
    assert(asked(world, s3) == Seq::<Query>::empty());
    assert(asked(world, s2) == seq![q2] + asked(world, s3));
    assert(asked(world, s1) == seq![q1] + asked(world, s2));
    assert(asked(world, step) == seq![q0] + asked(world, s1));
    assert(asked(world, step) =~= seq![q0, q1, q2]);
}

/// No grant without the plan: a request that misses the cache and ends with a
/// grant found the content, found the reader's subscriptions, and the plan rule
/// allowed. What the model predicts has no part in it.
pub proof fn lemma_grants_follow_the_plan(world: World, request: Request)
    requires
        !world.cache.dom().contains(key_text(request.key())),
    ensures
        verdict_of(
            evaluate(world, Some(request.user_id), request.content_id, request.now),
        ) matches Some(verdict) ==> (verdict.granted ==> {
            &&& (world.content)(request.content_id) matches Ok(Some(content))
            &&& (world.subscriptions)(request.user_id) matches Ok(rows)
            &&& permits(content.required_plan@, active_plan(rows@, request.user_id, request.now))
            &&& verdict == AccessVerdict::granting(content)
        }),
{
    let step = first(Some(request.user_id), request.content_id, request.now);
    let s1 = next(Stage::CacheCheck { request }, world.answer(Query::Cache { key: request.key() }));
    assert(run(world, step) == run(world, s1));
    match s1 {
        Step::Finish(_) => {},
        Step::Ask(stage1, query1) => {
            let s2 = next(stage1, world.answer(query1));
            assert(run(world, s1) == run(world, s2));
            match s2 {
                Step::Finish(_) => {},
                Step::Ask(stage2, query2) => {
                    let s3 = next(stage2, world.answer(query2));
                    assert(run(world, s2) == run(world, s3));
                    match s3 {
                        Step::Finish(_) => {},
                        Step::Ask(stage3, query3) => {
                            let s4 = next(stage3, world.answer(query3));
                            assert(run(world, s3) == run(world, s4));
                            match s4 {
                                Step::Finish(_) => {},
                                Step::Ask(stage4, query4) => {
                                    let s5 = next(stage4, world.answer(query4));
                                    assert(run(world, s4) == run(world, s5));
                                },
                            }
                        },
                    }
                },
            }
        },
    }
}

/// The request that a stage belongs to.
pub open spec fn stage_request(stage: Stage) -> Request {
    match stage {
        Stage::CacheCheck { request } => request,
        Stage::ContentLookup { request } => request,
        Stage::SubscriptionLookup { request, content } => request,
        Stage::FeatureExtraction { request, content } => request,
        Stage::Inference { request, content } => request,
    }
}

} // verus!
