use std::collections::HashMap;

use paywall::cache::CacheKey;
use paywall::engine::{advance, get_content, Event, Outcome, Query, Refusal, Request, Stage, Step};
use paywall::features::FeatureVector;
use paywall::id::Id;
use paywall::models::{Content, StoreFault, Subscription, UserBehavior};
use paywall::verdict::{AccessVerdict, Advisory};

const USER: Id = Id { value: 0xa1a2a3a4b1b2c1c2d1d2d3d4d5d6d7d8 };
const ARTICLE: Id = Id { value: 0x550e8400e29b41d4a716446655440000 };
const NOW: i64 = 1_700_000_000_000_000;
const DAY: i64 = 86_400_000_000;

/// Stores that answer from memory and count what they are asked.
struct Stores {
    cache: HashMap<String, AccessVerdict>,
    content: Result<Option<Content>, StoreFault>,
    subscriptions: Result<Vec<Subscription>, StoreFault>,
    features: Result<FeatureVector, StoreFault>,
    label: Option<usize>,
    logged: Vec<UserBehavior>,
    cache_reads: usize,
    content_reads: usize,
    subscription_reads: usize,
    extractions: usize,
    inferences: usize,
}

fn article(required_plan: &str) -> Content {
    Content {
        id: ARTICLE,
        title: "On paywalls".to_string(),
        body: "Some content is worth paying for.".to_string(),
        required_plan: required_plan.to_string(),
        created_at: NOW - 10 * DAY,
    }
}

fn subscription(plan: &str) -> Subscription {
    Subscription {
        id: Id { value: 77 },
        user_id: USER,
        plan_id: plan.to_string(),
        started_at: NOW - DAY,
        expires_at: NOW + 29 * DAY,
        is_active: true,
    }
}

fn six() -> FeatureVector {
    FeatureVector { components: vec![1.0f64.to_bits(); 6] }
}

fn stores(required_plan: &str, plans: &[&str]) -> Stores {
    Stores {
        cache: HashMap::new(),
        content: Ok(Some(article(required_plan))),
        subscriptions: Ok(plans.iter().map(|plan| subscription(plan)).collect()),
        features: Ok(six()),
        label: Some(0),
        logged: Vec::new(),
        cache_reads: 0,
        content_reads: 0,
        subscription_reads: 0,
        extractions: 0,
        inferences: 0,
    }
}

fn answer(stores: &mut Stores, query: Query) -> Event {
    match query {
        Query::Cache { key } => {
            stores.cache_reads += 1;
            Event::Cache(stores.cache.get(&key.text()).cloned())
        }
        Query::Content { content_id } => {
            stores.content_reads += 1;
            assert_eq!(content_id, ARTICLE);
            Event::Content(stores.content.clone())
        }
        Query::Subscriptions { user_id } => {
            stores.subscription_reads += 1;
            assert_eq!(user_id, USER);
            Event::Subscriptions(stores.subscriptions.clone())
        }
        Query::Features { user_id, content_id } => {
            stores.extractions += 1;
            assert_eq!((user_id, content_id), (USER, ARTICLE));
            Event::Features(stores.features.clone())
        }
        Query::Inference { vector } => {
            stores.inferences += 1;
            assert_eq!(vector.components.len(), 6);
            Event::Inference(stores.label)
        }
    }
}

/// Serves one request as a caller of the engine does.
fn serve(stores: &mut Stores, identity: Option<Id>, now: i64) -> Outcome {
    let mut step = get_content(identity, ARTICLE, now);
    loop {
        match step {
            Step::Ask(stage, query) => {
                let event = answer(stores, query);
                step = advance(stage, event);
            }
            Step::Finish(outcome) => {
                if let Outcome::Fresh { key, verdict, log } = &outcome {
                    if let Some(record) = log {
                        stores.logged.push(*record);
                    }
                    stores.cache.insert(key.text(), verdict.clone());
                }
                return outcome;
            }
        }
    }
}

fn key() -> CacheKey {
    CacheKey { content_id: ARTICLE, user_id: USER }
}

fn granted(required_plan: &str) -> AccessVerdict {
    AccessVerdict { content: article(required_plan), granted: true, message: None }
}

fn denied(required_plan: &str, advisory: Advisory) -> AccessVerdict {
    AccessVerdict { content: article(required_plan), granted: false, message: Some(advisory) }
}

#[test]
fn a_premium_subscriber_reads_basic_content() {
    let mut stores = stores("basic", &["premium"]);
    let outcome = serve(&mut stores, Some(USER), NOW);
    let record = UserBehavior {
        user_id: USER,
        content_id: ARTICLE,
        view_time_seconds: 0,
        scroll_depth_percent_bits: 0,
        interaction_score_bits: 0,
        timestamp: NOW,
    };
    assert_eq!(
        outcome,
        Outcome::Fresh { key: key(), verdict: granted("basic"), log: Some(record) }
    );
    assert_eq!(stores.cache.get(&key().text()), Some(&granted("basic")));
    assert_eq!(stores.logged, vec![record]);
    assert_eq!(f32::from_bits(record.scroll_depth_percent_bits), 0.0);
    assert_eq!(f32::from_bits(record.interaction_score_bits), 0.0);
    assert_eq!((stores.extractions, stores.inferences), (0, 0));
}

#[test]
fn free_content_needs_no_subscription() {
    let mut stores = stores("free", &[]);
    let outcome = serve(&mut stores, Some(USER), NOW);
    match outcome {
        Outcome::Fresh { verdict, .. } => {
            assert!(verdict.granted);
            assert_eq!(verdict, granted("free"));
        }
        other => panic!("the request ended as {other:?}"),
    }
    assert_eq!((stores.extractions, stores.inferences), (0, 0));
}

#[test]
fn the_model_suggests_a_grant_and_the_request_stays_denied() {
    let mut stores = stores("premium", &[]);
    stores.label = Some(1);
    let outcome = serve(&mut stores, Some(USER), NOW);
    assert_eq!(
        outcome,
        Outcome::Fresh {
            key: key(),
            verdict: denied("premium", Advisory::FallbackEligible),
            log: None
        }
    );
    assert_eq!(Advisory::FallbackEligible.text(), "fallback-eligible");
    assert_eq!((stores.extractions, stores.inferences), (1, 1));
    assert!(stores.logged.is_empty());
    assert_eq!(
        stores.cache.get(&key().text()),
        Some(&denied("premium", Advisory::FallbackEligible))
    );
}

#[test]
fn the_model_predicts_a_denial() {
    let mut stores = stores("premium", &[]);
    stores.label = Some(0);
    let outcome = serve(&mut stores, Some(USER), NOW);
    assert_eq!(
        outcome,
        Outcome::Fresh {
            key: key(),
            verdict: denied("premium", Advisory::UpgradeRequired),
            log: None
        }
    );
    assert_eq!(Advisory::UpgradeRequired.text(), "upgrade required");
    assert_eq!((stores.extractions, stores.inferences), (1, 1));
}

#[test]
fn a_model_without_a_prediction_is_a_denial() {
    let mut stores = stores("premium", &["basic"]);
    stores.label = None;
    let outcome = serve(&mut stores, Some(USER), NOW);
    assert_eq!(
        outcome,
        Outcome::Fresh {
            key: key(),
            verdict: denied("premium", Advisory::UpgradeRequired),
            log: None
        }
    );
}

#[test]
fn the_second_request_is_answered_from_the_cache_alone() {
    for (required, plans, label) in [
        ("basic", vec!["premium"], Some(0)),
        ("premium", vec![], Some(1)),
        ("premium", vec!["basic"], Some(0)),
    ] {
        let mut stores = stores(required, &plans);
        stores.label = label;
        let first = match serve(&mut stores, Some(USER), NOW) {
            Outcome::Fresh { verdict, .. } => verdict,
            other => panic!("the request ended as {other:?}"),
        };
        let logged = stores.logged.len();
        let reads = (stores.content_reads, stores.subscription_reads);
        let model = (stores.extractions, stores.inferences);

        let second = serve(&mut stores, Some(USER), NOW + DAY);

        assert_eq!(second, Outcome::Replay(first));
        assert_eq!(stores.cache_reads, 2);
        assert_eq!((stores.content_reads, stores.subscription_reads), reads);
        assert_eq!((stores.extractions, stores.inferences), model);
        assert_eq!(stores.logged.len(), logged);
    }
}

#[test]
fn a_cached_verdict_is_replayed_even_when_the_stores_have_changed() {
    let mut stores = stores("premium", &[]);
    serve(&mut stores, Some(USER), NOW);
    stores.subscriptions = Ok(vec![subscription("premium")]);
    stores.content = Ok(None);
    let again = serve(&mut stores, Some(USER), NOW + 1);
    assert_eq!(again, Outcome::Replay(denied("premium", Advisory::UpgradeRequired)));
}

#[test]
fn a_cache_that_forgets_costs_a_recomputation_and_changes_nothing() {
    let mut stores = stores("premium", &["basic"]);
    stores.label = Some(1);
    let first = serve(&mut stores, Some(USER), NOW);
    stores.cache.clear();
    let second = serve(&mut stores, Some(USER), NOW);
    assert_eq!(first, second);
    assert_eq!((stores.extractions, stores.inferences), (2, 2));
    assert_eq!(
        stores.cache.get(&key().text()),
        Some(&denied("premium", Advisory::FallbackEligible))
    );
}

#[test]
fn requests_of_different_readers_do_not_share_a_cache_entry() {
    let other = Id { value: 0xb1b2b3b4c1c2d1d2e1e2e3e4e5e6e7e8 };
    let mut stores = stores("free", &[]);
    serve(&mut stores, Some(USER), NOW);
    let mut step = get_content(Some(other), ARTICLE, NOW);
    let mut asked_cache = false;
    while let Step::Ask(stage, query) = step {
        let event = match query {
            Query::Cache { key } => {
                asked_cache = true;
                assert_eq!(key, CacheKey { content_id: ARTICLE, user_id: other });
                Event::Cache(stores.cache.get(&key.text()).cloned())
            }
            Query::Content { .. } => Event::Content(Ok(Some(article("free")))),
            Query::Subscriptions { .. } => Event::Subscriptions(Ok(Vec::new())),
            Query::Features { .. } => Event::Features(Err(StoreFault)),
            Query::Inference { .. } => Event::Inference(None),
        };
        step = advance(stage, event);
    }
    assert!(asked_cache);
    match step {
        Step::Finish(Outcome::Fresh { key, verdict, .. }) => {
            assert_eq!(key, CacheKey { content_id: ARTICLE, user_id: other });
            assert!(verdict.granted);
        }
        ended => panic!("the request ended as {ended:?}"),
    }
}

#[test]
fn a_failed_extraction_is_a_denial_with_the_advice_to_upgrade() {
    for label in [Some(1), Some(0), None] {
        let mut stores = stores("premium", &["basic"]);
        stores.features = Err(StoreFault);
        stores.label = label;
        let outcome = serve(&mut stores, Some(USER), NOW);
        assert_eq!(
            outcome,
            Outcome::Fresh {
                key: key(),
                verdict: denied("premium", Advisory::UpgradeRequired),
                log: None
            }
        );
        assert_eq!((stores.extractions, stores.inferences), (1, 0));
    }
}

#[test]
fn a_vector_of_the_wrong_length_never_reaches_the_model() {
    for len in [0usize, 1, 5, 7, 100] {
        let mut stores = stores("basic", &[]);
        stores.features = Ok(FeatureVector { components: vec![1.0f64.to_bits(); len] });
        stores.label = Some(1);
        let outcome = serve(&mut stores, Some(USER), NOW);
        assert_eq!(
            outcome,
            Outcome::Fresh {
                key: key(),
                verdict: denied("basic", Advisory::UpgradeRequired),
                log: None
            },
            "length {len}"
        );
        assert_eq!(stores.inferences, 0);
    }
}

#[test]
fn a_request_without_identity_is_refused_before_anything_is_read() {
    let mut stores = stores("free", &[]);
    assert_eq!(serve(&mut stores, None, NOW), Outcome::Refuse(Refusal::Unauthorized));
    assert_eq!(stores.cache_reads, 0);
    assert!(stores.cache.is_empty());
}

#[test]
fn missing_content_is_not_found_and_not_cached() {
    let mut stores = stores("free", &["premium"]);
    stores.content = Ok(None);
    assert_eq!(serve(&mut stores, Some(USER), NOW), Outcome::Refuse(Refusal::NotFound));
    assert_eq!(stores.subscription_reads, 0);
    assert!(stores.cache.is_empty());
}

#[test]
fn a_failing_content_store_is_an_internal_fault() {
    let mut stores = stores("free", &[]);
    stores.content = Err(StoreFault);
    assert_eq!(serve(&mut stores, Some(USER), NOW), Outcome::Refuse(Refusal::Internal));
    assert!(stores.cache.is_empty());
}

#[test]
fn a_failing_subscription_store_is_an_internal_fault() {
    let mut stores = stores("free", &[]);
    stores.subscriptions = Err(StoreFault);
    assert_eq!(serve(&mut stores, Some(USER), NOW), Outcome::Refuse(Refusal::Internal));
    assert!(stores.cache.is_empty());
    assert_eq!(stores.extractions, 0);
}

#[test]
fn a_subscription_that_has_run_out_unlocks_nothing() {
    let mut stores = stores("basic", &["premium"]);
    let outcome = serve(&mut stores, Some(USER), NOW + 29 * DAY);
    match outcome {
        Outcome::Fresh { verdict, log, .. } => {
            assert!(!verdict.granted);
            assert_eq!(log, None);
        }
        other => panic!("the request ended as {other:?}"),
    }
}

#[test]
fn the_subscription_that_started_last_decides() {
    let mut stores = stores("premium", &[]);
    let mut old = subscription("premium");
    old.started_at = NOW - 20 * DAY;
    let mut new = subscription("basic");
    new.started_at = NOW - 2 * DAY;
    stores.subscriptions = Ok(vec![old, new]);
    match serve(&mut stores, Some(USER), NOW) {
        Outcome::Fresh { verdict, .. } => assert!(!verdict.granted),
        other => panic!("the request ended as {other:?}"),
    }
}

#[test]
fn the_first_step_asks_the_cache_under_the_key_of_the_pair() {
    let request = Request { user_id: USER, content_id: ARTICLE, now: NOW };
    assert_eq!(
        get_content(Some(USER), ARTICLE, NOW),
        Step::Ask(Stage::CacheCheck { request }, Query::Cache { key: key() })
    );
}

#[test]
fn a_miss_asks_for_the_content_and_then_for_the_subscriptions() {
    let request = Request { user_id: USER, content_id: ARTICLE, now: NOW };
    assert_eq!(
        advance(Stage::CacheCheck { request }, Event::Cache(None)),
        Step::Ask(Stage::ContentLookup { request }, Query::Content { content_id: ARTICLE })
    );
    assert_eq!(
        advance(Stage::ContentLookup { request }, Event::Content(Ok(Some(article("basic"))))),
        Step::Ask(
            Stage::SubscriptionLookup { request, content: article("basic") },
            Query::Subscriptions { user_id: USER }
        )
    );
}

#[test]
fn a_denial_by_the_plan_asks_for_the_features_and_then_the_model() {
    let request = Request { user_id: USER, content_id: ARTICLE, now: NOW };
    assert_eq!(
        advance(
            Stage::SubscriptionLookup { request, content: article("basic") },
            Event::Subscriptions(Ok(Vec::new()))
        ),
        Step::Ask(
            Stage::FeatureExtraction { request, content: article("basic") },
            Query::Features { user_id: USER, content_id: ARTICLE }
        )
    );
    assert_eq!(
        advance(
            Stage::FeatureExtraction { request, content: article("basic") },
            Event::Features(Ok(six()))
        ),
        Step::Ask(
            Stage::Inference { request, content: article("basic") },
            Query::Inference { vector: six() }
        )
    );
}

#[test]
fn an_answer_that_the_stage_did_not_wait_for_is_an_internal_fault() {
    let request = Request { user_id: USER, content_id: ARTICLE, now: NOW };
    let internal = Step::Finish(Outcome::Refuse(Refusal::Internal));
    assert_eq!(advance(Stage::CacheCheck { request }, Event::Inference(Some(1))), internal);
    assert_eq!(advance(Stage::ContentLookup { request }, Event::Cache(None)), internal);
    assert_eq!(
        advance(
            Stage::SubscriptionLookup { request, content: article("free") },
            Event::Features(Ok(six()))
        ),
        internal
    );
    assert_eq!(
        advance(
            Stage::FeatureExtraction { request, content: article("free") },
            Event::Subscriptions(Ok(Vec::new()))
        ),
        internal
    );
    assert_eq!(
        advance(Stage::Inference { request, content: article("free") }, Event::Content(Ok(None))),
        internal
    );
}

#[test]
fn refusals_have_their_status_codes_and_wordings() {
    assert_eq!(Refusal::Unauthorized.status(), 401);
    assert_eq!(Refusal::NotFound.status(), 404);
    assert_eq!(Refusal::Internal.status(), 500);
    assert_eq!(Refusal::Unauthorized.error(), "Unauthorized");
    assert_eq!(Refusal::NotFound.error(), "Content not found");
    assert_eq!(Refusal::Internal.error(), "Internal server error");
}

#[test]
fn verdicts_are_grants_without_message_or_denials_with_one() {
    assert_eq!(AccessVerdict::grant(article("free")), granted("free"));
    assert_eq!(
        AccessVerdict::deny(article("basic"), Advisory::UpgradeRequired),
        denied("basic", Advisory::UpgradeRequired)
    );
    assert_eq!(
        AccessVerdict::deny(article("basic"), Advisory::FallbackEligible),
        denied("basic", Advisory::FallbackEligible)
    );
}

#[test]
fn the_logged_view_is_zero_valued() {
    assert_eq!(
        UserBehavior::viewed(USER, ARTICLE, NOW),
        UserBehavior {
            user_id: USER,
            content_id: ARTICLE,
            view_time_seconds: 0,
            scroll_depth_percent_bits: 0,
            interaction_score_bits: 0,
            timestamp: NOW,
        }
    );
}
