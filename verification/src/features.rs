//! The numbers that describe a user and a piece of content to the fallback
//! model.
//!
//! Every feature is a double-precision number. The library lays the features
//! out and hands them on, and never computes with one: it holds each by its
//! IEEE 754 bit pattern, so `0` stands for `0.0`. The one feature that the
//! library works out itself, the popularity of a piece of content, is kept as
//! an exact ratio of two counts.

use vstd::prelude::*;
use crate::id::Id;
use crate::models::StoreFault;

verus! {

/// How many features the fallback model takes.
pub const FEATURE_COUNT: usize = 6;

/// The input of the fallback model: the features in the order of
/// [`MLFeatures::layout`], each by its bit pattern.
#[derive(Clone, Debug, PartialEq, Eq)]
pub struct FeatureVector {
    pub components: Vec<u64>,
}

/// The six features of a user and a piece of content, each by its bit pattern.
#[derive(Clone, Copy, Debug, PartialEq, Eq)]
pub struct MLFeatures {
    pub user_id: Id,
    pub content_id: Id,
    /// Days between the start of the user's first and the end of the last
    /// active subscription.
    pub user_subscription_days: u64,
    /// The mean time in seconds that the user spent on a piece of content.
    pub user_avg_view_time: u64,
    /// The share of all recorded interactions that concern this content.
    pub content_popularity_score: u64,
    /// Seconds since the user's last recorded interaction.
    pub time_since_last_interaction: u64,
    /// How many interactions of the user are recorded.
    pub user_total_interactions: u64,
    /// The mean interaction score that the content received.
    pub content_avg_interaction_score: u64,
}

impl MLFeatures {
    /// The order in which the model takes the features.
    pub open spec fn layout(self) -> Seq<u64> {
        seq![
            self.user_subscription_days,
            self.user_avg_view_time,
            self.content_popularity_score,
            self.time_since_last_interaction,
            self.user_total_interactions,
            self.content_avg_interaction_score,
        ]
    }

    /// Lays the features out for the model.
    pub fn vector(&self) -> (vector: FeatureVector)
        ensures
            vector.components@ == self.layout(),
            vector.components@.len() == FEATURE_COUNT,
    {
        let mut components: Vec<u64> = Vec::new();
        components.push(self.user_subscription_days);
        components.push(self.user_avg_view_time);
        components.push(self.content_popularity_score);
        components.push(self.time_since_last_interaction);
        components.push(self.user_total_interactions);
        components.push(self.content_avg_interaction_score);
        assert(components@ =~= self.layout());
        FeatureVector { components }
    }
}

/// What a feature is when the store holds no history for it: the recorded
/// number where there is one, else zero.
pub open spec fn reading_or_zero(reading: Option<u64>) -> u64 {
    match reading {
        Some(bits) => bits,
        None => 0,
    }
}

/// The value of a feature whose history may be missing. Missing history is no
/// fault: the feature is then `0.0`.
pub fn feature_or_default(reading: Option<u64>) -> (bits: u64)
    ensures
        bits == reading_or_zero(reading),
{
    match reading {
        Some(bits) => bits,
        None => 0,
    }
}

/// One of the six features, named in the order in which they are read and in
/// which the model takes them.
#[derive(Clone, Copy, Debug, PartialEq, Eq, Structural)]
pub enum Feature {
    SubscriptionDays,
    AverageViewTime,
    ContentPopularity,
    SinceLastInteraction,
    TotalInteractions,
    ContentAverageScore,
}

impl Feature {
    /// The place of the feature in the vector.
    pub open spec fn index(self) -> int {
        match self {
            Feature::SubscriptionDays => 0,
            Feature::AverageViewTime => 1,
            Feature::ContentPopularity => 2,
            Feature::SinceLastInteraction => 3,
            Feature::TotalInteractions => 4,
            Feature::ContentAverageScore => 5,
        }
    }

    /// The feature that is read after this one, if one is.
    pub open spec fn following(self) -> Option<Feature> {
        match self {
            Feature::SubscriptionDays => Some(Feature::AverageViewTime),
            Feature::AverageViewTime => Some(Feature::ContentPopularity),
            Feature::ContentPopularity => Some(Feature::SinceLastInteraction),
            Feature::SinceLastInteraction => Some(Feature::TotalInteractions),
            Feature::TotalInteractions => Some(Feature::ContentAverageScore),
            Feature::ContentAverageScore => None,
        }
    }

    /// The feature that is read after this one, if one is.
    pub fn next(self) -> (feature: Option<Feature>)
        ensures
            feature == self.following(),
    {
        match self {
            Feature::SubscriptionDays => Some(Feature::AverageViewTime),
            Feature::AverageViewTime => Some(Feature::ContentPopularity),
            Feature::ContentPopularity => Some(Feature::SinceLastInteraction),
            Feature::SinceLastInteraction => Some(Feature::TotalInteractions),
            Feature::TotalInteractions => Some(Feature::ContentAverageScore),
            Feature::ContentAverageScore => None,
        }
    }
}

impl MLFeatures {
    /// The features of a pair of which nothing has been read yet.
    pub open spec fn blank(user_id: Id, content_id: Id) -> MLFeatures {
        MLFeatures {
            user_id,
            content_id,
            user_subscription_days: 0,
            user_avg_view_time: 0,
            content_popularity_score: 0,
            time_since_last_interaction: 0,
            user_total_interactions: 0,
            content_avg_interaction_score: 0,
        }
    }

    /// These features with `feature` set to `bits`.
    pub open spec fn with(self, feature: Feature, bits: u64) -> MLFeatures {
        match feature {
            Feature::SubscriptionDays => MLFeatures { user_subscription_days: bits, ..self },
            Feature::AverageViewTime => MLFeatures { user_avg_view_time: bits, ..self },
            Feature::ContentPopularity => MLFeatures { content_popularity_score: bits, ..self },
            Feature::SinceLastInteraction => MLFeatures {
                time_since_last_interaction: bits,
                ..self
            },
            Feature::TotalInteractions => MLFeatures { user_total_interactions: bits, ..self },
            Feature::ContentAverageScore => MLFeatures {
                content_avg_interaction_score: bits,
                ..self
            },
        }
    }

    /// Sets `feature` to `bits`.
    pub fn set(&mut self, feature: Feature, bits: u64)
        ensures
            *final(self) == old(self).with(feature, bits),
    {
        match feature {
            Feature::SubscriptionDays => {
                self.user_subscription_days = bits;
            },
            Feature::AverageViewTime => {
                self.user_avg_view_time = bits;
            },
            Feature::ContentPopularity => {
                self.content_popularity_score = bits;
            },
            Feature::SinceLastInteraction => {
                self.time_since_last_interaction = bits;
            },
            Feature::TotalInteractions => {
                self.user_total_interactions = bits;
            },
            Feature::ContentAverageScore => {
                self.content_avg_interaction_score = bits;
            },
        }
    }
}

/// An extraction under way: what has been read, and which feature is read next.
#[derive(Clone, Copy, Debug, PartialEq, Eq)]
pub struct Extraction {
    pub features: MLFeatures,
    pub reading: Feature,
}

/// What the caller of an extraction does next.
#[derive(Clone, Copy, Debug, PartialEq, Eq)]
pub enum ExtractionStep {
    /// Read the feature `reading` of the extraction from the store and call
    /// [`record`] with the answer.
    Read(Extraction),
    /// All six features are read.
    Done(MLFeatures),
    /// A read failed. Nothing is read after it, and there are no features.
    Failed(StoreFault),
}

/// The first step of an extraction: nothing is read yet, and the first
/// feature is due.
pub open spec fn extraction_begins(user_id: Id, content_id: Id) -> ExtractionStep {
    ExtractionStep::Read(
        Extraction {
            features: MLFeatures::blank(user_id, content_id),
            reading: Feature::SubscriptionDays,
        },
    )
}

/// The step that follows when the store answers `reading` for the feature
/// that is due. A fault ends the extraction; missing history counts as zero.
pub open spec fn extraction_continues(
    extraction: Extraction,
    reading: Result<Option<u64>, StoreFault>,
) -> ExtractionStep {
    match reading {
        Err(fault) => ExtractionStep::Failed(fault),
        Ok(found) => {
            let features = extraction.features.with(extraction.reading, reading_or_zero(found));
            match extraction.reading.following() {
                Some(feature) => ExtractionStep::Read(Extraction { features, reading: feature }),
                None => ExtractionStep::Done(features),
            }
        },
    }
}

/// Begins to work out the features of a user and a piece of content.
pub fn extract_features(user_id: Id, content_id: Id) -> (step: ExtractionStep)
    ensures
        step == extraction_begins(user_id, content_id),
{
    ExtractionStep::Read(
        Extraction {
            features: MLFeatures {
                user_id,
                content_id,
                user_subscription_days: 0,
                user_avg_view_time: 0,
                content_popularity_score: 0,
                time_since_last_interaction: 0,
                user_total_interactions: 0,
                content_avg_interaction_score: 0,
            },
            reading: Feature::SubscriptionDays,
        },
    )
}

/// Takes the store's answer for the feature that is due. A fault of the store
/// ends the extraction as a failure: no feature is put in its place.
pub fn record(extraction: Extraction, reading: Result<Option<u64>, StoreFault>) -> (step:
    ExtractionStep)
    ensures
        step == extraction_continues(extraction, reading),
{
    match reading {
        Err(fault) => ExtractionStep::Failed(fault),
        Ok(found) => {
            let mut features = extraction.features;
            features.set(extraction.reading, feature_or_default(found));
            match extraction.reading.next() {
                Some(feature) => ExtractionStep::Read(Extraction { features, reading: feature }),
                None => ExtractionStep::Done(features),
            }
        },
    }
}

/// The outcome of an extraction in which the store answers the reads with
/// `readings`, in their order.
pub open spec fn extraction_ends(
    step: ExtractionStep,
    readings: Seq<Result<Option<u64>, StoreFault>>,
) -> ExtractionStep
    decreases readings.len(),
{
    match step {
        ExtractionStep::Read(extraction) => if readings.len() == 0 {
            step
        } else {
            extraction_ends(
                extraction_continues(extraction, readings[0]),
                readings.drop_first(),
            )
        },
        _ => step,
    }
}

/// Six reads that all succeed make the features, each feature in its place
/// and zero where the store had no history.
pub proof fn lemma_extraction_completes(
    user_id: Id,
    content_id: Id,
    readings: Seq<Result<Option<u64>, StoreFault>>,
)
    requires
        readings.len() == 6,
        forall|i: int| 0 <= i < 6 ==> readings[i] is Ok,
    ensures
        extraction_ends(extraction_begins(user_id, content_id), readings)
            matches ExtractionStep::Done(features) && features.user_id == user_id
            && features.content_id == content_id && features.layout() == Seq::new(
            6,
            |i: int| reading_or_zero(readings[i]->Ok_0),
        ),
{
    reveal_with_fuel(extraction_ends, 8);
    let r1 = readings.drop_first();
    let r2 = r1.drop_first();
    let r3 = r2.drop_first();
    let r4 = r3.drop_first();
    let r5 = r4.drop_first();
    let r6 = r5.drop_first();
    assert(r1[0] == readings[1] && r2[0] == readings[2] && r3[0] == readings[3] && r4[0]
        == readings[4] && r5[0] == readings[5]);
    assert(r6.len() == 0);
    let end = extraction_ends(extraction_begins(user_id, content_id), readings);
    assert(end is Done);
    assert(end->Done_0.layout() =~= Seq::new(6, |i: int| reading_or_zero(readings[i]->Ok_0)));
}

/// A read that fails ends the extraction with its fault, whatever was read
/// before and whatever the store would have answered after.
pub proof fn lemma_extraction_fails(
    extraction: Extraction,
    fault: StoreFault,
    rest: Seq<Result<Option<u64>, StoreFault>>,
)
    ensures
        extraction_ends(
            ExtractionStep::Read(extraction),
            seq![Err::<Option<u64>, StoreFault>(fault)] + rest,
        ) == ExtractionStep::Failed(fault),
{
    let readings = seq![Err::<Option<u64>, StoreFault>(fault)] + rest;
    assert(readings[0] == Err::<Option<u64>, StoreFault>(fault));
    reveal_with_fuel(extraction_ends, 2);
}

/// A share, kept exactly: `part` out of `whole`, with `whole` at least 1.
#[derive(Clone, Copy, Debug, PartialEq, Eq, Structural)]
pub struct Ratio {
    pub part: i64,
    pub whole: i64,
}

/// The popularity of a piece of content: the interactions that concern it out
/// of all recorded interactions. The denominator is never below 1, and with
/// no recorded interaction at all the popularity is zero.
pub open spec fn popularity(content_views: i64, total_views: i64) -> Ratio {
    if total_views < 1 {
        Ratio { part: 0, whole: 1 }
    } else {
        Ratio { part: content_views, whole: total_views }
    }
}

/// The popularity of a piece of content with `content_views` interactions,
/// where `total_views` interactions are recorded in all.
pub fn get_content_popularity_score(content_views: i64, total_views: i64) -> (share: Ratio)
    ensures
        share == popularity(content_views, total_views),
        share.whole >= 1,
        total_views == 0 ==> share.part == 0,
{
    if total_views < 1 {
        Ratio { part: 0, whole: 1 }
    } else {
        Ratio { part: content_views, whole: total_views }
    }
}

/// With no interaction recorded anywhere, every piece of content has
/// popularity zero, and the ratio is still well defined.
pub proof fn lemma_popularity_without_interactions(content_views: i64)
    ensures
        popularity(content_views, 0).part == 0,
        popularity(content_views, 0).whole == 1,
{
}

/// The denominator of a popularity is the number of all interactions, but
/// never below 1.
pub proof fn lemma_popularity_denominator(content_views: i64, total_views: i64)
    ensures
        popularity(content_views, total_views).whole == if total_views < 1 {
            1
        } else {
            total_views as int
        },
        popularity(content_views, total_views).whole >= 1,
{
}

} // verus!
