use paywall::features::{
    extract_features, feature_or_default, get_content_popularity_score, record, Extraction,
    ExtractionStep, Feature, FeatureVector, MLFeatures, Ratio, FEATURE_COUNT,
};
use paywall::id::Id;
use paywall::ml::{accepts, check_training_set, suggests_grant, TrainingFault};
use paywall::models::StoreFault;

#[test]
fn popularity_is_the_share_of_all_interactions() {
    assert_eq!(get_content_popularity_score(3, 12), Ratio { part: 3, whole: 12 });
    assert_eq!(get_content_popularity_score(0, 12), Ratio { part: 0, whole: 12 });
    assert_eq!(get_content_popularity_score(12, 12), Ratio { part: 12, whole: 12 });
    assert_eq!(get_content_popularity_score(1, 1), Ratio { part: 1, whole: 1 });
}

#[test]
fn popularity_as_a_number_is_views_over_all_views_floored_at_one() {
    for (content_views, total_views) in [(0i64, 0i64), (0, 1), (1, 1), (3, 12), (7, 9), (250, 1000)] {
        let share = get_content_popularity_score(content_views, total_views);
        let expected = (content_views as f64) / (total_views as f64).max(1.0);
        assert_eq!(share.part as f64 / share.whole as f64, expected);
    }
    let share = get_content_popularity_score(3, 12);
    assert_eq!(share.part as f64 / share.whole as f64, 0.25);
}

#[test]
fn popularity_is_zero_when_nothing_was_ever_recorded() {
    for content_views in [0i64, 1, 5, i64::MAX, -3] {
        let share = get_content_popularity_score(content_views, 0);
        assert_eq!(share, Ratio { part: 0, whole: 1 });
        assert_eq!(share.part as f64 / share.whole as f64, 0.0);
    }
}

#[test]
fn the_denominator_of_a_popularity_is_never_below_one() {
    for total in [i64::MIN, -1, 0, 1, 2, i64::MAX] {
        let share = get_content_popularity_score(1, total);
        assert!(share.whole >= 1);
        assert_eq!(share.whole, total.max(1));
    }
}

#[test]
fn missing_history_is_zero() {
    assert_eq!(feature_or_default(None), 0);
    assert_eq!(f64::from_bits(feature_or_default(None)), 0.0);
    assert_eq!(feature_or_default(Some(2.5f64.to_bits())), 2.5f64.to_bits());
    assert_eq!(feature_or_default(Some(0)), 0);
}

#[test]
fn there_are_six_features() {
    assert_eq!(FEATURE_COUNT, 6);
}

fn features() -> MLFeatures {
    MLFeatures {
        user_id: Id { value: 1 },
        content_id: Id { value: 2 },
        user_subscription_days: 30.0f64.to_bits(),
        user_avg_view_time: 120.5f64.to_bits(),
        content_popularity_score: 0.25f64.to_bits(),
        time_since_last_interaction: 3600.0f64.to_bits(),
        user_total_interactions: 17.0f64.to_bits(),
        content_avg_interaction_score: 0.75f64.to_bits(),
    }
}

#[test]
fn the_vector_holds_the_features_in_the_order_of_the_model() {
    let vector = features().vector();
    let numbers: Vec<f64> = vector.components.iter().map(|bits| f64::from_bits(*bits)).collect();
    assert_eq!(numbers, vec![30.0, 120.5, 0.25, 3600.0, 17.0, 0.75]);
}

#[test]
fn the_features_are_read_in_the_order_of_the_vector() {
    let mut order = vec![Feature::SubscriptionDays];
    while let Some(next) = order[order.len() - 1].next() {
        order.push(next);
    }
    assert_eq!(
        order,
        vec![
            Feature::SubscriptionDays,
            Feature::AverageViewTime,
            Feature::ContentPopularity,
            Feature::SinceLastInteraction,
            Feature::TotalInteractions,
            Feature::ContentAverageScore,
        ]
    );
}

fn read_all(readings: &[Result<Option<u64>, StoreFault>]) -> (ExtractionStep, usize) {
    let mut step = extract_features(Id { value: 1 }, Id { value: 2 });
    let mut reads = 0;
    while let ExtractionStep::Read(extraction) = step {
        step = record(extraction, readings[reads]);
        reads += 1;
    }
    (step, reads)
}

#[test]
fn six_reads_make_the_features() {
    let readings = [
        Ok(Some(30.0f64.to_bits())),
        Ok(Some(120.5f64.to_bits())),
        Ok(Some(0.25f64.to_bits())),
        Ok(Some(3600.0f64.to_bits())),
        Ok(Some(17.0f64.to_bits())),
        Ok(Some(0.75f64.to_bits())),
    ];
    assert_eq!(read_all(&readings), (ExtractionStep::Done(features()), 6));
}

#[test]
fn a_user_without_history_has_all_zero_features() {
    let readings = [Ok(None); 6];
    let (step, reads) = read_all(&readings);
    assert_eq!(reads, 6);
    match step {
        ExtractionStep::Done(found) => {
            assert_eq!(found.vector().components, vec![0u64; 6]);
            assert_eq!(found.user_id, Id { value: 1 });
            assert_eq!(found.content_id, Id { value: 2 });
        }
        other => panic!("extraction did not finish: {other:?}"),
    }
}

#[test]
fn a_failed_read_ends_the_extraction_and_nothing_is_read_after_it() {
    for failing in 0..6 {
        let mut readings = [Ok(Some(1.0f64.to_bits())); 6];
        readings[failing] = Err(StoreFault);
        assert_eq!(read_all(&readings), (ExtractionStep::Failed(StoreFault), failing + 1));
    }
}

#[test]
fn the_first_read_is_the_subscription_days() {
    match extract_features(Id { value: 9 }, Id { value: 8 }) {
        ExtractionStep::Read(Extraction { features, reading }) => {
            assert_eq!(reading, Feature::SubscriptionDays);
            assert_eq!(features.user_id, Id { value: 9 });
            assert_eq!(features.content_id, Id { value: 8 });
            assert_eq!(features.vector().components, vec![0u64; 6]);
        }
        other => panic!("unexpected first step: {other:?}"),
    }
}

#[test]
fn setting_a_feature_changes_that_feature_only() {
    let mut changed = features();
    changed.set(Feature::TotalInteractions, 99.0f64.to_bits());
    let mut expected = features();
    expected.user_total_interactions = 99.0f64.to_bits();
    assert_eq!(changed, expected);
}

#[test]
fn the_model_sees_vectors_of_six_features_only() {
    for len in [0usize, 1, 5, 7, 12] {
        assert!(!accepts(&FeatureVector { components: vec![0; len] }), "length {len}");
    }
    assert!(accepts(&FeatureVector { components: vec![0; 6] }));
    assert!(accepts(&features().vector()));
}

#[test]
fn class_one_is_the_only_suggestion_to_grant() {
    assert!(suggests_grant(Some(1)));
    assert!(!suggests_grant(Some(0)));
    assert!(!suggests_grant(Some(2)));
    assert!(!suggests_grant(Some(usize::MAX)));
    assert!(!suggests_grant(None));
}

#[test]
fn a_sound_training_set_is_accepted() {
    assert_eq!(check_training_set(4, 6, &vec![0, 1, 1, 0]), Ok(()));
    assert_eq!(check_training_set(1, 6, &vec![1]), Ok(()));
}

#[test]
fn an_empty_training_set_is_turned_down() {
    assert_eq!(check_training_set(0, 6, &vec![]), Err(TrainingFault::NoData));
    assert_eq!(check_training_set(0, 5, &vec![7]), Err(TrainingFault::NoData));
}

#[test]
fn rows_of_another_width_are_turned_down() {
    assert_eq!(check_training_set(2, 5, &vec![0, 1]), Err(TrainingFault::WrongWidth));
    assert_eq!(check_training_set(2, 7, &vec![0]), Err(TrainingFault::WrongWidth));
}

#[test]
fn labels_must_match_the_rows() {
    assert_eq!(check_training_set(3, 6, &vec![0, 1]), Err(TrainingFault::LabelCount));
    assert_eq!(check_training_set(1, 6, &vec![0, 2]), Err(TrainingFault::LabelCount));
}

#[test]
fn labels_must_be_binary() {
    assert_eq!(
        check_training_set(4, 6, &vec![0, 1, 2, 3]),
        Err(TrainingFault::LabelNotBinary { index: 2 })
    );
    assert_eq!(
        check_training_set(1, 6, &vec![usize::MAX]),
        Err(TrainingFault::LabelNotBinary { index: 0 })
    );
}
