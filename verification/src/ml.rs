//! What the library decides around the fallback model: which input the model
//! may see, what its answer means, and which training data it may be fitted
//! on. The model itself works on floating-point numbers and lives outside.

use vstd::prelude::*;
use crate::features::{FeatureVector, FEATURE_COUNT};

verus! {

/// The model takes vectors of exactly six features.
pub open spec fn admissible(vector: FeatureVector) -> bool {
    vector.components@.len() == FEATURE_COUNT
}

/// Whether `vector` may be shown to the model. A vector of another length
/// points to a fault in the program, not in the data; it is never shown, and
/// the request is then denied.
pub fn accepts(vector: &FeatureVector) -> (ok: bool)
    ensures
        ok == admissible(*vector),
{
    vector.components.len() == FEATURE_COUNT
}

/// The model suggests a grant when the class it predicts for the one input
/// row is 1. No prediction, and any other class, is a denial.
pub open spec fn suggests(label: Option<usize>) -> bool {
    label == Some(1usize)
}

/// Reads the model's answer: `label` is the class predicted for the input row,
/// `None` where the model returned no prediction.
pub fn suggests_grant(label: Option<usize>) -> (grant: bool)
    ensures
        grant == suggests(label),
{
    match label {
        Some(class) => class == 1,
        None => false,
    }
}

/// Why a training set is turned down.
#[derive(Clone, Copy, Debug, PartialEq, Eq, Structural)]
pub enum TrainingFault {
    /// There is no row to train on.
    NoData,
    /// The rows do not have exactly six features.
    WrongWidth,
    /// The number of labels is not the number of rows.
    LabelCount,
    /// The label at `index` is neither 0 nor 1.
    LabelNotBinary { index: usize },
}

/// The first label that is neither 0 nor 1, if there is one.
pub open spec fn first_bad_label(labels: Seq<usize>) -> Option<int>
    decreases labels.len(),
{
    if labels.len() == 0 {
        None
    } else {
        match first_bad_label(labels.drop_last()) {
            Some(i) => Some(i),
            None => if labels.last() > 1 {
                Some(labels.len() - 1)
            } else {
                None
            },
        }
    }
}

/// `first_bad_label` finds the first label above 1 and no other.
pub proof fn lemma_first_bad_label(labels: Seq<usize>)
    ensures
        match first_bad_label(labels) {
            Some(i) => 0 <= i < labels.len() && labels[i] > 1 && forall|j: int|
                0 <= j < i ==> labels[j] <= 1,
            None => forall|j: int| 0 <= j < labels.len() ==> labels[j] <= 1,
        },
    decreases labels.len(),
{
    if labels.len() > 0 {
        let front = labels.drop_last();
        lemma_first_bad_label(front);
        assert forall|j: int| 0 <= j < front.len() implies front[j] == labels[j] by {}
    }
}

/// What a training set of `rows` rows with `width` features each and the
/// labels `labels` is judged to be. The faults are looked for in the order in
/// which [`TrainingFault`] lists them.
pub open spec fn training_verdict(rows: usize, width: usize, labels: Seq<usize>) -> Result<
    (),
    TrainingFault,
> {
    if rows == 0 {
        Err(TrainingFault::NoData)
    } else if width != FEATURE_COUNT {
        Err(TrainingFault::WrongWidth)
    } else if labels.len() != rows {
        Err(TrainingFault::LabelCount)
    } else {
        match first_bad_label(labels) {
            Some(index) => Err(TrainingFault::LabelNotBinary { index: index as usize }),
            None => Ok(()),
        }
    }
}

/// Checks a training set before the model is fitted on it: it must have at
/// least one row, six features in every row, one label for each row, and
/// labels that are 0 or 1.
pub fn check_training_set(rows: usize, width: usize, labels: &Vec<usize>) -> (verdict: Result<
    (),
    TrainingFault,
>)
    ensures
        verdict == training_verdict(rows, width, labels@),
        verdict is Ok <==> rows > 0 && width == FEATURE_COUNT && labels@.len() == rows && forall|
            j: int,
        | 0 <= j < labels@.len() ==> labels@[j] <= 1,
{
    proof {
        lemma_first_bad_label(labels@);
    }
    if rows == 0 {
        return Err(TrainingFault::NoData);
    }
    if width != FEATURE_COUNT {
        return Err(TrainingFault::WrongWidth);
    }
    if labels.len() != rows {
        return Err(TrainingFault::LabelCount);
    }
    let mut i: usize = 0;
    while i < labels.len()
        invariant
            i <= labels.len(),
            rows > 0,
            width == FEATURE_COUNT,
            labels.len() == rows,
            first_bad_label(labels@.take(i as int)) is None,
        decreases labels.len() - i,
    {
        proof {
            assert(labels@.take(i + 1).drop_last() =~= labels@.take(i as int));
        }
        if labels[i] > 1 {
            proof {
                assert(first_bad_label(labels@.take(i + 1)) == Some(i as int));
                lemma_bad_label_grows(labels@, i as int, labels@.len() as int);
                assert(labels@.take(labels@.len() as int) =~= labels@);
            }
            return Err(TrainingFault::LabelNotBinary { index: i });
        }
        i += 1;
    }
    proof {
        assert(labels@.take(i as int) =~= labels@);
    }
    Ok(())
}

/// A bad label that is the first among the labels up to it is still the first
/// when more labels follow.
proof fn lemma_bad_label_grows(labels: Seq<usize>, i: int, n: int)
    requires
        0 <= i < n <= labels.len(),
        first_bad_label(labels.take(i + 1)) == Some(i),
    ensures
        first_bad_label(labels.take(n)) == Some(i),
    decreases n,
{
    if n > i + 1 {
        lemma_bad_label_grows(labels, i, n - 1);
        assert(labels.take(n).drop_last() =~= labels.take(n - 1));
    }
}

} // verus!
