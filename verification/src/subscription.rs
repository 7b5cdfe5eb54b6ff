//! Which of a user's subscriptions counts when access is decided.

use vstd::prelude::*;
use crate::id::Id;
use crate::models::Subscription;

verus! {

/// A subscription counts for `user` at the instant `now` when it is the
/// user's, is switched on, and runs out later than `now`.
pub open spec fn is_current(row: Subscription, user: Id, now: i64) -> bool {
    row.user_id == user && row.is_active && row.expires_at > now
}

/// `choice` is the right pick among `rows`: the row that counts and started
/// last, the first such row where several started together; or nothing, where
/// no row counts.
pub open spec fn selects(rows: Seq<Subscription>, user: Id, now: i64, choice: Option<int>) -> bool {
    match choice {
        Some(i) => {
            &&& 0 <= i < rows.len()
            &&& is_current(rows[i], user, now)
            &&& forall|j: int|
                0 <= j < rows.len() && is_current(#[trigger] rows[j], user, now)
                    ==> rows[j].started_at <= rows[i].started_at
            &&& forall|j: int|
                0 <= j < i && is_current(#[trigger] rows[j], user, now) ==> rows[j].started_at
                    < rows[i].started_at
        },
        None => forall|j: int| 0 <= j < rows.len() ==> !is_current(#[trigger] rows[j], user, now),
    }
}

/// The index of the subscription that counts for `user` at `now`, found by
/// going through `rows` from the front.
pub open spec fn latest_current(rows: Seq<Subscription>, user: Id, now: i64) -> Option<int>
    decreases rows.len(),
{
    if rows.len() == 0 {
        None
    } else {
        let last = rows.len() - 1;
        let before = latest_current(rows.drop_last(), user, now);
        if !is_current(rows[last], user, now) {
            before
        } else {
            match before {
                Some(i) => if rows[last].started_at > rows[i].started_at {
                    Some(last)
                } else {
                    Some(i)
                },
                None => Some(last),
            }
        }
    }
}

/// `latest_current` makes the right pick.
pub proof fn lemma_latest_current_selects(rows: Seq<Subscription>, user: Id, now: i64)
    ensures
        selects(rows, user, now, latest_current(rows, user, now)),
    decreases rows.len(),
{
    if rows.len() > 0 {
        let front = rows.drop_last();
        lemma_latest_current_selects(front, user, now);
        assert forall|j: int| 0 <= j < front.len() implies front[j] == rows[j] by {}
        let last = rows.len() - 1;
        let before = latest_current(front, user, now);
        let choice = latest_current(rows, user, now);
        match choice {
            Some(i) => {
                assert forall|j: int|
                    0 <= j < rows.len() && is_current(
                        #[trigger] rows[j],
                        user,
                        now,
                    ) implies rows[j].started_at <= rows[i].started_at by {
                    if j < last {
                        assert(is_current(front[j], user, now));
                    }
                }
                assert forall|j: int|
                    0 <= j < i && is_current(
                        #[trigger] rows[j],
                        user,
                        now,
                    ) implies rows[j].started_at < rows[i].started_at by {
                    assert(is_current(front[j], user, now));
                }
            },
            None => {
                assert forall|j: int| 0 <= j < rows.len() implies !is_current(
                    #[trigger] rows[j],
                    user,
                    now,
                ) by {
                    if j < last {
                        assert(!is_current(front[j], user, now));
                    }
                }
            },
        }
    }
}

/// There is one right pick only.
pub proof fn lemma_selection_unique(
    rows: Seq<Subscription>,
    user: Id,
    now: i64,
    a: Option<int>,
    b: Option<int>,
)
    requires
        selects(rows, user, now, a),
        selects(rows, user, now, b),
    ensures
        a == b,
{
    match (a, b) {
        (Some(i), Some(j)) => {
            assert(is_current(rows[i], user, now));
            assert(is_current(rows[j], user, now));
            if i < j {
                assert(rows[i].started_at < rows[j].started_at);
                assert(rows[j].started_at <= rows[i].started_at);
            } else if j < i {
                assert(rows[j].started_at < rows[i].started_at);
                assert(rows[i].started_at <= rows[j].started_at);
            }
        },
        (Some(i), None) => {
            assert(is_current(rows[i], user, now));
        },
        (None, Some(j)) => {
            assert(is_current(rows[j], user, now));
        },
        (None, None) => {},
    }
}

/// The plan of the subscription that counts for `user` at `now`, if one does.
pub open spec fn active_plan(rows: Seq<Subscription>, user: Id, now: i64) -> Option<Seq<char>> {
    match latest_current(rows, user, now) {
        Some(i) => Some(rows[i].plan_id@),
        None => None,
    }
}

/// Picks, among the stored subscriptions `rows`, the one that counts for
/// `user` at the instant `now`, and returns its index. Rows of other users,
/// rows that are switched off and rows that have run out are passed over; of
/// the rest the one that started last is taken, the first of them where
/// several started together.
pub fn get_active_subscription(rows: &Vec<Subscription>, user: Id, now: i64) -> (choice: Option<
    usize,
>)
    ensures
        match choice {
            Some(i) => latest_current(rows@, user, now) == Some(i as int),
            None => latest_current(rows@, user, now) is None,
        },
        selects(
            rows@,
            user,
            now,
            match choice {
                Some(i) => Some(i as int),
                None => None,
            },
        ),
{
    let mut best: Option<usize> = None;
    let mut i: usize = 0;
    while i < rows.len()
        invariant
            i <= rows.len(),
            match best {
                Some(b) => latest_current(rows@.take(i as int), user, now) == Some(b as int) && b
                    < i,
                None => latest_current(rows@.take(i as int), user, now) is None,
            },
        decreases rows.len() - i,
    {
        proof {
            assert(rows@.take(i + 1).drop_last() =~= rows@.take(i as int));
        }
        let row = &rows[i];
        if row.user_id.value == user.value && row.is_active && row.expires_at > now {
            match best {
                Some(b) => {
                    if row.started_at > rows[b].started_at {
                        best = Some(i);
                    }
                },
                None => {
                    best = Some(i);
                },
            }
        }
        i += 1;
    }
    proof {
        assert(rows@.take(i as int) =~= rows@);
        lemma_latest_current_selects(rows@, user, now);
    }
    best
}

} // verus!
