use paywall::id::Id;
use paywall::models::Subscription;
use paywall::subscription::get_active_subscription;

const USER: Id = Id { value: 1 };
const OTHER: Id = Id { value: 2 };

fn row(user_id: Id, plan: &str, started_at: i64, expires_at: i64, is_active: bool) -> Subscription {
    Subscription {
        id: Id { value: 1000 + started_at as u128 },
        user_id,
        plan_id: plan.to_string(),
        started_at,
        expires_at,
        is_active,
    }
}

#[test]
fn no_rows_no_subscription() {
    assert_eq!(get_active_subscription(&Vec::new(), USER, 100), None);
}

#[test]
fn a_row_that_is_switched_on_and_not_run_out_counts() {
    let rows = vec![row(USER, "basic", 10, 200, true)];
    assert_eq!(get_active_subscription(&rows, USER, 100), Some(0));
}

#[test]
fn a_row_that_runs_out_now_does_not_count() {
    let rows = vec![row(USER, "basic", 10, 100, true)];
    assert_eq!(get_active_subscription(&rows, USER, 100), None);
    assert_eq!(get_active_subscription(&rows, USER, 99), Some(0));
}

#[test]
fn a_row_that_is_switched_off_does_not_count() {
    let rows = vec![row(USER, "premium", 10, 200, false)];
    assert_eq!(get_active_subscription(&rows, USER, 100), None);
}

#[test]
fn a_row_of_another_user_does_not_count() {
    let rows = vec![row(OTHER, "premium", 10, 200, true)];
    assert_eq!(get_active_subscription(&rows, USER, 100), None);
    assert_eq!(get_active_subscription(&rows, OTHER, 100), Some(0));
}

#[test]
fn the_row_that_started_last_is_taken() {
    let rows = vec![
        row(USER, "basic", 10, 500, true),
        row(USER, "premium", 30, 400, true),
        row(USER, "basic", 20, 900, true),
    ];
    assert_eq!(get_active_subscription(&rows, USER, 100), Some(1));
}

#[test]
fn rows_that_do_not_count_are_passed_over_even_if_they_started_last() {
    let rows = vec![
        row(USER, "basic", 10, 500, true),
        row(USER, "premium", 90, 95, true),
        row(USER, "premium", 80, 900, false),
        row(OTHER, "premium", 70, 900, true),
        row(USER, "basic", 20, 900, true),
    ];
    assert_eq!(get_active_subscription(&rows, USER, 100), Some(4));
}

#[test]
fn of_rows_that_started_together_the_first_is_taken() {
    let rows = vec![
        row(USER, "basic", 5, 500, true),
        row(USER, "basic", 30, 500, true),
        row(USER, "premium", 30, 500, true),
    ];
    assert_eq!(get_active_subscription(&rows, USER, 100), Some(1));
}

#[test]
fn instants_before_1970_and_at_the_ends_of_the_range_are_plain_numbers() {
    let rows = vec![
        row(USER, "basic", i64::MIN, i64::MAX, true),
        row(USER, "premium", -5, -1, true),
    ];
    assert_eq!(get_active_subscription(&rows, USER, -2), Some(1));
    assert_eq!(get_active_subscription(&rows, USER, -1), Some(0));
    assert_eq!(get_active_subscription(&rows, USER, i64::MAX), None);
}
