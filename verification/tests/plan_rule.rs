use paywall::plan::{authorize, Tier};

#[test]
fn free_content_is_open_to_everyone() {
    assert!(authorize("free", None));
    assert!(authorize("free", Some("basic")));
    assert!(authorize("free", Some("premium")));
}

#[test]
fn basic_content_needs_basic_or_premium() {
    assert!(!authorize("basic", None));
    assert!(authorize("basic", Some("basic")));
    assert!(authorize("basic", Some("premium")));
}

#[test]
fn premium_content_needs_premium() {
    assert!(!authorize("premium", None));
    assert!(!authorize("premium", Some("basic")));
    assert!(authorize("premium", Some("premium")));
}

#[test]
fn unknown_required_tier_is_denied_for_everyone() {
    for required in ["gold", "", "Premium", "FREE", "basic ", "premium+"] {
        assert!(!authorize(required, None), "{required:?} without a plan");
        assert!(!authorize(required, Some("basic")), "{required:?} with basic");
        assert!(!authorize(required, Some("premium")), "{required:?} with premium");
    }
}

#[test]
fn a_plan_that_names_no_paid_tier_counts_as_no_plan() {
    for active in ["free", "gold", "", "PREMIUM"] {
        assert!(authorize("free", Some(active)));
        assert!(!authorize("basic", Some(active)));
        assert!(!authorize("premium", Some(active)));
    }
}

#[test]
fn the_whole_table_follows_the_order_of_the_tiers() {
    let required = ["free", "basic", "premium", "gold"];
    let active = [None, Some("free"), Some("basic"), Some("premium"), Some("gold")];
    for r in required {
        for a in active {
            let standing = match a.and_then(Tier::from_name) {
                Some(tier) => tier.level(),
                None => 0,
            };
            let expected = match Tier::from_name(r) {
                Some(needed) => needed.level() <= standing,
                None => false,
            };
            assert_eq!(authorize(r, a), expected, "required {r:?}, active {a:?}");
        }
    }
}

#[test]
fn tier_names_are_read_exactly() {
    assert_eq!(Tier::from_name("free"), Some(Tier::Free));
    assert_eq!(Tier::from_name("basic"), Some(Tier::Basic));
    assert_eq!(Tier::from_name("premium"), Some(Tier::Premium));
    assert_eq!(Tier::from_name("Premium"), None);
    assert_eq!(Tier::from_name(""), None);
    assert_eq!(Tier::from_name("premium "), None);
}

#[test]
fn tiers_are_ordered_by_level() {
    assert_eq!(Tier::Free.level(), 0);
    assert_eq!(Tier::Basic.level(), 1);
    assert_eq!(Tier::Premium.level(), 2);
}
