//! Subscription tiers and the rule that decides which tier unlocks which content.

use vstd::prelude::*;
use crate::text::{same_text, text_of};

verus! {

/// A subscription level. The levels are ordered by what they unlock:
/// `Free` below `Basic` below `Premium`.
#[derive(Clone, Copy, Debug, PartialEq, Eq, Structural)]
pub enum Tier {
    Free,
    Basic,
    Premium,
}

impl Tier {
    /// The tier that a plan name stands for, if it names one.
    pub open spec fn named(name: Seq<char>) -> Option<Tier> {
        if name == "free"@ {
            Some(Tier::Free)
        } else if name == "basic"@ {
            Some(Tier::Basic)
        } else if name == "premium"@ {
            Some(Tier::Premium)
        } else {
            None
        }
    }

    /// The place of the tier in the order of entitlement.
    pub open spec fn rank(self) -> nat {
        match self {
            Tier::Free => 0,
            Tier::Basic => 1,
            Tier::Premium => 2,
        }
    }

    /// Reads a plan name. Names are case-sensitive; anything but `free`, `basic`
    /// and `premium` is no tier.
    pub fn from_name(name: &str) -> (tier: Option<Tier>)
        ensures
            tier == Tier::named(name@),
    {
        if same_text(name, "free") {
            Some(Tier::Free)
        } else if same_text(name, "basic") {
            Some(Tier::Basic)
        } else if same_text(name, "premium") {
            Some(Tier::Premium)
        } else {
            None
        }
    }

    /// The number that orders the tiers: 0 for `Free`, 1 for `Basic`, 2 for `Premium`.
    pub fn level(self) -> (n: u8)
        ensures
            n == self.rank(),
    {
        match self {
            Tier::Free => 0,
            Tier::Basic => 1,
            Tier::Premium => 2,
        }
    }
}

/// The access table. Rows are the plan that the content requires, columns the
/// plan of the user's active subscription (`None`: no active subscription).
///
/// | required  | none  | basic | premium |
/// |-----------|-------|-------|---------|
/// | `free`    | allow | allow | allow   |
/// | `basic`   | deny  | allow | allow   |
/// | `premium` | deny  | deny  | allow   |
/// | other     | deny  | deny  | deny    |
///
/// An active plan that is neither `basic` nor `premium` unlocks what no
/// subscription unlocks.
pub open spec fn permits(required: Seq<char>, active: Option<Seq<char>>) -> bool {
    if required == "free"@ {
        true
    } else if required == "basic"@ {
        active == Some("basic"@) || active == Some("premium"@)
    } else if required == "premium"@ {
        active == Some("premium"@)
    } else {
        false
    }
}

/// How high a user stands with the active plan `active`.
pub open spec fn entitlement(active: Option<Seq<char>>) -> nat {
    match active {
        Some(name) => match Tier::named(name) {
            Some(tier) => tier.rank(),
            None => 0,
        },
        None => 0,
    }
}

/// Decides whether a user whose active subscription has the plan `active` may read
/// content that requires the plan `required`: the required plan must name a
/// tier, and the user must stand at least as high.
pub fn authorize(required: &str, active: Option<&str>) -> (allowed: bool)
    ensures
        allowed == permits(required@, text_of(active)),
{
    let standing: u8 = match active {
        Some(plan) => match Tier::from_name(plan) {
            Some(tier) => tier.level(),
            None => 0,
        },
        None => 0,
    };
    proof {
        lemma_permits_is_tier_order(required@, text_of(active));
    }
    match Tier::from_name(required) {
        Some(needed) => needed.level() <= standing,
        None => false,
    }
}

/// The three plan names are pairwise different.
pub proof fn lemma_plan_names_differ()
    ensures
        "free"@ != "basic"@,
        "free"@ != "premium"@,
        "basic"@ != "premium"@,
{
    reveal_strlit("free");
    reveal_strlit("basic");
    reveal_strlit("premium");
    assert("free"@.len() == 4);
    assert("basic"@.len() == 5);
    assert("premium"@.len() == 7);
}

/// The access table, cell by cell. `other` is any required plan that is not one
/// of the three names.
pub proof fn lemma_access_table(other: Seq<char>)
    requires
        other != "free"@,
        other != "basic"@,
        other != "premium"@,
    ensures
        permits("free"@, None),
        permits("free"@, Some("basic"@)),
        permits("free"@, Some("premium"@)),
        !permits("basic"@, None),
        permits("basic"@, Some("basic"@)),
        permits("basic"@, Some("premium"@)),
        !permits("premium"@, None),
        !permits("premium"@, Some("basic"@)),
        permits("premium"@, Some("premium"@)),
        !permits(other, None),
        !permits(other, Some("basic"@)),
        !permits(other, Some("premium"@)),
{
    lemma_plan_names_differ();
}

/// The access table is the order of the tiers: content is unlocked exactly when
/// its required plan names a tier and the active plan stands at least as high.
/// No subscription, and a plan that names no tier, stand where `Free` stands.
pub proof fn lemma_permits_is_tier_order(required: Seq<char>, active: Option<Seq<char>>)
    ensures
        permits(required, active) <==> (Tier::named(required) matches Some(needed)
            && needed.rank() <= entitlement(active)),
{
    lemma_plan_names_differ();
}

} // verus!
