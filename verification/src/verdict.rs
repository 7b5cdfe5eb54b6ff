//! The verdict on one request for a piece of content.

use vstd::prelude::*;
use crate::models::Content;

verus! {

/// What a denied reader is told.
#[derive(Clone, Copy, Debug, PartialEq, Eq, Structural)]
pub enum Advisory {
    /// The fallback model sees a reader worth an offer. This is advice for
    /// whoever makes offers; it unlocks nothing.
    FallbackEligible,
    /// The reader needs a higher plan.
    UpgradeRequired,
}

impl Advisory {
    /// The message as it is shown.
    pub open spec fn wording(self) -> Seq<char> {
        match self {
            Advisory::FallbackEligible => "fallback-eligible"@,
            Advisory::UpgradeRequired => "upgrade required"@,
        }
    }

    /// The message as it is shown: `fallback-eligible` or `upgrade required`.
    pub fn text(&self) -> (text: &'static str)
        ensures
            text@ == self.wording(),
    {
        match self {
            Advisory::FallbackEligible => "fallback-eligible",
            Advisory::UpgradeRequired => "upgrade required",
        }
    }
}

/// The answer to a request: the content, whether the reader may have it, and
/// what a reader who may not is told.
#[derive(Clone, Debug, PartialEq, Eq)]
pub struct AccessVerdict {
    pub content: Content,
    pub granted: bool,
    pub message: Option<Advisory>,
}

impl AccessVerdict {
    /// A grant carries no message, a denial always carries one.
    pub open spec fn well_formed(self) -> bool {
        self.granted <==> self.message is None
    }

    /// The verdict that hands `content` out.
    pub open spec fn granting(content: Content) -> AccessVerdict {
        AccessVerdict { content, granted: true, message: None }
    }

    /// The verdict that withholds `content` with the message `advisory`.
    pub open spec fn denying(content: Content, advisory: Advisory) -> AccessVerdict {
        AccessVerdict { content, granted: false, message: Some(advisory) }
    }

    /// Hands `content` out.
    pub fn grant(content: Content) -> (verdict: AccessVerdict)
        ensures
            verdict == AccessVerdict::granting(content),
            verdict.well_formed(),
    {
        AccessVerdict { content, granted: true, message: None }
    }

    /// Withholds `content` and tells the reader `advisory`.
    pub fn deny(content: Content, advisory: Advisory) -> (verdict: AccessVerdict)
        ensures
            verdict == AccessVerdict::denying(content, advisory),
            verdict.well_formed(),
    {
        AccessVerdict { content, granted: false, message: Some(advisory) }
    }
}

} // verus!
