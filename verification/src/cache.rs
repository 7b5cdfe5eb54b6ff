//! The key under which the verdict for a user and a piece of content is cached.

use vstd::prelude::*;
use vstd::string::StringExecFns;
use crate::id::{hyphenated, lemma_hyphenated_injective, Id};

verus! {

/// The pair that a cached verdict belongs to.
#[derive(Clone, Copy, Debug, PartialEq, Eq, Structural, Hash)]
pub struct CacheKey {
    pub content_id: Id,
    pub user_id: Id,
}

/// The text of a key: `content_`, the content's identifier, `_user_`, the
/// user's identifier. Both identifiers are written in their 36 characters, so
/// the text has 86 characters and each part has its fixed place in it.
pub open spec fn key_text(key: CacheKey) -> Seq<char> {
    "content_"@ + hyphenated(key.content_id.value) + "_user_"@ + hyphenated(key.user_id.value)
}

impl CacheKey {
    /// The text under which the cache holds the verdict for this pair.
    pub fn text(&self) -> (text: String)
        ensures
            text@ == key_text(*self),
    {
        let content = self.content_id.to_text();
        let user = self.user_id.to_text();
        let mut text = String::from_str("content_");
        text.append(content.as_str());
        text.append("_user_");
        text.append(user.as_str());
        text
    }
}

/// Keys of different pairs have different texts: no two pairs share a cache
/// entry, and an entry found under the text of a pair was written for that
/// pair.
pub proof fn lemma_key_text_injective(a: CacheKey, b: CacheKey)
    requires
        key_text(a) == key_text(b),
    ensures
        a == b,
{
    reveal_strlit("content_");
    reveal_strlit("_user_");
    let ta = key_text(a);
    let tb = key_text(b);
    assert(ta.subrange(8, 44) =~= hyphenated(a.content_id.value));
    assert(tb.subrange(8, 44) =~= hyphenated(b.content_id.value));
    assert(ta.subrange(50, 86) =~= hyphenated(a.user_id.value));
    assert(tb.subrange(50, 86) =~= hyphenated(b.user_id.value));
    lemma_hyphenated_injective(a.content_id.value, b.content_id.value);
    lemma_hyphenated_injective(a.user_id.value, b.user_id.value);
}

/// The text of a key has 86 characters.
pub proof fn lemma_key_text_len(key: CacheKey)
    ensures
        key_text(key).len() == 86,
{
    reveal_strlit("content_");
    reveal_strlit("_user_");
}

} // verus!
