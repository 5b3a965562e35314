//! The daily motivational text, cached per calendar day.
use vstd::prelude::*;

verus! {

/// A cached text for one day (`cache_date` as `YYYY-MM-DD`).
pub struct MotivationCache {
    pub id: Option<i64>,
    pub content: String,
    pub cache_date: String,
    pub created_at: String,
    pub updated_at: String,
}

/// The text handed to the front end.
pub struct MotivationContent {
    pub content: String,
}

/// Days for which a cached text is kept.
pub const CACHE_KEEP_DAYS: i64 = 7;

/// The text of today's cache entry, if there is one.
pub fn motivation_content(cache: Option<MotivationCache>) -> (r: Option<MotivationContent>)
    ensures
        cache is None <==> r is None,
        cache matches Some(c) ==> r matches Some(m) && m.content == c.content,
{
    match cache {
        Some(c) => Some(MotivationContent { content: c.content }),
        None => None,
    }
}

} // verus!
