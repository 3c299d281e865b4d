//! The shape of one KRunner match.

use vstd::prelude::*;

verus! {

/// The KRunner category that groups the results of this runner.
pub const CATEGORY: &'static str = "DevTools";

/// `KRunner::QueryMatch::CategoryRelevance::Highest`.
pub const CATEGORY_RELEVANCE: i32 = 100;

/// How a match is ranked within its category.
#[derive(Debug, Clone, Copy, PartialEq, Eq, Structural)]
pub enum Relevance {
    /// Relevance 1.0.
    Full,
    /// Relevance 0.97.
    High,
    /// Relevance `1.0 - 0.03 * rank`, for the `rank`-th row of a list.
    Ranked(u32),
}

/// One match as KRunner receives it: `(id, text, icon, category relevance,
/// relevance, properties)`, the properties being `subtext` and `category`.
#[derive(Debug)]
pub struct KMatch {
    pub id: String,
    pub text: String,
    pub icon: String,
    pub category_relevance: i32,
    pub relevance: Relevance,
    pub subtext: String,
    pub category: String,
}

/// A match in the runner's category, with the given id, title, icon, rank and subtext.
pub fn new_match(id: String, text: String, icon: &str, relevance: Relevance, subtext: String) -> (m: KMatch)
    ensures
        m.id@ == id@,
        m.text@ == text@,
        m.icon@ == icon@,
        m.category_relevance == CATEGORY_RELEVANCE,
        m.relevance == relevance,
        m.subtext@ == subtext@,
        m.category@ == CATEGORY@,
{
    KMatch {
        id,
        text,
        icon: String::from_str(icon),
        category_relevance: CATEGORY_RELEVANCE,
        relevance,
        subtext,
        category: String::from_str(CATEGORY),
    }
}

} // verus!
