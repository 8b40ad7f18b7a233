//! The result records that the printer consumes.

use vstd::prelude::*;

verus! {

/// What a matched text was identified as.
pub struct Data {
    /// Human-readable identification label.
    pub name: String,
    /// Optional free-text explanation.
    pub description: Option<String>,
    /// Optional template string; combined with the matched text to form a
    /// reference link appended to the description.
    pub url: Option<String>,
    /// Optional known-exploit note appended to the description.
    pub exploit: Option<String>,
    /// How uncommon this identification is, in its display form (e.g. "0.5").
    pub rarity: String,
    /// Ordered category labels.
    pub tags: Vec<String>,
}

/// A single identification result: a matched substring together with the
/// descriptor of the pattern it satisfies.
pub struct Match {
    /// The original input substring that was matched.
    pub text: String,
    /// The descriptor of the identification.
    pub data: Data,
}

} // verus!
