use vstd::prelude::*;

verus! {

/// The classification of one or more texts.
#[derive(Clone, Debug)]
pub struct Moderation {
    pub id: String,
    pub model: String,
    pub results: Vec<ModerationRecord>,
}

impl Moderation {
    /// Whether the text at `idx` was flagged.
    pub fn is_flagged(&self, idx: usize) -> (r: bool)
        requires
            idx < self.results@.len(),
        ensures
            r == self.results@[idx as int].flagged,
    {
        self.results[idx].is_flagged()
    }
}

/// The classification of one text.
#[derive(Clone, Debug)]
pub struct ModerationRecord {
    pub flagged: bool,
    pub categories: ModerationCategories,
    pub category_scores: ModerationScores,
}

impl ModerationRecord {
    pub fn is_flagged(&self) -> (r: bool)
        ensures
            r == self.flagged,
    {
        self.flagged
    }
}

/// Which categories a text falls in.
#[derive(Clone, Copy, Debug, PartialEq, Eq, Structural)]
pub struct ModerationCategories {
    pub sexual: bool,
    pub hate: bool,
    pub harassment: bool,
    pub self_harm: bool,
    pub sexual_minors: bool,
    pub hate_threatening: bool,
    pub violence_graphic: bool,
    pub self_harm_intent: bool,
    pub self_harm_instructions: bool,
    pub harassment_threatening: bool,
    pub violence: bool,
}

/// The confidence of each category, each as its binary64 encoding.
#[derive(Clone, Copy, Debug, PartialEq, Eq, Structural)]
pub struct ModerationScores {
    pub sexual: u64,
    pub hate: u64,
    pub harassment: u64,
    pub self_harm: u64,
    pub sexual_minors: u64,
    pub hate_threatening: u64,
    pub violence_graphic: u64,
    pub self_harm_intent: u64,
    pub self_harm_instructions: u64,
    pub harassment_threatening: u64,
    pub violence: u64,
}

} // verus!
