//! The configuration service's view of the console.

use vstd::prelude::*;

verus! {

/// A language of the system.
#[derive(Copy, Clone, Debug, PartialEq, Eq, Structural)]
pub enum Language {
    Japanese,
    English,
    French,
    German,
    Italian,
    Spanish,
    SimplifiedChinese,
    Korean,
    Dutch,
    Portuguese,
    Russian,
    TraditionalChinese,
}

impl Language {
    /// The number by which the system knows the language.
    pub open spec fn spec_index(self) -> usize {
        match self {
            Language::Japanese => 0,
            Language::English => 1,
            Language::French => 2,
            Language::German => 3,
            Language::Italian => 4,
            Language::Spanish => 5,
            Language::SimplifiedChinese => 6,
            Language::Korean => 7,
            Language::Dutch => 8,
            Language::Portuguese => 9,
            Language::Russian => 10,
            Language::TraditionalChinese => 11,
        }
    }

    /// The number by which the system knows the language.
    #[verifier::when_used_as_spec(spec_index)]
    pub fn index(self) -> (index: usize)
        ensures
            index == self.spec_index(),
            index < 12,
    {
        match self {
            Language::Japanese => 0,
            Language::English => 1,
            Language::French => 2,
            Language::German => 3,
            Language::Italian => 4,
            Language::Spanish => 5,
            Language::SimplifiedChinese => 6,
            Language::Korean => 7,
            Language::Dutch => 8,
            Language::Portuguese => 9,
            Language::Russian => 10,
            Language::TraditionalChinese => 11,
        }
    }
}

} // verus!
