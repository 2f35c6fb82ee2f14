//! The language models that the loop talks to.

use vstd::prelude::*;

verus! {

/// A model identifier: the larger model rewrites prompts, the smaller one
/// answers each window.
#[derive(Debug, Clone, Copy, PartialEq, Eq, Structural)]
pub enum Model {
    O1Preview,
    O1Mini,
}

impl Model {
    /// The identifier as the model service spells it.
    pub open spec fn name(self) -> Seq<char> {
        match self {
            Model::O1Preview => "o1-preview"@,
            Model::O1Mini => "o1-mini"@,
        }
    }

    /// The identifier as the model service spells it.
    pub fn as_str(&self) -> (s: &str)
        ensures
            s@ == self.name(),
    {
        match self {
            Model::O1Preview => "o1-preview",
            Model::O1Mini => "o1-mini",
        }
    }
}

/// The two models have different identifiers.
pub proof fn lemma_model_names_differ()
    ensures
        Model::O1Preview.name() != Model::O1Mini.name(),
{
    reveal_strlit("o1-preview");
    reveal_strlit("o1-mini");
    assert("o1-preview"@.len() != "o1-mini"@.len());
}

} // verus!
