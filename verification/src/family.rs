//! Families of models, by which usage is kept apart.
use crate::text::{ascii_lower, chars_have_part, has_part, lower_chars};
use vstd::prelude::*;

verus! {

/// A family of models.
#[derive(Clone, Copy, Debug, PartialEq, Eq, Structural)]
pub enum ModelFamily {
    Opus,
    Sonnet,
    Other,
}

/// The family of a model, by its name in any case.
pub open spec fn family_of(model: Seq<char>) -> ModelFamily {
    if has_part(ascii_lower(model), "opus"@) {
        ModelFamily::Opus
    } else if has_part(ascii_lower(model), "sonnet"@) {
        ModelFamily::Sonnet
    } else {
        ModelFamily::Other
    }
}

/// The family of a model; where there is no model, none of the named ones.
pub open spec fn family_of_any(model: Option<Seq<char>>) -> ModelFamily {
    match model {
        Some(m) => family_of(m),
        None => ModelFamily::Other,
    }
}

/// The family of a model, by its name in any case.
pub fn model_family(model: &str) -> (family: ModelFamily)
    ensures
        family == family_of(model@),
{
    let lowered = lower_chars(model);
    if chars_have_part(&lowered, "opus") {
        ModelFamily::Opus
    } else if chars_have_part(&lowered, "sonnet") {
        ModelFamily::Sonnet
    } else {
        ModelFamily::Other
    }
}

} // verus!
