//! Refinement stage: the optional text-improvement pass. The network call to
//! the refinement collaborator is made by the surrounding application under a
//! bounded timeout; the stage here builds the request and decides what is
//! delivered for every possible answer. Refinement is an enhancement, never a
//! correctness dependency: on any failure the original transcript is
//! delivered unchanged.

use vstd::prelude::*;
use crate::models::RefinementError;

verus! {

/// Prompt template consumed by the refinement stage; immutable configuration.
#[derive(Debug, Clone)]
pub struct PromptTemplate {
    pub system_prompt: String,
}

impl PromptTemplate {
    pub fn new() -> (r: Self)
        ensures
            r.system_prompt@ == "Improve the text for clarity and grammar."@,
    {
        PromptTemplate { system_prompt: String::from_str("Improve the text for clarity and grammar.") }
    }
}

/// The request handed to the refinement collaborator.
#[derive(Debug, Clone)]
pub struct RefineRequest {
    pub system_prompt: String,
    pub text: String,
}

/// Build the collaborator request for a transcript from the configured
/// template.
pub fn build_request(template: &PromptTemplate, text: &String) -> (r: RefineRequest)
    ensures
        r.system_prompt@ == template.system_prompt@,
        r.text@ == text@,
{
    RefineRequest { system_prompt: template.system_prompt.clone(), text: text.clone() }
}

/// The text that is delivered, for every possible refinement outcome: the
/// improved text on success, the raw transcript unchanged on any failure.
/// A refinement failure never discards a valid transcript.
pub open spec fn spec_delivered_text(raw: Seq<char>, outcome: Result<
    Seq<char>,
    RefinementError,
>) -> Seq<char> {
    match outcome {
        Ok(t) => t,
        Err(_) => raw,
    }
}

/// Decide what the pipeline delivers once the refinement outcome is known.
pub fn choose_delivery(raw: String, outcome: Result<String, RefinementError>) -> (r: String)
    ensures
        r@ == spec_delivered_text(
            raw@,
            match outcome {
                Ok(t) => Ok::<Seq<char>, RefinementError>(t@),
                Err(e) => Err::<Seq<char>, RefinementError>(e),
            },
        ),
{
    match outcome {
        Ok(t) => t,
        Err(_) => raw,
    }
}

} // verus!
