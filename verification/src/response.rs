//! Classification of the generation service's answer: decoding the
//! response body and sorting it into a `GenerationOutcome`.
//!
//! The service answers with a JSON body holding either
//! `{"choices":[{"text":...}]}` or `{"error":{"message":...}}`. The two
//! field extractions go through serde_json behind trusted wrappers; the
//! classification itself is verified against an exact specification.
//! The oversize condition is recognised by a substring of the service's
//! free-text error message — an inherently fragile contract, isolated
//! here so the matching rule can be swapped without touching the retry
//! protocol.

use vstd::prelude::*;

use crate::outcome::GenerationOutcome;
use crate::outcome::OutcomeModel;
use crate::text::contains_seq;
use crate::text::contains_str;
use crate::text::strip_quotes_spec;
use crate::text::trim;
use crate::text::trim_spec;

verus! {

/// The substring of a service error message that marks an oversized prompt.
pub open spec fn oversize_marker() -> Seq<char> {
    "Please reduce your prompt"@
}

/// The error message field of the decoded response body, if any:
/// the string at `error.message`, a function of the body text alone.
pub uninterp spec fn error_field(body: Seq<char>) -> Option<Seq<char>>;

/// The first generated choice of the decoded response body, if any:
/// the string at `choices[0].text`, a function of the body text alone.
pub uninterp spec fn choice_field(body: Seq<char>) -> Option<Seq<char>>;

/// Relies on serde_json::from_str and serde_json::Value::{get, as_str}:
/// decodes the body and reads the string at `error.message`, a function
/// of the body text alone.
#[verifier::external_body]
fn extract_error_message(body: &str) -> (r: Option<String>)
    ensures
        r.deep_view() == error_field(body@),
{
    let v: serde_json::Value = match serde_json::from_str(body) {
        Ok(v) => v,
        Err(_) => return None,
    };
    match v.get("error") {
        Some(e) => match e.get("message") {
            Some(m) => m.as_str().map(str::to_string),
            None => None,
        },
        None => None,
    }
}

/// Relies on serde_json::from_str and serde_json::Value::{get, as_str}:
/// decodes the body and reads the string at `choices[0].text`, a
/// function of the body text alone.
#[verifier::external_body]
fn extract_choice_text(body: &str) -> (r: Option<String>)
    ensures
        r.deep_view() == choice_field(body@),
{
    let v: serde_json::Value = match serde_json::from_str(body) {
        Ok(v) => v,
        Err(_) => return None,
    };
    match v.get("choices") {
        Some(cs) => match cs.get(0) {
            Some(c) => match c.get("text") {
                Some(t) => t.as_str().map(str::to_string),
                None => None,
            },
            None => None,
        },
        None => None,
    }
}

/// How a generated choice becomes a candidate: surrounding whitespace
/// trimmed, then every surrounding quote character stripped, so that
/// no wrapping quote remains.
pub open spec fn candidate_spec(t: Seq<char>) -> Seq<char> {
    strip_quotes_spec(trim_spec(t))
}

/// How a choice field classifies once no error field applies: no text,
/// or text that is empty after trimming and quote-stripping, is an
/// empty result; anything else is a candidate message.
pub open spec fn classify_choice_spec(choice: Option<Seq<char>>) -> OutcomeModel {
    match choice {
        Option::None => OutcomeModel::EmptyResult,
        Option::Some(t) => if candidate_spec(t).len() == 0 {
            OutcomeModel::EmptyResult
        } else {
            OutcomeModel::Message(candidate_spec(t))
        },
    }
}

/// How a structured response classifies: an error message containing
/// the oversize marker is the recoverable oversize failure; any other
/// non-empty error message is a service-reported failure; otherwise the
/// first choice decides.
pub open spec fn classify_spec(err: Option<Seq<char>>, choice: Option<Seq<char>>) -> OutcomeModel {
    match err {
        Option::Some(e) => if contains_seq(e, oversize_marker()) {
            OutcomeModel::Oversized(e)
        } else if e.len() > 0 {
            OutcomeModel::ServiceReported(e)
        } else {
            classify_choice_spec(choice)
        },
        Option::None => classify_choice_spec(choice),
    }
}

/// Turns one generated choice into a candidate message text.
pub fn make_candidate(t: &str) -> (r: String)
    ensures
        r@ == candidate_spec(t@),
{
    let trimmed = trim(t);
    crate::text::strip_quotes(trimmed.as_str())
}

/// Classifies the two extracted response fields into an outcome.
pub fn classify_fields(error_message: Option<String>, choice_text: Option<String>) -> (r:
    GenerationOutcome)
    ensures
        r@ == classify_spec(error_message.deep_view(), choice_text.deep_view()),
{
    match error_message {
        Option::Some(e) => {
            if contains_str(e.as_str(), "Please reduce your prompt") {
                GenerationOutcome::Oversized(e)
            } else if !e.as_str().is_empty() {
                GenerationOutcome::ServiceReported(e)
            } else {
                classify_choice(choice_text)
            }
        },
        Option::None => classify_choice(choice_text),
    }
}

/// Classifies the choice field once no error field applies.
fn classify_choice(choice_text: Option<String>) -> (r: GenerationOutcome)
    ensures
        r@ == classify_choice_spec(choice_text.deep_view()),
{
    match choice_text {
        Option::None => GenerationOutcome::EmptyResult,
        Option::Some(t) => {
            let m = make_candidate(t.as_str());
            if m.as_str().is_empty() {
                GenerationOutcome::EmptyResult
            } else {
                GenerationOutcome::Message(m)
            }
        },
    }
}

/// A candidate message produced by classification is never empty: the
/// message variant only ever carries the trimmed, quote-stripped choice
/// text, and only when that text is not empty.
pub proof fn lemma_message_never_empty(err: Option<Seq<char>>, choice: Option<Seq<char>>)
    ensures
        classify_spec(err, choice) matches OutcomeModel::Message(m) ==> m.len() > 0 && (
        choice matches Option::Some(t) && m == candidate_spec(t)),
{
}

/// A derived candidate retains no wrapping quote: after the strip no
/// leading or trailing quote character remains, and re-applying the
/// strip to a candidate is a no-op, on every input.
pub proof fn lemma_candidate_no_boundary_quote(t: Seq<char>)
    ensures
        candidate_spec(t).len() > 0 ==> candidate_spec(t)[0] != '"',
        candidate_spec(t).len() > 0 ==> candidate_spec(t)[candidate_spec(t).len() - 1] != '"',
        strip_quotes_spec(candidate_spec(t)) == candidate_spec(t),
{
    crate::text::lemma_strip_quotes_stable(trim_spec(t));
}

/// Classifies a raw response body: extracts the error and choice fields
/// and sorts them into an outcome.
pub fn classify_response_body(body: &str) -> (r: GenerationOutcome)
    ensures
        r@ == classify_spec(error_field(body@), choice_field(body@)),
{
    let e = extract_error_message(body);
    let c = extract_choice_text(body);
    classify_fields(e, c)
}

} // verus!
