//! The approval loop's state and transitions: generate, present,
//! decide. The operator accepts, declines, edits, or asks for a redo;
//! a redo records the presented candidate as a negative exemplar and
//! regenerates. The negative-exemplar collection only ever grows, by
//! exactly one entry per redo, in presentation order.

use vstd::prelude::*;

use crate::outcome::FatalError;
use crate::outcome::FatalModel;
use crate::text::non_space_count;
use crate::text::trim_spec;

verus! {

/// The operator's answer to a presented candidate.
#[derive(Debug, PartialEq, Eq, Clone, Copy)]
pub enum Decision {
    Yes,
    No,
    Edit,
    Redo,
}

/// The state a negotiation session threads through its cycles: the
/// current change text and the candidates rejected so far.
pub struct NegotiationState {
    /// The change text the next cycle will be generated from.
    pub change: String,
    /// Previously presented and rejected candidates, oldest first.
    pub negatives: Vec<String>,
}

/// Where the loop goes after one operator decision.
pub enum LoopStep {
    /// The candidate is the final message.
    Accepted(String),
    /// The operator declined; the session ends with no message.
    Declined,
    /// The operator asked to edit; hand this text to the editor.
    EditRequested(String),
    /// The operator asked for a redo; regenerate from this state.
    Regenerate(NegotiationState),
}

/// How the editor's answer ends the session.
#[derive(Debug, PartialEq, Eq)]
pub enum EditStep {
    /// The edited text is the final message.
    Accepted(String),
    /// The operator abandoned the editor; treated as declining.
    Abandoned,
    /// The replacement was empty after trimming: a fatal input error.
    Fatal(FatalError),
}

/// Checks the staged change set before any generation call: text that
/// is nothing but whitespace means there is nothing to commit.
pub fn check_staged(change: &str) -> (r: Result<(), FatalError>)
    ensures
        r is Ok <==> non_space_count(change@) > 0,
        r matches Err(e) ==> e@ == FatalModel::NothingStaged,
{
    if crate::text::count_non_space(change) == 0 {
        Err(FatalError::NothingStaged)
    } else {
        Ok(())
    }
}

/// In auto-confirm mode presentation is bypassed and the decision is
/// always to accept; otherwise the operator's choice stands.
pub fn effective_decision(auto_confirm: bool, chosen: Decision) -> (r: Decision)
    ensures
        auto_confirm ==> r is Yes,
        !auto_confirm ==> r == chosen,
{
    if auto_confirm {
        Decision::Yes
    } else {
        chosen
    }
}

/// One presentation step: the operator's decision over the presented
/// candidate. A redo appends exactly the candidate to the negative
/// exemplars — nothing is ever removed — and keeps the change text as
/// it stands, not re-summarized.
pub fn on_decision(state: NegotiationState, candidate: String, decision: Decision) -> (r: LoopStep)
    ensures
        match decision {
            Decision::Yes => r matches LoopStep::Accepted(m) && m@ == candidate@,
            Decision::No => r matches LoopStep::Declined,
            Decision::Edit => r matches LoopStep::EditRequested(c) && c@ == candidate@,
            Decision::Redo => r matches LoopStep::Regenerate(s) && s.change@ == state.change@
                && s.negatives.deep_view() == state.negatives.deep_view().push(candidate@),
        },
{
    match decision {
        Decision::Yes => LoopStep::Accepted(candidate),
        Decision::No => LoopStep::Declined,
        Decision::Edit => LoopStep::EditRequested(candidate),
        Decision::Redo => {
            let mut negatives = state.negatives;
            let ghost before = negatives.deep_view();
            negatives.push(candidate);
            proof {
                assert(negatives.deep_view() =~= before.push(candidate@));
            }
            LoopStep::Regenerate(NegotiationState { change: state.change, negatives })
        },
    }
}

/// The editor's answer: abandoning the editor declines; a replacement
/// that is empty after trimming is a fatal input error; any other
/// replacement is the final message, as typed.
pub fn on_edit_result(edited: Option<String>) -> (r: EditStep)
    ensures
        match edited {
            Option::None => r matches EditStep::Abandoned,
            Option::Some(t) => if trim_spec(t@).len() == 0 {
                r matches EditStep::Fatal(e) && e@ == FatalModel::EmptyOperatorInput
            } else {
                r matches EditStep::Accepted(m) && m@ == t@
            },
        },
{
    match edited {
        Option::None => EditStep::Abandoned,
        Option::Some(t) => {
            let trimmed = crate::text::trim(t.as_str());
            if trimmed.as_str().is_empty() {
                EditStep::Fatal(FatalError::EmptyOperatorInput)
            } else {
                EditStep::Accepted(t)
            }
        },
    }
}

/// The negative exemplars a run of redo decisions leaves behind,
/// starting from `negatives` and presenting `candidates` in order.
pub open spec fn negatives_after_redos(negatives: Seq<Seq<char>>, candidates: Seq<Seq<char>>) -> Seq<
    Seq<char>,
>
    decreases candidates.len(),
{
    if candidates.len() == 0 {
        negatives
    } else {
        negatives_after_redos(negatives.push(candidates[0]), candidates.drop_first())
    }
}

/// Redo is monotonic: a session that starts with no negative exemplars
/// and answers redo to each of `candidates` in turn ends with exactly
/// those candidates as its exemplars — one entry per redo, each a
/// previously presented candidate, in presentation order.
pub proof fn lemma_redo_monotonic(negatives: Seq<Seq<char>>, candidates: Seq<Seq<char>>)
    ensures
        negatives_after_redos(negatives, candidates) == negatives + candidates,
    decreases candidates.len(),
{
    if candidates.len() == 0 {
        assert(negatives + candidates =~= negatives);
    } else {
        lemma_redo_monotonic(negatives.push(candidates[0]), candidates.drop_first());
        assert(negatives.push(candidates[0]) + candidates.drop_first() =~= negatives + candidates);
    }
}

/// A session that starts with no exemplars and answers redo for each of
/// N presented candidates ends with exactly those N entries, in order.
pub proof fn lemma_redo_from_empty(candidates: Seq<Seq<char>>)
    ensures
        negatives_after_redos(Seq::<Seq<char>>::empty(), candidates) == candidates,
        negatives_after_redos(Seq::<Seq<char>>::empty(), candidates).len() == candidates.len(),
{
    lemma_redo_monotonic(Seq::<Seq<char>>::empty(), candidates);
    assert(Seq::<Seq<char>>::empty() + candidates =~= candidates);
}

} // verus!
