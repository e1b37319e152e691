//! The oversize-retry protocol: one generation cycle issues at most two
//! service calls. The first prompt is built from the full change set;
//! only when the service reports an oversized prompt is a second — and
//! last — prompt built, from a condensed statistical summary of the
//! same changes. Any other outcome, on either attempt, is final.
//!
//! The caller performs the service call itself and hands the classified
//! outcome back; this type owns every decision in between.

use vstd::prelude::*;

use crate::outcome::GenerationOutcome;
use crate::outcome::OutcomeModel;
use crate::prompt::build_prompt;
use crate::prompt::prompt_chars;

verus! {

/// One generation cycle of the retry protocol.
pub struct RetryCycle {
    /// Style examples handed to every prompt of this cycle.
    pub examples: String,
    /// The current change text: the full change set on the first
    /// attempt, the condensed summary after a fallback.
    pub change: String,
    /// The joined negative exemplars handed to every prompt.
    pub negatives: String,
    /// How many prompts this cycle has built: one or two.
    pub prompts_built: u8,
    /// The cycle saw an oversize answer and waits for the summary.
    pub awaiting_summary: bool,
}

/// What the caller must do next after handing an outcome back.
pub enum CycleEvent {
    /// The cycle is over: the final outcome, and the change text the
    /// cycle ended with (the summary, after a fallback).
    Finished(GenerationOutcome, String),
    /// The first answer was an oversized-prompt failure: fetch the
    /// condensed change summary and resume with `retry_with_summary`.
    NeedSummary(RetryCycle),
}

impl RetryCycle {
    /// The cycle never builds more than two prompts, and waits for a
    /// summary only before its second one.
    pub open spec fn wf(&self) -> bool {
        (self.prompts_built == 1 || self.prompts_built == 2) && (self.awaiting_summary
            ==> self.prompts_built == 1)
    }

    /// Opens a cycle: builds the first prompt, from the full change text.
    pub fn begin(examples: String, change: String, negatives: String) -> (r: (RetryCycle, String))
        ensures
            r.0.wf(),
            r.0.examples@ == examples@,
            r.0.change@ == change@,
            r.0.negatives@ == negatives@,
            r.0.prompts_built == 1,
            !r.0.awaiting_summary,
            r.1@ == prompt_chars(examples@, change@, negatives@),
    {
        let prompt = build_prompt(examples.as_str(), change.as_str(), negatives.as_str());
        let cycle = RetryCycle {
            examples,
            change,
            negatives,
            prompts_built: 1,
            awaiting_summary: false,
        };
        (cycle, prompt)
    }

    /// Takes the classified outcome of the latest service call. An
    /// oversized answer to the first attempt asks for the summary;
    /// every other outcome — and any answer to the second attempt,
    /// oversized or not — is final.
    pub fn on_outcome(self, outcome: GenerationOutcome) -> (r: CycleEvent)
        requires
            self.wf(),
            !self.awaiting_summary,
        ensures
            match r {
                CycleEvent::NeedSummary(next) => {
                    &&& self.prompts_built == 1
                    &&& outcome@ matches OutcomeModel::Oversized(_)
                    &&& next.wf()
                    &&& next.awaiting_summary
                    &&& next.prompts_built == 1
                    &&& next.examples@ == self.examples@
                    &&& next.change@ == self.change@
                    &&& next.negatives@ == self.negatives@
                },
                CycleEvent::Finished(o, change) => {
                    &&& o@ == outcome@
                    &&& change@ == self.change@
                    &&& (self.prompts_built == 1 ==> !(outcome@ matches OutcomeModel::Oversized(
                        _,
                    )))
                },
            },
            (self.prompts_built == 1 && outcome@ matches OutcomeModel::Oversized(_)) <==> (
            r matches CycleEvent::NeedSummary(_)),
    {
        let oversized = match &outcome {
            GenerationOutcome::Oversized(_) => true,
            _ => false,
        };
        if self.prompts_built == 1 && oversized {
            CycleEvent::NeedSummary(
                RetryCycle { awaiting_summary: true, ..self },
            )
        } else {
            let change = self.change;
            CycleEvent::Finished(outcome, change)
        }
    }

    /// Resumes after an oversize answer: the condensed summary replaces
    /// the change text wholesale, and the second — and last — prompt is
    /// built from it, never from the original change set.
    pub fn retry_with_summary(self, summary: String) -> (r: (RetryCycle, String))
        requires
            self.wf(),
            self.awaiting_summary,
        ensures
            r.0.wf(),
            r.0.examples@ == self.examples@,
            r.0.change@ == summary@,
            r.0.negatives@ == self.negatives@,
            r.0.prompts_built == 2,
            !r.0.awaiting_summary,
            r.1@ == prompt_chars(self.examples@, summary@, self.negatives@),
    {
        let prompt = build_prompt(self.examples.as_str(), summary.as_str(), self.negatives.as_str());
        let cycle = RetryCycle {
            change: summary,
            prompts_built: 2,
            awaiting_summary: false,
            ..self
        };
        (cycle, prompt)
    }
}

/// The retry protocol is bounded: a well-formed cycle has never built
/// more than two prompts, so the completion service is called at most
/// twice per cycle.
pub proof fn lemma_at_most_two_prompts(cycle: RetryCycle)
    requires
        cycle.wf(),
    ensures
        cycle.prompts_built <= 2,
{
}

} // verus!
