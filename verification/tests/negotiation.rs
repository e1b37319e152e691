use commit::approval::check_staged;
use commit::approval::effective_decision;
use commit::approval::on_decision;
use commit::approval::on_edit_result;
use commit::approval::Decision;
use commit::approval::EditStep;
use commit::approval::LoopStep;
use commit::approval::NegotiationState;
use commit::history::join_dashed;
use commit::outcome::fatal_of_outcome;
use commit::outcome::FatalError;
use commit::outcome::GenerationOutcome;
use commit::prompt::build_prompt;
use commit::request::GenerationRequest;
use commit::response::classify_fields;
use commit::response::classify_response_body;
use commit::retry::CycleEvent;
use commit::retry::RetryCycle;

#[test]
fn plain_prompt_has_task_and_diff_only() {
    let p = build_prompt("", "diff --git a/x.txt ...", "");
    assert!(!p.contains("Using the same format"));
    assert!(!p.contains("Avoid generating"));
    assert!(p.contains("no longer than seventy-two characters"));
    assert!(p.contains("diff --git a/x.txt ..."));
    assert_eq!(
        p,
        "Write a commit message no longer than seventy-two characters describing the changes, \
         ignoring todo comments:\ndiff --git a/x.txt ...\n\nShow me just the commit message."
    );
}

#[test]
fn full_prompt_holds_every_clause_in_order() {
    let p = build_prompt("- ex1\n- ex2", "DIFF", "- bad1\n- bad2");
    assert_eq!(
        p,
        "Using the same format, convention, and style of these examples:\n- ex1\n- ex2\n\n\
         Write a commit message no longer than seventy-two characters describing the changes, \
         ignoring todo comments:\nDIFF\n\nAvoid generating these messages:\n- bad1\n- bad2\n\n\
         Show me just the commit message."
    );
}

#[test]
fn quoted_choice_is_trimmed_and_stripped_once() {
    let body = "{\"choices\":[{\"text\":\" \\\"Fix off-by-one in parser\\\" \"}]}";
    let outcome = classify_response_body(body);
    assert_eq!(
        outcome,
        GenerationOutcome::Message(String::from("Fix off-by-one in parser"))
    );
}

#[test]
fn repeated_boundary_quotes_are_all_stripped() {
    let body = "{\"choices\":[{\"text\":\"\\\"\\\"doubly quoted\\\"\\\"\"}]}";
    assert_eq!(
        classify_response_body(body),
        GenerationOutcome::Message(String::from("doubly quoted"))
    );
}

#[test]
fn oversize_error_classifies_as_oversized() {
    let body = "{\"error\":{\"message\":\"This model's maximum context length is 4097 tokens. \
                Please reduce your prompt\"}}";
    match classify_response_body(body) {
        GenerationOutcome::Oversized(m) => assert!(m.contains("Please reduce your prompt")),
        other => panic!("expected an oversized outcome, got {:?}", other),
    }
}

#[test]
fn other_error_classifies_as_service_reported() {
    let body = "{\"error\":{\"message\":\"Rate limit exceeded\"}}";
    assert_eq!(
        classify_response_body(body),
        GenerationOutcome::ServiceReported(String::from("Rate limit exceeded"))
    );
}

#[test]
fn empty_and_unusable_responses_classify_as_empty() {
    assert_eq!(classify_response_body("{}"), GenerationOutcome::EmptyResult);
    assert_eq!(
        classify_response_body("not json at all"),
        GenerationOutcome::EmptyResult
    );
    let blank = "{\"choices\":[{\"text\":\"  \\\"\\\"  \"}]}";
    assert_eq!(classify_response_body(blank), GenerationOutcome::EmptyResult);
    assert_eq!(
        classify_response_body("{\"choices\":[]}"),
        GenerationOutcome::EmptyResult
    );
    // an error field that is not a string is no error message
    assert_eq!(
        classify_response_body("{\"error\":{\"message\":42}}"),
        GenerationOutcome::EmptyResult
    );
}

#[test]
fn error_field_takes_precedence_over_choices() {
    let body = "{\"error\":{\"message\":\"boom\"},\"choices\":[{\"text\":\"hi\"}]}";
    assert_eq!(
        classify_response_body(body),
        GenerationOutcome::ServiceReported(String::from("boom"))
    );
}

#[test]
fn classify_fields_matches_the_body_classification() {
    assert_eq!(
        classify_fields(None, Some(String::from(" \"Fix off-by-one in parser\" "))),
        GenerationOutcome::Message(String::from("Fix off-by-one in parser"))
    );
    assert_eq!(
        classify_fields(Some(String::from("boom")), Some(String::from("hi"))),
        GenerationOutcome::ServiceReported(String::from("boom"))
    );
    assert_eq!(classify_fields(None, None), GenerationOutcome::EmptyResult);
}

#[test]
fn oversize_answer_retries_once_with_the_summary() {
    let oversize = "{\"error\":{\"message\":\"Please reduce your prompt\"}}";
    let (cycle, p1) = RetryCycle::begin(
        String::new(),
        String::from("a very large diff body"),
        String::new(),
    );
    assert!(p1.contains("a very large diff body"));
    let pending = match cycle.on_outcome(classify_response_body(oversize)) {
        CycleEvent::NeedSummary(c) => c,
        CycleEvent::Finished(..) => panic!("first oversize answer must ask for the summary"),
    };
    let (cycle2, p2) = pending.retry_with_summary(String::from(" x.txt | 2 +-"));
    assert!(p2.contains(" x.txt | 2 +-"));
    assert!(!p2.contains("a very large diff body"));
    // a second oversize answer is final, its text surfaced as-is
    match cycle2.on_outcome(classify_response_body(oversize)) {
        CycleEvent::Finished(GenerationOutcome::Oversized(m), change) => {
            assert!(m.contains("Please reduce your prompt"));
            assert_eq!(change, " x.txt | 2 +-");
        },
        _ => panic!("the second attempt must finish the cycle"),
    }
}

#[test]
fn non_oversize_answers_finish_on_the_first_attempt() {
    let (cycle, _p) = RetryCycle::begin(
        String::new(),
        String::from("small diff"),
        String::new(),
    );
    let good = "{\"choices\":[{\"text\":\"Tidy parser\"}]}";
    match cycle.on_outcome(classify_response_body(good)) {
        CycleEvent::Finished(GenerationOutcome::Message(m), change) => {
            assert_eq!(m, "Tidy parser");
            assert_eq!(change, "small diff");
        },
        _ => panic!("a usable answer must finish the cycle"),
    }
}

#[test]
fn redo_twice_then_yes_uses_both_rejections_in_order() {
    let mut state = NegotiationState {
        change: String::from("diff --git a/x"),
        negatives: Vec::new(),
    };
    let mut prompts: Vec<String> = Vec::new();
    let candidates = ["first candidate", "second candidate", "third candidate"];
    let mut accepted: Option<String> = None;
    for (i, cand) in candidates.iter().enumerate() {
        let negatives = join_dashed(&state.negatives);
        let (_cycle, prompt) =
            RetryCycle::begin(String::new(), state.change.clone(), negatives);
        prompts.push(prompt);
        let decision = if i < 2 { Decision::Redo } else { Decision::Yes };
        match on_decision(state, String::from(*cand), decision) {
            LoopStep::Regenerate(s) => state = s,
            LoopStep::Accepted(m) => {
                accepted = Some(m);
                break;
            },
            _ => panic!("unexpected step"),
        }
    }
    assert_eq!(prompts.len(), 3);
    assert!(!prompts[0].contains("Avoid generating"));
    assert!(prompts[1].contains("Avoid generating these messages:\n- first candidate"));
    assert!(prompts[2]
        .contains("Avoid generating these messages:\n- first candidate\n- second candidate"));
    assert_eq!(accepted.as_deref(), Some("third candidate"));
}

#[test]
fn redo_appends_exactly_the_presented_candidate() {
    let state = NegotiationState {
        change: String::from("diff"),
        negatives: vec![String::from("old one")],
    };
    match on_decision(state, String::from("new one"), Decision::Redo) {
        LoopStep::Regenerate(s) => {
            assert_eq!(s.change, "diff");
            assert_eq!(s.negatives, vec![String::from("old one"), String::from("new one")]);
        },
        _ => panic!("redo must regenerate"),
    }
}

#[test]
fn no_declines_and_edit_hands_back_the_candidate() {
    let state = NegotiationState { change: String::new(), negatives: Vec::new() };
    match on_decision(state, String::from("msg"), Decision::No) {
        LoopStep::Declined => {},
        _ => panic!("no must decline"),
    }
    let state = NegotiationState { change: String::new(), negatives: Vec::new() };
    match on_decision(state, String::from("msg"), Decision::Edit) {
        LoopStep::EditRequested(c) => assert_eq!(c, "msg"),
        _ => panic!("edit must hand the candidate over"),
    }
}

#[test]
fn edit_results_end_the_session_three_ways() {
    assert_eq!(on_edit_result(None), EditStep::Abandoned);
    assert_eq!(
        on_edit_result(Some(String::from("  \n "))),
        EditStep::Fatal(FatalError::EmptyOperatorInput)
    );
    assert_eq!(
        on_edit_result(Some(String::from("Reword the docs"))),
        EditStep::Accepted(String::from("Reword the docs"))
    );
}

#[test]
fn auto_confirm_always_accepts() {
    assert_eq!(effective_decision(true, Decision::No), Decision::Yes);
    assert_eq!(effective_decision(false, Decision::Redo), Decision::Redo);
}

#[test]
fn whitespace_only_change_set_is_nothing_staged() {
    match check_staged("  \n\t  ") {
        Err(e) => {
            assert_eq!(e, FatalError::NothingStaged);
            assert_eq!(
                e.message(),
                "Nothing to commit. Did you stage your changes with \"git add\"?"
            );
        },
        Ok(()) => panic!("a whitespace-only change set must be rejected"),
    }
    assert!(check_staged("diff --git a/x").is_ok());
}

#[test]
fn final_outcomes_map_to_fatal_conditions() {
    assert_eq!(
        fatal_of_outcome(GenerationOutcome::Message(String::from("ok"))),
        Ok(String::from("ok"))
    );
    assert_eq!(
        fatal_of_outcome(GenerationOutcome::TransportFailure),
        Err(FatalError::TransportFailure)
    );
    assert_eq!(
        fatal_of_outcome(GenerationOutcome::Oversized(String::from(
            "still Please reduce your prompt"
        ))),
        Err(FatalError::ServiceReported(String::from(
            "still Please reduce your prompt"
        )))
    );
    assert_eq!(
        fatal_of_outcome(GenerationOutcome::EmptyResult),
        Err(FatalError::EmptyResult)
    );
}

#[test]
fn fatal_messages_match_their_diagnostics() {
    assert_eq!(
        FatalError::TransportFailure.message(),
        "Failed to get a response. Have you set the OPENAI_API_KEY variable?"
    );
    assert_eq!(FatalError::EmptyResult.message(), "Nothing returned from GPT-3.");
    assert_eq!(
        FatalError::CredentialMissing.message(),
        "This program requires an OpenAI API key to run. Please set the OPENAI_API_KEY \
         environment variable."
    );
    assert_eq!(
        FatalError::ServiceReported(String::from("boom")).message(),
        "boom"
    );
}

#[test]
fn generation_requests_are_deterministic() {
    let r = GenerationRequest::new(String::from("prompt text"), 2000);
    assert_eq!(r.prompt, "prompt text");
    assert_eq!(r.max_tokens, 2000);
    assert_eq!(r.temperature, 0);
    assert_eq!(r.top_p, 1);
    assert_eq!(r.presence_penalty, 0);
    assert_eq!(r.frequency_penalty, 0);
    assert_eq!(r.model(), "text-davinci-003");
}
