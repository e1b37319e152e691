//! The prompt builder: a pure assembly of the generation request text
//! from the change set, optional style examples, and optional negative
//! exemplars. It never fails; an empty input simply omits its clause.

use vstd::prelude::*;

use crate::text::contains_at;
use crate::text::contains_seq;

verus! {

/// The style clause: present only when style examples were supplied.
pub open spec fn style_clause(examples: Seq<char>) -> Seq<char> {
    if examples.len() > 0 {
        "Using the same format, convention, and style of these examples:\n"@ + examples + "\n\n"@
    } else {
        Seq::<char>::empty()
    }
}

/// The fixed task instruction: a message of at most seventy-two
/// characters describing the changes, disregarding todo annotations.
pub open spec fn task_clause() -> Seq<char> {
    "Write a commit message no longer than seventy-two characters describing the changes, ignoring todo comments:\n"@
}

/// The avoid clause: present only when negative exemplars exist.
pub open spec fn avoid_clause(negatives: Seq<char>) -> Seq<char> {
    if negatives.len() > 0 {
        "Avoid generating these messages:\n"@ + negatives + "\n\n"@
    } else {
        Seq::<char>::empty()
    }
}

/// The closing instruction: only the message text, no commentary.
pub open spec fn closing_clause() -> Seq<char> {
    "Show me just the commit message."@
}

/// The whole prompt: style clause, task instruction, the change set
/// text verbatim, avoid clause, closing instruction.
pub open spec fn prompt_chars(examples: Seq<char>, change: Seq<char>, negatives: Seq<char>) -> Seq<
    char,
> {
    style_clause(examples) + task_clause() + change + "\n\n"@ + avoid_clause(negatives)
        + closing_clause()
}

/// Assembles the prompt text for one generation call.
pub fn build_prompt(examples: &str, change: &str, negatives: &str) -> (r: String)
    ensures
        r@ == prompt_chars(examples@, change@, negatives@),
{
    let mut p = String::new();
    if !examples.is_empty() {
        p.append("Using the same format, convention, and style of these examples:\n");
        p.append(examples);
        p.append("\n\n");
    }
    p.append(
        "Write a commit message no longer than seventy-two characters describing the changes, ignoring todo comments:\n",
    );
    p.append(change);
    p.append("\n\n");
    if !negatives.is_empty() {
        p.append("Avoid generating these messages:\n");
        p.append(negatives);
        p.append("\n\n");
    }
    p.append("Show me just the commit message.");
    proof {
        assert(p@ =~= prompt_chars(examples@, change@, negatives@));
    }
    p
}

/// The built prompt holds the change set text verbatim, whatever the
/// inputs; and when the negative-exemplar collection is empty the
/// prompt is exactly the clause-free form — no avoid clause stands in
/// it.
pub proof fn lemma_prompt_holds_change(examples: Seq<char>, change: Seq<char>, negatives: Seq<
    char,
>)
    ensures
        contains_seq(prompt_chars(examples, change, negatives), change),
        negatives.len() == 0 ==> prompt_chars(examples, change, negatives) == style_clause(examples)
            + task_clause() + change + "\n\n"@ + closing_clause(),
{
    let p = prompt_chars(examples, change, negatives);
    let a = style_clause(examples) + task_clause();
    assert(p.subrange(a.len() as int, (a.len() + change.len()) as int) =~= change);
    assert(contains_at(p, change, a.len() as int));
    if negatives.len() == 0 {
        assert(prompt_chars(examples, change, negatives) =~= style_clause(examples) + task_clause()
            + change + "\n\n"@ + closing_clause());
    }
}

/// Two prompts built with the same examples and exemplars but different
/// change texts are themselves different: the change text pins the
/// prompt down, so a prompt built from a summary is never the prompt
/// built from the original change set.
pub proof fn lemma_prompt_change_injective(
    examples: Seq<char>,
    change1: Seq<char>,
    change2: Seq<char>,
    negatives: Seq<char>,
)
    requires
        prompt_chars(examples, change1, negatives) == prompt_chars(examples, change2, negatives),
    ensures
        change1 == change2,
{
    let p1 = prompt_chars(examples, change1, negatives);
    let p2 = prompt_chars(examples, change2, negatives);
    let a = style_clause(examples) + task_clause();
    assert(p1.len() == a.len() + change1.len() + "\n\n"@.len() + avoid_clause(negatives).len()
        + closing_clause().len());
    assert(p2.len() == a.len() + change2.len() + "\n\n"@.len() + avoid_clause(negatives).len()
        + closing_clause().len());
    assert(change1.len() == change2.len());
    assert(p1.subrange(a.len() as int, (a.len() + change1.len()) as int) =~= change1);
    assert(p2.subrange(a.len() as int, (a.len() + change2.len()) as int) =~= change2);
    assert(change1 =~= change2);
}

} // verus!
