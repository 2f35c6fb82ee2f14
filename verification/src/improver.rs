//! The text that asks the model for a better prompt: what went wrong, what
//! was tried before, what is wanted, and the prompt as it stands.

use vstd::prelude::*;
use vstd::string::*;
use crate::evaluation::PredictionResult;
use crate::history::PromptRecord;
use crate::labeler::Action;
use crate::text::{
    chars_of, decimal, push_char, push_decimal, push_rounded, rounded_text, truncated, unfolded,
};

verus! {

/// How many failures the text shows.
pub const FAILURE_EXAMPLES: usize = 10;

/// How many characters of an earlier prompt the text shows.
pub const SNIPPET_CHARS: usize = 50;

/// Millionths per printed unit of an accuracy: it is printed in hundredths
/// of a percent.
pub const PERCENT_UNIT: u64 = 100;

/// Fraction digits of a percentage.
pub const PERCENT_PLACES: u32 = 2;

/// An action by the name that the text gives it.
pub open spec fn action_label(a: Action) -> Seq<char> {
    match a {
        Action::Long => "Long"@,
        Action::Short => "Short"@,
        Action::NoTrade => "None"@,
    }
}

/// The line that reports one failure.
pub open spec fn failure_line(failure: (usize, Action, Seq<char>, Action)) -> Seq<char> {
    "Window "@ + decimal(failure.0 as nat) + ": Model predicted "@ + action_label(failure.1)
        + ", but the correct action was "@ + action_label(failure.3) + ". Model's rationale: "@
        + failure.2 + seq!['\n']
}

/// The lines that report a list of failures.
pub open spec fn failure_lines(failures: Seq<PredictionResult>) -> Seq<char>
    decreases failures.len(),
{
    if failures.len() == 0 {
        Seq::<char>::empty()
    } else {
        failure_lines(failures.drop_last()) + failure_line(failures.last()@)
    }
}

/// The start of a prompt on one line.
pub open spec fn snippet(prompt: Seq<char>) -> Seq<char> {
    truncated(unfolded(prompt), SNIPPET_CHARS as nat)
}

/// An accuracy in millionths as a percentage with two fraction digits.
pub open spec fn percent_text(score: i64) -> Seq<char> {
    rounded_text(score as int, PERCENT_UNIT as nat, PERCENT_PLACES as nat)
}

/// The line that reports one earlier prompt.
pub open spec fn history_line(record: PromptRecord) -> Seq<char> {
    "- Prompt score: "@ + percent_text(record.score) + "% | Prompt snippet: "@ + snippet(
        record.prompt@,
    ) + "...\n"@
}

/// The lines that report the earlier prompts.
pub open spec fn history_lines(history: Seq<PromptRecord>) -> Seq<char>
    decreases history.len(),
{
    if history.len() == 0 {
        Seq::<char>::empty()
    } else {
        history_lines(history.drop_last()) + history_line(history.last())
    }
}

/// What the text opens with.
pub open spec fn opening() -> Seq<char> {
    "You are an assistant that improves trading prompts.\n"@
        + "We have a base prompt (below) that instructs the model to produce an action (long, short, or none) and a brief rationale based on provided ETH, BTC, and SOL market data.\n"@
        + "We performed backtesting and found some instances where the model's predicted action did not match the correct action.\n\n"@
        + "Below are some examples of these failures:\n"@
}

/// What the text asks for.
pub open spec fn goals() -> Seq<char> {
    "\nWe need to improve the prompt so that:\n"@
        + "- The model is more likely to produce correct 'action' decisions.\n"@
        + "- The rationale remains concise and well-aligned with the chosen action.\n"@
        + "- The model should not provide disclaimers or mention hypothetical scenarios.\n"@
        + "- The model should consistently rely on patterns, correlations, and recent price changes from the data.\n"@
        + "- The data is appended directly after the prompt.\n"@
}

/// The whole text: the opening, the first `FAILURE_EXAMPLES` failures, every
/// earlier prompt with its accuracy, the goals, and the prompt as it stands.
pub open spec fn improvement_prompt_text(
    base_prompt: Seq<char>,
    failures: Seq<PredictionResult>,
    history: Seq<PromptRecord>,
) -> Seq<char> {
    opening() + failure_lines(truncated(failures, FAILURE_EXAMPLES as nat))
        + "\nWe also have a history of previous prompts and their overall accuracy scores:\n"@
        + history_lines(history) + goals() + "\nOriginal Prompt:\n"@ + base_prompt
        + "\n\nPlease suggest an improved version of the prompt text (without adding any external formatting or code fences), incorporating the above improvements.\n"@
}

/// The name that the text gives an action.
pub fn action_name(a: Action) -> (name: &'static str)
    ensures
        name@ == action_label(a),
{
    match a {
        Action::Long => "Long",
        Action::Short => "Short",
        Action::NoTrade => "None",
    }
}

/// Appends the line that reports one failure.
pub fn push_failure_line(out: &mut String, failure: &PredictionResult)
    ensures
        final(out)@ == old(out)@ + failure_line(failure@),
{
    out.append("Window ");
    push_decimal(out, failure.window_index as u64);
    out.append(": Model predicted ");
    out.append(action_name(failure.predicted));
    out.append(", but the correct action was ");
    out.append(action_name(failure.label));
    out.append(". Model's rationale: ");
    out.append(failure.rationale.as_str());
    push_char(out, '\n');
    assert(out@ =~= old(out)@ + failure_line(failure@));
}

/// Appends the start of a prompt on one line.
pub fn push_snippet(out: &mut String, prompt: &str)
    ensures
        final(out)@ == old(out)@ + snippet(prompt@),
{
    let chars = chars_of(prompt);
    let shown = if chars.len() <= SNIPPET_CHARS {
        chars.len()
    } else {
        SNIPPET_CHARS
    };
    let mut i: usize = 0;
    while i < shown
        invariant
            i <= shown,
            chars@ == prompt@,
            shown == snippet(prompt@).len(),
            out@ == old(out)@ + snippet(prompt@).take(i as int),
        decreases shown - i,
    {
        let c = chars[i];
        if c == '\n' {
            push_char(out, ' ');
        } else {
            push_char(out, c);
        }
        i += 1;
        assert(out@ =~= old(out)@ + snippet(prompt@).take(i as int));
    }
    assert(snippet(prompt@).take(shown as int) =~= snippet(prompt@));
}

/// Appends the line that reports one earlier prompt.
pub fn push_history_line(out: &mut String, record: &PromptRecord)
    ensures
        final(out)@ == old(out)@ + history_line(*record),
{
    out.append("- Prompt score: ");
    push_rounded(out, record.score, PERCENT_UNIT, PERCENT_PLACES);
    out.append("% | Prompt snippet: ");
    push_snippet(out, record.prompt.as_str());
    out.append("...\n");
    assert(out@ =~= old(out)@ + history_line(*record));
}

/// The text that asks the model for a better prompt.
pub fn build_improvement_prompt(
    base_prompt: &str,
    failures: &[PredictionResult],
    previous_prompts: &[PromptRecord],
) -> (prompt: String)
    ensures
        prompt@ == improvement_prompt_text(base_prompt@, failures@, previous_prompts@),
{
    let mut prompt = String::new();
    prompt.append("You are an assistant that improves trading prompts.\n");
    prompt.append(
        "We have a base prompt (below) that instructs the model to produce an action (long, short, or none) and a brief rationale based on provided ETH, BTC, and SOL market data.\n",
    );
    prompt.append(
        "We performed backtesting and found some instances where the model's predicted action did not match the correct action.\n\n",
    );
    prompt.append("Below are some examples of these failures:\n");
    assert(prompt@ =~= opening());

    let shown = if failures.len() <= FAILURE_EXAMPLES {
        failures.len()
    } else {
        FAILURE_EXAMPLES
    };
    let ghost examples = truncated(failures@, FAILURE_EXAMPLES as nat);
    let mut i: usize = 0;
    while i < shown
        invariant
            i <= shown,
            shown == examples.len(),
            examples == truncated(failures@, FAILURE_EXAMPLES as nat),
            prompt@ == opening() + failure_lines(examples.take(i as int)),
        decreases shown - i,
    {
        push_failure_line(&mut prompt, &failures[i]);
        proof {
            let longer = examples.take(i + 1);
            assert(longer.drop_last() =~= examples.take(i as int));
            assert(longer.last() == failures@[i as int]);
            assert(prompt@ =~= opening() + failure_lines(longer));
        }
        i += 1;
    }
    assert(examples.take(shown as int) =~= examples);

    prompt.append(
        "\nWe also have a history of previous prompts and their overall accuracy scores:\n",
    );
    let ghost heading = prompt@;
    let mut j: usize = 0;
    while j < previous_prompts.len()
        invariant
            j <= previous_prompts@.len(),
            prompt@ == heading + history_lines(previous_prompts@.take(j as int)),
        decreases previous_prompts@.len() - j,
    {
        push_history_line(&mut prompt, &previous_prompts[j]);
        proof {
            let longer = previous_prompts@.take(j + 1);
            assert(longer.drop_last() =~= previous_prompts@.take(j as int));
            assert(longer.last() == previous_prompts@[j as int]);
            assert(prompt@ =~= heading + history_lines(longer));
        }
        j += 1;
    }
    assert(previous_prompts@.take(j as int) =~= previous_prompts@);
    let ghost listed = prompt@;

    prompt.append("\nWe need to improve the prompt so that:\n");
    prompt.append("- The model is more likely to produce correct 'action' decisions.\n");
    prompt.append("- The rationale remains concise and well-aligned with the chosen action.\n");
    prompt.append(
        "- The model should not provide disclaimers or mention hypothetical scenarios.\n",
    );
    prompt.append(
        "- The model should consistently rely on patterns, correlations, and recent price changes from the data.\n",
    );
    prompt.append("- The data is appended directly after the prompt.\n");
    assert(prompt@ =~= listed + goals());
    prompt.append("\nOriginal Prompt:\n");
    prompt.append(base_prompt);
    prompt.append(
        "\n\nPlease suggest an improved version of the prompt text (without adding any external formatting or code fences), incorporating the above improvements.\n",
    );
    assert(prompt@ =~= improvement_prompt_text(base_prompt@, failures@, previous_prompts@));
    prompt
}

} // verus!
