use happychartsv2::evaluation::PredictionResult;
use happychartsv2::history::PromptRecord;
use happychartsv2::improver::build_improvement_prompt;
use happychartsv2::Action;

const OPENING: &str = "You are an assistant that improves trading prompts.\n\
We have a base prompt (below) that instructs the model to produce an action (long, short, or none) and a brief rationale based on provided ETH, BTC, and SOL market data.\n\
We performed backtesting and found some instances where the model's predicted action did not match the correct action.\n\n\
Below are some examples of these failures:\n";

const HISTORY_HEADING: &str =
    "\nWe also have a history of previous prompts and their overall accuracy scores:\n";

const GOALS: &str = "\nWe need to improve the prompt so that:\n\
- The model is more likely to produce correct 'action' decisions.\n\
- The rationale remains concise and well-aligned with the chosen action.\n\
- The model should not provide disclaimers or mention hypothetical scenarios.\n\
- The model should consistently rely on patterns, correlations, and recent price changes from the data.\n\
- The data is appended directly after the prompt.\n";

const CLOSING: &str = "\n\nPlease suggest an improved version of the prompt text (without adding any external formatting or code fences), incorporating the above improvements.\n";

fn failure(index: usize, predicted: Action, label: Action, rationale: &str) -> PredictionResult {
    PredictionResult { window_index: index, predicted, rationale: rationale.to_string(), label }
}

#[test]
fn text_without_failures_or_history() {
    let text = build_improvement_prompt("Decide.", &[], &[]);
    assert_eq!(
        text,
        format!("{OPENING}{HISTORY_HEADING}{GOALS}\nOriginal Prompt:\nDecide.{CLOSING}")
    );
}

#[test]
fn text_lists_failures_and_history() {
    let failures = vec![
        failure(24, Action::Long, Action::Short, "BTC rose"),
        failure(130, Action::NoTrade, Action::Long, ""),
    ];
    let history = vec![
        PromptRecord { prompt: "Look at\nthe candles.".to_string(), score: 500_000 },
        PromptRecord { prompt: "x".repeat(60), score: 666_666 },
    ];
    let text = build_improvement_prompt("Decide\nnow.", &failures, &history);
    let expected = format!(
        "{OPENING}\
Window 24: Model predicted Long, but the correct action was Short. Model's rationale: BTC rose\n\
Window 130: Model predicted None, but the correct action was Long. Model's rationale: \n\
{HISTORY_HEADING}\
- Prompt score: 50.00% | Prompt snippet: Look at the candles....\n\
- Prompt score: 66.67% | Prompt snippet: {}...\n\
{GOALS}\nOriginal Prompt:\nDecide\nnow.{CLOSING}",
        "x".repeat(50)
    );
    assert_eq!(text, expected);
}

#[test]
fn only_the_first_ten_failures_are_shown() {
    let failures: Vec<PredictionResult> =
        (0..13).map(|i| failure(24 + i, Action::Short, Action::Long, "why")).collect();
    let text = build_improvement_prompt("p", &failures, &[]);
    assert_eq!(text.matches("Window ").count(), 10);
    assert!(text.contains("Window 33: Model predicted Short"));
    assert!(!text.contains("Window 34:"));
}

#[test]
fn every_history_record_is_shown() {
    let history: Vec<PromptRecord> =
        (0..12).map(|i| PromptRecord { prompt: format!("try{}", i), score: i * 10_000 }).collect();
    let text = build_improvement_prompt("p", &[], &history);
    assert_eq!(text.matches("- Prompt score: ").count(), 12);
    assert!(text.contains("- Prompt score: 11.00% | Prompt snippet: try11...\n"));
    assert!(text.contains("- Prompt score: 0.00% | Prompt snippet: try0...\n"));
}

#[test]
fn percentages_are_rounded_half_to_even() {
    let scores = [
        (0, "0.00%"),
        (1_000_000, "100.00%"),
        (700_000, "70.00%"),
        (333_333, "33.33%"),
        (123_450, "12.34%"),
        (123_550, "12.36%"),
        (123_451, "12.35%"),
        (999_999, "100.00%"),
        (-250_000, "-25.00%"),
    ];
    for (score, shown) in scores {
        let history = [PromptRecord { prompt: "p".to_string(), score }];
        let text = build_improvement_prompt("p", &[], &history);
        assert!(
            text.contains(&format!("- Prompt score: {} | Prompt snippet: p...\n", shown)),
            "{} should be shown as {}",
            score,
            shown
        );
    }
}

#[test]
fn snippet_counts_characters_not_bytes() {
    let prompt = "é".repeat(51);
    let history = [PromptRecord { prompt, score: 0 }];
    let text = build_improvement_prompt("p", &[], &history);
    assert!(text.contains(&format!("Prompt snippet: {}...\n", "é".repeat(50))));
    assert!(!text.contains(&"é".repeat(51)));
}

#[test]
fn base_prompt_is_kept_word_for_word() {
    let base = "Line one.\n  Line two with ```fences``` and \"quotes\".\n";
    let text = build_improvement_prompt(base, &[], &[]);
    assert!(text.contains(&format!("\nOriginal Prompt:\n{}\n\nPlease suggest", base)));
}
