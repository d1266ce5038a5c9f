use vstd::prelude::*;
use vstd::string::StringExecFns;

use crate::text::{all_ws, lemma_trimmed_ignores_padding, trim_text, trimmed};

verus! {

broadcast use vstd::string::group_string_axioms;

/// The fixed instruction that opens every prompt.
pub const PROMPT_PREAMBLE: &'static str = "На основе следующего git diff, сгенерируй краткое и содержательное сообщение коммита на английском языке, используя стандарт Conventional Commits (например, feat:, fix:, docs:), не включая никаких пояснительных слов, только само сообщение: \n\n";

/// Opens the section that holds the recent commit history.
pub const LOG_OPEN: &'static str = "\n\n--- Контекст: Последние 5 коммитов ---\n";

/// Closes the section that holds the recent commit history.
pub const LOG_CLOSE: &'static str = "\n-------------------------------------\n\n";

/// Introduces the staged diff, which ends the prompt.
pub const DIFF_INTRO: &'static str = "Вот изменения, которые нужно проанализировать для нового сообщения коммита (git diff --staged):\n";

/// The text before the log section.
pub open spec fn head() -> Seq<char> {
    PROMPT_PREAMBLE@ + LOG_OPEN@
}

/// The text between the log section and the diff.
pub open spec fn middle() -> Seq<char> {
    LOG_CLOSE@ + DIFF_INTRO@
}

/// The prompt for a log text and a diff text: the preamble, the trimmed log
/// between its markers, then the diff as it is.
pub open spec fn prompt_of(log: Seq<char>, diff: Seq<char>) -> Seq<char> {
    head() + trimmed(log) + middle() + diff
}

/// Assembles the instruction sent to the model from the recent history and
/// the staged diff.
pub fn build_prompt(log: &str, diff: &str) -> (r: String)
    ensures
        r@ == prompt_of(log@, diff@),
{
    let mut prompt = String::from_str(PROMPT_PREAMBLE);
    prompt.append(LOG_OPEN);
    let log_trimmed = trim_text(log);
    prompt.append(log_trimmed.as_str());
    prompt.append(LOG_CLOSE);
    prompt.append(DIFF_INTRO);
    prompt.append(diff);
    assert(prompt@ =~= prompt_of(log@, diff@));
    prompt
}

/// The prompt is a function of the log and the diff alone, and is laid out
/// as the preamble, the trimmed log between its two markers, the diff
/// introduction, and last the diff exactly as given.
pub proof fn law_prompt_layout(log: Seq<char>, diff: Seq<char>, log2: Seq<char>, diff2: Seq<char>)
    requires
        log == log2,
        diff == diff2,
    ensures
        prompt_of(log, diff) == prompt_of(log2, diff2),
        ({
            let p = prompt_of(log, diff);
            let a = PROMPT_PREAMBLE@.len() as int;
            let b = a + LOG_OPEN@.len() as int;
            let c = b + trimmed(log).len() as int;
            let d = c + LOG_CLOSE@.len() as int;
            let e = d + DIFF_INTRO@.len() as int;
            &&& p.len() == e + diff.len()
            &&& p.subrange(0, a) == PROMPT_PREAMBLE@
            &&& p.subrange(a, b) == LOG_OPEN@
            &&& p.subrange(b, c) == trimmed(log)
            &&& p.subrange(c, d) == LOG_CLOSE@
            &&& p.subrange(d, e) == DIFF_INTRO@
            &&& p.subrange(e, p.len() as int) == diff
        }),
{
    let p = prompt_of(log, diff);
    let a = PROMPT_PREAMBLE@.len() as int;
    let b = a + LOG_OPEN@.len() as int;
    let c = b + trimmed(log).len() as int;
    let d = c + LOG_CLOSE@.len() as int;
    let e = d + DIFF_INTRO@.len() as int;
    assert(p.subrange(0, a) =~= PROMPT_PREAMBLE@);
    assert(p.subrange(a, b) =~= LOG_OPEN@);
    assert(p.subrange(b, c) =~= trimmed(log));
    assert(p.subrange(c, d) =~= LOG_CLOSE@);
    assert(p.subrange(d, e) =~= DIFF_INTRO@);
    assert(p.subrange(e, p.len() as int) =~= diff);
}

/// Whitespace around the log text does not reach the prompt: the log section
/// holds the trimmed log, once, whatever padding surrounded it.
pub proof fn law_log_padding_ignored(w1: Seq<char>, log: Seq<char>, w2: Seq<char>, diff: Seq<char>)
    requires
        all_ws(w1),
        all_ws(w2),
    ensures
        prompt_of(w1 + log + w2, diff) == prompt_of(log, diff),
        trimmed(w1 + log + w2) == trimmed(log),
{
    lemma_trimmed_ignores_padding(w1, log, w2);
}

} // verus!
