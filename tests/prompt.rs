use aicom::prompt::{build_prompt, DIFF_INTRO, LOG_CLOSE, LOG_OPEN, PROMPT_PREAMBLE};

fn expected(log_section: &str, diff: &str) -> String {
    format!("{PROMPT_PREAMBLE}{LOG_OPEN}{log_section}{LOG_CLOSE}{DIFF_INTRO}{diff}")
}

#[test]
fn prompt_has_preamble_log_then_diff() {
    let p = build_prompt("--Commit--\nSubject: fix bug\nBody:\n", "+foo");
    assert_eq!(p, expected("--Commit--\nSubject: fix bug\nBody:", "+foo"));
    assert!(p.starts_with(PROMPT_PREAMBLE));
    assert!(p.ends_with("+foo"));
}

#[test]
fn prompt_is_deterministic() {
    let a = build_prompt("log text", "diff text");
    let b = build_prompt("log text", "diff text");
    assert_eq!(a, b);
}

#[test]
fn prompt_trims_log_padding() {
    let padded = build_prompt(" \t\n  Subject: x\n\n ", "+a");
    let bare = build_prompt("Subject: x", "+a");
    assert_eq!(padded, bare);
    assert_eq!(padded.matches("Subject: x").count(), 1);
}

#[test]
fn prompt_trims_unicode_whitespace_in_log() {
    let p = build_prompt("\u{3000}\u{a0}Subject: y\u{2028}", "");
    assert_eq!(p, expected("Subject: y", ""));
}

#[test]
fn prompt_keeps_diff_untrimmed() {
    let p = build_prompt("", "  +x \n");
    assert_eq!(p, expected("", "  +x \n"));
}

#[test]
fn prompt_with_empty_diff_ends_with_diff_intro() {
    let p = build_prompt("Subject: z", "");
    assert!(p.ends_with(DIFF_INTRO));
}

#[test]
fn prompt_of_whitespace_only_log_has_empty_section() {
    let p = build_prompt(" \n\t ", "+d");
    assert_eq!(p, expected("", "+d"));
}
