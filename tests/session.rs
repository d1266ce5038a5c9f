use aicom::cli_config::CliConfig;
use aicom::error::AicomError;
use aicom::gemini::generate::{
    interpret_reply, Candidate, ContentResponse, GenerateContentResponse, PartResponse, Reply,
};
use aicom::gemini::login::{probe_verdict, ProbeOutcome};
use aicom::prompt::build_prompt;
use aicom::session::{apply_login, login_status, GenerateAction, GenerateSession, LoginStatus, Stage};

fn keyed(key: &str) -> CliConfig {
    CliConfig { gemini_api_key: Some(key.to_string()) }
}

#[test]
fn scenario_generate_prints_trimmed_message() {
    let (s, a) = GenerateSession::begin(&keyed("k1"));
    assert_eq!(a, GenerateAction::CollectDiff);
    let (s, a) = s.step(Ok("+foo".to_string()));
    assert_eq!(a, GenerateAction::CollectLog);
    let log = "--Commit--\nSubject: fix bug\nBody:\n";
    let (s, a) = s.step(Ok(log.to_string()));
    assert_eq!(
        a,
        GenerateAction::RequestMessage { prompt: build_prompt(log, "+foo"), api_key: "k1".to_string() }
    );
    let reply = Reply::Success {
        response: GenerateContentResponse {
            candidates: Some(vec![Candidate {
                content: ContentResponse { parts: vec![PartResponse { text: " feat: add foo\n".to_string() }] },
            }]),
        },
    };
    let (s, a) = s.step(interpret_reply(reply));
    assert_eq!(a, GenerateAction::Print { message: "feat: add foo".to_string() });
    assert!(s.is_finished());
}

#[test]
fn scenario_generate_without_key_fails_first() {
    let (s, a) = GenerateSession::begin(&CliConfig { gemini_api_key: None });
    assert_eq!(a, GenerateAction::Fail { error: AicomError::MissingApiKey });
    assert!(s.is_finished());
}

#[test]
fn scenario_login_valid_and_invalid() {
    let token = "abc123".to_string();
    let mut config = CliConfig::default();
    apply_login(&mut config, &token);
    assert_eq!(config.gemini_api_key, Some("abc123".to_string()));
    assert_eq!(login_status(probe_verdict(ProbeOutcome::Answered { status: 200 })), LoginStatus::Valid);

    let mut config = keyed("old");
    apply_login(&mut config, &token);
    assert_eq!(config.gemini_api_key, Some("abc123".to_string()));
    assert_eq!(login_status(probe_verdict(ProbeOutcome::Answered { status: 401 })), LoginStatus::Invalid);
}

#[test]
fn empty_diff_still_requests_a_message() {
    let (s, _) = GenerateSession::begin(&keyed("k"));
    let (s, _) = s.step(Ok(String::new()));
    assert_eq!(s.stage, Stage::AwaitingLog { diff: String::new() });
    let (s, a) = s.step(Ok("Subject: a".to_string()));
    assert!(matches!(a, GenerateAction::RequestMessage { .. }));
    assert_eq!(s.stage, Stage::AwaitingMessage);
}

#[test]
fn process_error_ends_the_run() {
    let (s, _) = GenerateSession::begin(&keyed("k"));
    let err = AicomError::Process { detail: "git not found".to_string() };
    let (s, a) = s.step(Err(err.clone()));
    assert_eq!(a, GenerateAction::Fail { error: err });
    assert!(s.is_finished());
}

#[test]
fn api_error_during_request_ends_the_run() {
    let (s, _) = GenerateSession::begin(&keyed("k"));
    let (s, _) = s.step(Ok("+x".to_string()));
    let (s, _) = s.step(Ok("log".to_string()));
    let (s, a) = s.step(interpret_reply(Reply::Failure { status: 429, body: Some("slow down".to_string()) }));
    assert_eq!(
        a,
        GenerateAction::Fail { error: AicomError::Api { status: 429, body: "slow down".to_string() } }
    );
    assert!(s.is_finished());
}

#[test]
fn extraction_error_during_request_ends_the_run() {
    let (s, _) = GenerateSession::begin(&keyed("k"));
    let (s, _) = s.step(Ok("+x".to_string()));
    let (s, _) = s.step(Ok("log".to_string()));
    let (_, a) = s.step(interpret_reply(Reply::Success { response: GenerateContentResponse { candidates: None } }));
    assert_eq!(a, GenerateAction::Fail { error: AicomError::Extraction });
}
