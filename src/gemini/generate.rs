use vstd::prelude::*;

use crate::error::AicomError;
use crate::text::{trim_text, trimmed};

verus! {

/// Endpoint of the generation model.
pub const GENERATE_URL: &'static str = "https://generativelanguage.googleapis.com/v1beta/models/gemini-2.5-flash:generateContent";

/// Header that carries the API key.
pub const API_KEY_HEADER: &'static str = "x-goog-api-key";

/// Bound, in seconds, on establishing the connection.
pub const CONNECT_TIMEOUT_SECS: u64 = 120;

/// One text segment of a request.
#[derive(Debug, Clone, PartialEq, Eq)]
pub struct Part {
    pub text: String,
}

/// One conversational turn of a request.
#[derive(Debug, Clone, PartialEq, Eq)]
pub struct Content {
    pub parts: Vec<Part>,
}

/// The body of a generation request.
#[derive(Debug, Clone, PartialEq, Eq)]
pub struct GenerateContentRequest {
    pub contents: Vec<Content>,
}

/// One text segment of a candidate.
#[derive(Debug, Clone, PartialEq, Eq)]
pub struct PartResponse {
    pub text: String,
}

/// The content of a candidate.
#[derive(Debug, Clone, PartialEq, Eq)]
pub struct ContentResponse {
    pub parts: Vec<PartResponse>,
}

/// One generated alternative.
#[derive(Debug, Clone, PartialEq, Eq)]
pub struct Candidate {
    pub content: ContentResponse,
}

/// The body of a successful generation reply.
#[derive(Debug, Clone, PartialEq, Eq)]
pub struct GenerateContentResponse {
    pub candidates: Option<Vec<Candidate>>,
}

/// How the service answered a request.
#[derive(Debug, Clone, PartialEq, Eq)]
pub enum Reply {
    /// A status outside 200..=299, with the body when it could be read.
    Failure { status: u16, body: Option<String> },
    /// A success status, with the decoded body.
    Success { response: GenerateContentResponse },
}

/// `req` holds exactly one turn of exactly one segment, whose text is `prompt`.
pub open spec fn is_single_turn(req: GenerateContentRequest, prompt: Seq<char>) -> bool {
    &&& req.contents@.len() == 1
    &&& req.contents@[0].parts@.len() == 1
    &&& req.contents@[0].parts@[0].text@ == prompt
}

/// A status of the 2xx class.
pub open spec fn is_success_status(status: u16) -> bool {
    200 <= status && status < 300
}

/// The text of the first segment of the first candidate, if there is one.
pub open spec fn first_text(resp: GenerateContentResponse) -> Option<Seq<char>> {
    match resp.candidates {
        Some(cs) => if cs@.len() > 0 && cs@[0].content.parts@.len() > 0 {
            Some(cs@[0].content.parts@[0].text@)
        } else {
            None
        },
        None => None,
    }
}

/// The body text of a failed reply; an unreadable body counts as empty.
pub open spec fn body_text(body: Option<String>) -> Seq<char> {
    match body {
        Some(b) => b@,
        None => Seq::empty(),
    }
}

/// What a reply yields: the trimmed first candidate text, `Api` with the
/// status and body of a failure, or `Extraction` when no text came back.
pub open spec fn reply_result(r: Result<String, AicomError>, reply: Reply) -> bool {
    match reply {
        Reply::Failure { status, body } => {
            &&& r is Err
            &&& r->Err_0 is Api
            &&& r->Err_0->Api_status == status
            &&& r->Err_0->Api_body@ == body_text(body)
        },
        Reply::Success { response } => match first_text(response) {
            Some(t) => r is Ok && r->Ok_0@ == trimmed(t),
            None => r == Err::<String, AicomError>(AicomError::Extraction),
        },
    }
}

/// The request that asks the model to answer `prompt`.
pub fn generation_request(prompt: String) -> (r: GenerateContentRequest)
    ensures
        is_single_turn(r, prompt@),
{
    let part = Part { text: prompt };
    let content = Content { parts: vec![part] };
    GenerateContentRequest { contents: vec![content] }
}

/// Whether `status` is of the 2xx class.
pub fn status_is_success(status: u16) -> (r: bool)
    ensures
        r == is_success_status(status),
{
    200 <= status && status < 300
}

/// Reads the commit message out of a successful reply: the first segment of
/// the first candidate, trimmed. Any further candidate or segment is ignored.
pub fn extract_commit_message(resp: &GenerateContentResponse) -> (r: Result<String, AicomError>)
    ensures
        reply_result(r, Reply::Success { response: *resp }),
{
    match &resp.candidates {
        Some(cs) => {
            if cs.len() > 0 && cs[0].content.parts.len() > 0 {
                Ok(trim_text(cs[0].content.parts[0].text.as_str()))
            } else {
                Err(AicomError::Extraction)
            }
        },
        None => Err(AicomError::Extraction),
    }
}

/// The error for a reply with a failure status.
pub fn api_error(status: u16, body: Option<String>) -> (r: AicomError)
    ensures
        r is Api,
        r->Api_status == status,
        r->Api_body@ == body_text(body),
{
    let text = match body {
        Some(b) => b,
        None => String::new(),
    };
    AicomError::Api { status, body: text }
}

/// Turns the service's answer into the commit message or the error it means.
pub fn interpret_reply(reply: Reply) -> (r: Result<String, AicomError>)
    ensures
        reply_result(r, reply),
{
    match reply {
        Reply::Failure { status, body } => Err(api_error(status, body)),
        Reply::Success { response } => extract_commit_message(&response),
    }
}

/// Only the first segment of the first candidate counts: two successful
/// replies that agree on it yield the same result, whatever else they hold,
/// and that result is the segment's text trimmed.
pub proof fn law_first_segment_decides(
    a: GenerateContentResponse,
    b: GenerateContentResponse,
    ra: Result<String, AicomError>,
    rb: Result<String, AicomError>,
)
    requires
        a.candidates is Some,
        b.candidates is Some,
        a.candidates->0@.len() > 0,
        b.candidates->0@.len() > 0,
        a.candidates->0@[0].content.parts@.len() > 0,
        b.candidates->0@[0].content.parts@.len() > 0,
        a.candidates->0@[0].content.parts@[0].text@ == b.candidates->0@[0].content.parts@[0].text@,
        reply_result(ra, Reply::Success { response: a }),
        reply_result(rb, Reply::Success { response: b }),
    ensures
        ra is Ok,
        rb is Ok,
        ra->Ok_0@ == rb->Ok_0@,
        ra->Ok_0@ == trimmed(a.candidates->0@[0].content.parts@[0].text@),
{
}

/// A successful reply with no candidate list, or an empty one, fails with
/// `Extraction` and with no other error.
pub proof fn law_no_candidates_is_extraction(resp: GenerateContentResponse, r: Result<String, AicomError>)
    requires
        resp.candidates is None || resp.candidates->0@.len() == 0,
        reply_result(r, Reply::Success { response: resp }),
    ensures
        r == Err::<String, AicomError>(AicomError::Extraction),
{
}

/// A reply with a failure status fails with `Api`, carrying that status and
/// the body text.
pub proof fn law_failure_status_is_api_error(status: u16, body: Option<String>, r: Result<String, AicomError>)
    requires
        !is_success_status(status),
        reply_result(r, Reply::Failure { status, body }),
    ensures
        r is Err,
        r->Err_0 is Api,
        r->Err_0->Api_status == status,
        r->Err_0->Api_body@ == body_text(body),
{
}

} // verus!
