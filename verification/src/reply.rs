//! The answers a handler gives: a reply to send, or the end of the process.

use vstd::prelude::*;
use crate::json::{json_object_field, json_string, json_string_literal, law_json_string_reads_back};

verus! {

/// How a reply leaves the server: sent as a normal response, or raised as a
/// request error that the server's error handlers answer.
#[derive(Clone, Copy, Debug, PartialEq, Eq, Structural)]
pub enum ReplyKind {
    Sent,
    Failed,
}

/// An HTTP answer. `json` says whether the content type is
/// `application/json; charset=utf-8`; `log` is a line written to standard
/// error before the answer goes out.
#[derive(Debug)]
pub struct Reply {
    pub kind: ReplyKind,
    pub status: u16,
    pub json: bool,
    pub body: String,
    pub log: Option<String>,
}

/// What a handler ends with: a reply, or writing the lines to standard error
/// and ending the process with status 1.
#[derive(Debug)]
pub enum Outcome {
    Reply(Reply),
    Exit(Vec<String>),
}

/// The status code of a successful response.
pub open spec fn status_ok() -> u16 {
    200
}

/// The status code of an internal server error.
pub open spec fn status_internal_error() -> u16 {
    500
}

/// The JSON body `{"error":<message>}` of an error answer.
pub open spec fn error_json(message: Seq<char>) -> Seq<char> {
    "{\"error\":"@ + json_string(message) + "}"@
}

/// The JSON body `{"Token":<token>}` that hands out a CSRF token.
pub open spec fn token_json(token: Seq<char>) -> Seq<char> {
    "{\"Token\":"@ + json_string(token) + "}"@
}

/// The message that an internal error answer carries in its body.
pub open spec fn internal_error_message() -> Seq<char> {
    "InternalServerError"@
}

/// `o` answers a request with an internal server error after logging `message`:
/// a raised error with status 500, a JSON body `{"error":"InternalServerError"}`
/// and `message` on standard error; or, where that body could not be written,
/// the end of the process after writing `message` and the reason.
pub open spec fn answers_internal_error(message: Seq<char>, o: Outcome) -> bool {
    match o {
        Outcome::Reply(r) => {
            &&& r.kind == ReplyKind::Failed
            &&& r.status == status_internal_error()
            &&& r.json
            &&& r.body@ == error_json(internal_error_message())
            &&& r.log matches Some(l) && l@ == message
        },
        Outcome::Exit(lines) => lines@.len() == 2 && lines@[0]@ == message,
    }
}

proof fn lemma_object_head(key: Seq<char>, head: Seq<char>, value: Seq<char>)
    requires
        head == seq!['{'] + json_string(key) + seq![':'],
    ensures
        json_object_field(key, head + json_string(value) + seq!['}']) == Some(value),
{
    let b = head + json_string(value) + seq!['}'];
    assert(b.take(head.len() as int) =~= head);
    assert(b.skip(head.len() as int) =~= json_string(value) + seq!['}']);
    law_json_string_reads_back(value, seq!['}']);
}

/// The body of an error answer is the JSON object whose one member `error`
/// reads back as the message.
pub proof fn law_error_body_reads_back(message: Seq<char>)
    ensures
        json_object_field("error"@, error_json(message)) == Some(message),
{
    reveal_strlit("error");
    reveal_strlit("{\"error\":");
    reveal_strlit("}");
    reveal_with_fuel(crate::json::json_escaped, 6);
    let head = seq!['{'] + json_string("error"@) + seq![':'];
    assert(head =~= "{\"error\":"@);
    assert(error_json(message) =~= head + json_string(message) + seq!['}']);
    lemma_object_head("error"@, head, message);
}

/// The body that hands out a token is the JSON object whose one member
/// `Token` reads back as the token.
pub proof fn law_token_body_reads_back(token: Seq<char>)
    ensures
        json_object_field("Token"@, token_json(token)) == Some(token),
{
    reveal_strlit("Token");
    reveal_strlit("{\"Token\":");
    reveal_strlit("}");
    reveal_with_fuel(crate::json::json_escaped, 6);
    let head = seq!['{'] + json_string("Token"@) + seq![':'];
    assert(head =~= "{\"Token\":"@);
    assert(token_json(token) =~= head + json_string(token) + seq!['}']);
    lemma_object_head("Token"@, head, token);
}

/// `{"error":` followed by `literal` and `}`.
fn frame_error(literal: String) -> (b: String)
    ensures
        b@ == "{\"error\":"@ + literal@ + "}"@,
{
    let mut b = String::from_str("{\"error\":");
    b.append(literal.as_str());
    b.append("}");
    b
}

/// The answer to a failed request with status `status` and message `msg`,
/// given what serde_json gave for the message as a string literal: a raised
/// error with the JSON body `{"error":<msg>}`, or, where serde_json failed,
/// the end of the process after writing `msg` and serde_json's reason.
pub fn error_msg_outcome(status: u16, msg: &str, literal: Result<String, String>) -> (o: Outcome)
    ensures
        match literal {
            Ok(l) => o matches Outcome::Reply(r) && r.kind == ReplyKind::Failed && r.status == status
                && r.json && r.body@ == "{\"error\":"@ + l@ + "}"@ && r.log is None,
            Err(e) => o matches Outcome::Exit(lines) && lines@.len() == 2 && lines@[0]@ == msg@
                && lines@[1] == e,
        },
{
    match literal {
        Ok(l) => Outcome::Reply(
            Reply { kind: ReplyKind::Failed, status, json: true, body: frame_error(l), log: None },
        ),
        Err(e) => {
            let mut lines: Vec<String> = Vec::new();
            lines.push(msg.to_string());
            lines.push(e);
            Outcome::Exit(lines)
        },
    }
}

/// Answers a failed request with status `status_code` and the JSON body
/// `{"error":<msg>}`.
pub fn output_error_msg(status_code: u16, msg: &str) -> (o: Outcome)
    ensures
        o matches Outcome::Reply(r) && r.kind == ReplyKind::Failed && r.status == status_code && r.json
            && r.body@ == error_json(msg@) && r.log is None,
{
    let literal = json_string_literal(msg);
    error_msg_outcome(status_code, msg, literal)
}

/// The internal server error answer that logs `msg`, given what serde_json
/// gave for `"InternalServerError"` as a string literal.
pub fn internal_error_outcome(msg: &str, literal: Result<String, String>) -> (o: Outcome)
    ensures
        match literal {
            Ok(l) => o matches Outcome::Reply(r) && r.kind == ReplyKind::Failed
                && r.status == status_internal_error() && r.json
                && r.body@ == "{\"error\":"@ + l@ + "}"@ && (r.log matches Some(g) && g@ == msg@),
            Err(e) => o matches Outcome::Exit(lines) && lines@.len() == 2 && lines@[0]@ == msg@
                && lines@[1] == e,
        },
{
    match literal {
        Ok(l) => Outcome::Reply(
            Reply {
                kind: ReplyKind::Failed,
                status: 500,
                json: true,
                body: frame_error(l),
                log: Some(msg.to_string()),
            },
        ),
        Err(e) => {
            let mut lines: Vec<String> = Vec::new();
            lines.push(msg.to_string());
            lines.push(e);
            Outcome::Exit(lines)
        },
    }
}

/// Answers a request with an internal server error whose body does not show
/// `msg`; `msg` goes to standard error.
pub fn output_error(msg: &str) -> (o: Outcome)
    ensures
        o is Reply,
        answers_internal_error(msg@, o),
{
    let literal = json_string_literal("InternalServerError");
    internal_error_outcome(msg, literal)
}

/// The answer that hands out `token`, given what serde_json gave for it as a
/// string literal: a JSON response `{"Token":<token>}` with status 200, or,
/// where serde_json failed, an internal server error that logs the reason.
pub fn token_outcome(literal: Result<String, String>) -> (o: Outcome)
    ensures
        match literal {
            Ok(l) => o matches Outcome::Reply(r) && r.kind == ReplyKind::Sent
                && r.status == status_ok() && r.json
                && r.body@ == "{\"Token\":"@ + l@ + "}"@ && r.log is None,
            Err(e) => answers_internal_error(e@, o),
        },
{
    match literal {
        Ok(l) => {
            let mut b = String::from_str("{\"Token\":");
            b.append(l.as_str());
            b.append("}");
            Outcome::Reply(Reply { kind: ReplyKind::Sent, status: 200, json: true, body: b, log: None })
        },
        Err(e) => output_error(e.as_str()),
    }
}

/// The answer that hands out `token` as the JSON body `{"Token":<token>}`.
pub fn token_reply(token: &str) -> (o: Outcome)
    ensures
        o matches Outcome::Reply(r) && r.kind == ReplyKind::Sent && r.status == status_ok() && r.json
            && r.body@ == token_json(token@) && r.log is None,
{
    let literal = json_string_literal(token);
    token_outcome(literal)
}

/// A JSON response with status 200 and the given body.
pub fn json_reply(body: String) -> (o: Outcome)
    ensures
        o matches Outcome::Reply(r) && r.kind == ReplyKind::Sent && r.status == status_ok() && r.json
            && r.body == body && r.log is None,
{
    Outcome::Reply(Reply { kind: ReplyKind::Sent, status: 200, json: true, body, log: None })
}

/// The plain `ok` response with status 200 and no content type of its own.
pub fn ok_reply() -> (o: Outcome)
    ensures
        o matches Outcome::Reply(r) && r.kind == ReplyKind::Sent && r.status == status_ok() && !r.json
            && r.body@ == "ok"@ && r.log is None,
{
    Outcome::Reply(Reply { kind: ReplyKind::Sent, status: 200, json: false, body: String::from_str("ok"), log: None })
}

} // verus!
