use isuketch::reply::{
    error_msg_outcome, internal_error_outcome, json_reply, ok_reply, output_error, output_error_msg,
    token_outcome, token_reply, Outcome, Reply, ReplyKind,
};

fn reply_of(o: Outcome) -> Reply {
    match o {
        Outcome::Reply(r) => r,
        Outcome::Exit(lines) => panic!("unexpected exit: {:?}", lines),
    }
}

#[test]
fn internal_error_hides_message_and_logs_it() {
    let r = reply_of(output_error("Table 'isuketch.rooms' doesn't exist"));
    assert_eq!(r.kind, ReplyKind::Failed);
    assert_eq!(r.status, 500);
    assert!(r.json);
    assert_eq!(r.body, "{\"error\":\"InternalServerError\"}");
    assert_eq!(r.log, Some("Table 'isuketch.rooms' doesn't exist".to_string()));
}

#[test]
fn error_message_is_escaped_in_json() {
    let r = reply_of(output_error_msg(400, "bad \"token\"\n\\ \u{1}\t\u{7f}é"));
    assert_eq!(r.kind, ReplyKind::Failed);
    assert_eq!(r.status, 400);
    assert!(r.json);
    assert_eq!(r.body, "{\"error\":\"bad \\\"token\\\"\\n\\\\ \\u0001\\t\u{7f}é\"}");
    assert_eq!(r.log, None);
    let parsed: serde_json::Value = serde_json::from_str(&r.body).unwrap();
    assert_eq!(parsed["error"], "bad \"token\"\n\\ \u{1}\t\u{7f}é");
}

#[test]
fn error_message_control_characters() {
    let r = reply_of(output_error_msg(403, "\u{8}\u{c}\r\u{1f}\u{0}"));
    assert_eq!(r.body, "{\"error\":\"\\b\\f\\r\\u001f\\u0000\"}");
}

#[test]
fn error_msg_outcome_frames_literal() {
    let r = reply_of(error_msg_outcome(404, "x", Ok("\"x\"".to_string())));
    assert_eq!(r.body, "{\"error\":\"x\"}");
    assert_eq!(r.status, 404);
    assert_eq!(r.kind, ReplyKind::Failed);
}

#[test]
fn error_msg_outcome_exits_on_encoding_failure() {
    match error_msg_outcome(500, "boom", Err("encoding failed".to_string())) {
        Outcome::Exit(lines) => assert_eq!(lines, vec!["boom".to_string(), "encoding failed".to_string()]),
        Outcome::Reply(_) => panic!("expected an exit"),
    }
}

#[test]
fn internal_error_outcome_cases() {
    let r = reply_of(internal_error_outcome("db down", Ok("\"InternalServerError\"".to_string())));
    assert_eq!(r.body, "{\"error\":\"InternalServerError\"}");
    assert_eq!(r.log, Some("db down".to_string()));
    match internal_error_outcome("db down", Err("no".to_string())) {
        Outcome::Exit(lines) => assert_eq!(lines, vec!["db down".to_string(), "no".to_string()]),
        Outcome::Reply(_) => panic!("expected an exit"),
    }
}

#[test]
fn token_reply_body() {
    let r = reply_of(token_reply("3f2a"));
    assert_eq!(r.kind, ReplyKind::Sent);
    assert_eq!(r.status, 200);
    assert!(r.json);
    assert_eq!(r.body, "{\"Token\":\"3f2a\"}");
    assert_eq!(r.log, None);
}

#[test]
fn token_outcome_failure_is_internal_error() {
    let r = reply_of(token_outcome(Err("cannot encode".to_string())));
    assert_eq!(r.status, 500);
    assert_eq!(r.body, "{\"error\":\"InternalServerError\"}");
    assert_eq!(r.log, Some("cannot encode".to_string()));
}

#[test]
fn json_and_ok_replies() {
    let r = reply_of(json_reply("{\"RoomResp\":[]}".to_string()));
    assert_eq!((r.kind, r.status, r.json), (ReplyKind::Sent, 200, true));
    assert_eq!(r.body, "{\"RoomResp\":[]}");
    let r = reply_of(ok_reply());
    assert_eq!((r.kind, r.status, r.json), (ReplyKind::Sent, 200, false));
    assert_eq!(r.body, "ok");
}

#[test]
fn error_and_token_bodies_read_back() {
    for message in ["", "a\"b", "line\nbreak \\ \u{1}\u{1f}", "ünï©ødé \u{7f}"] {
        let r = reply_of(output_error_msg(404, message));
        let parsed: serde_json::Value = serde_json::from_str(&r.body).unwrap();
        let object = parsed.as_object().unwrap();
        assert_eq!(object.len(), 1);
        assert_eq!(object["error"], message);
        let r = reply_of(token_reply(message));
        let parsed: serde_json::Value = serde_json::from_str(&r.body).unwrap();
        let object = parsed.as_object().unwrap();
        assert_eq!(object.len(), 1);
        assert_eq!(object["Token"], message);
    }
}
