use goose_api::handlers::{
    add_extension_response, begin_session, end_session_handler, get_provider_config_handler,
    list_extensions_handler, metrics_handler, remove_extension_handler, reply_session_handler,
    start_session_handler, summarize_session_handler, ReplyOutcome, SessionRequest,
    StartSessionBody,
};

#[test]
fn start_session_answers_the_first_reply() {
    let a = start_session_handler(42, ReplyOutcome::Replied("hello".to_string()));
    assert_eq!(a.status_code, 200);
    match a.body {
        StartSessionBody::Started(s) => {
            assert_eq!(s.message, "hello");
            assert_eq!(s.status, "success");
            assert_eq!(s.session_id, 42);
        }
        StartSessionBody::Failed(_) => panic!("expected a started session"),
    }
}

#[test]
fn start_session_without_reply_warns() {
    let a = start_session_handler(7, ReplyOutcome::NoReply);
    assert_eq!(a.status_code, 200);
    match a.body {
        StartSessionBody::Started(s) => {
            assert_eq!(s.message, "Session started but no response generated");
            assert_eq!(s.status, "warning");
            assert_eq!(s.session_id, 7);
        }
        StartSessionBody::Failed(_) => panic!("expected a started session"),
    }
}

#[test]
fn start_session_failure_is_a_server_error() {
    let a = start_session_handler(7, ReplyOutcome::Failed("no provider".to_string()));
    assert_eq!(a.status_code, 500);
    match a.body {
        StartSessionBody::Failed(f) => {
            assert_eq!(f.message, "Failed to start session: no provider");
            assert_eq!(f.status, "error");
        }
        StartSessionBody::Started(_) => panic!("expected a failure"),
    }
}

#[test]
fn begin_session_keeps_the_prompt() {
    let a = begin_session(SessionRequest { prompt: "start".repeat(1000) });
    let b = begin_session(SessionRequest { prompt: "x".to_string() });
    assert_eq!(a.prompt.len(), 5000);
    assert_eq!(b.prompt, "x");
    assert_ne!(a.session_id, b.session_id);
    for id in [a.session_id, b.session_id] {
        assert_eq!(id & 0xF000C000000000000000u128, 0x40008000000000000000u128);
        assert_ne!(id, 0);
    }
}

#[test]
fn reply_answers() {
    let a = reply_session_handler(Some(ReplyOutcome::Replied("pong".to_string())));
    assert_eq!(a.status_code, 200);
    assert_eq!(a.body.message, "Reply: pong");
    assert_eq!(a.body.status, "success");

    let a = reply_session_handler(None);
    assert_eq!(a.status_code, 404);
    assert_eq!(a.body.message, "Session not found");
    assert_eq!(a.body.status, "error");

    let a = reply_session_handler(Some(ReplyOutcome::Failed("boom".to_string())));
    assert_eq!(a.status_code, 500);
    assert_eq!(a.body.message, "Failed to reply to session: boom");
    assert_eq!(a.body.status, "error");
}

#[test]
fn reply_without_response_warns() {
    let a = reply_session_handler(Some(ReplyOutcome::NoReply));
    assert_eq!(a.status_code, 200);
    assert_eq!(a.body.status, "warning");
    assert_eq!(a.body.message, "Reply processed but no response generated");
}

#[test]
fn summarize_answers() {
    let a = summarize_session_handler(Some(ReplyOutcome::Replied("short".to_string())));
    assert_eq!(a.status_code, 200);
    assert_eq!(a.body.message, "Summary: short");
    assert_eq!(a.body.status, "success");
    let a = summarize_session_handler(None);
    assert_eq!(a.status_code, 404);
    assert_eq!(a.body.message, "Session not found");
    let a = summarize_session_handler(Some(ReplyOutcome::NoReply));
    assert_eq!(a.body.status, "warning");
    let a = summarize_session_handler(Some(ReplyOutcome::Failed("e".to_string())));
    assert_eq!(a.status_code, 500);
    assert_eq!(a.body.message, "Failed to summarize session: e");
}

#[test]
fn end_session_answers() {
    let a = end_session_handler(true);
    assert_eq!(a.status_code, 200);
    assert_eq!(a.body.message, "Session ended");
    assert_eq!(a.body.status, "success");
    let a = end_session_handler(false);
    assert_eq!(a.status_code, 404);
    assert_eq!(a.body.message, "Session not found");
    assert_eq!(a.body.status, "error");
}

#[test]
fn list_extensions_answers() {
    let r = list_extensions_handler(Ok(vec!["developer".to_string(), "memory".to_string()]));
    assert_eq!(r.extensions, vec!["developer".to_string(), "memory".to_string()]);
    let r = list_extensions_handler(Ok(vec![]));
    assert!(r.extensions.is_empty());
    let r = list_extensions_handler(Err("down".to_string()));
    assert_eq!(r.extensions, vec!["Failed to list extensions".to_string()]);
}

#[test]
fn provider_config_defaults_to_not_configured() {
    let r = get_provider_config_handler(None, None);
    assert_eq!(r.provider, "Not configured");
    assert_eq!(r.model, "Not configured");
    let r = get_provider_config_handler(Some("openai".to_string()), None);
    assert_eq!(r.provider, "openai");
    assert_eq!(r.model, "Not configured");
    let r = get_provider_config_handler(None, Some("gpt-4o".to_string()));
    assert_eq!(r.provider, "Not configured");
    assert_eq!(r.model, "gpt-4o");
}

#[test]
fn extension_responses() {
    let r = add_extension_response(Ok(()));
    assert!(!r.error);
    assert!(r.message.is_none());
    let r = add_extension_response(Err("Duplicate".to_string()));
    assert!(r.error);
    assert_eq!(r.message.as_deref(), Some("Failed to add extension configuration, error: Duplicate"));
    let r = remove_extension_handler();
    assert!(!r.error);
    assert!(r.message.is_none());
    let m = metrics_handler();
    assert_eq!(m.message, "ok");
    assert_eq!(m.status, "success");
}
