use apple_intelligence::bridge::{
    availability_outcome, close_session_outcome, create_session_outcome, dispatch_result, finish,
    tool_result_request, tool_resolution_result, NativeCall,
};
use apple_intelligence::cstring::check_c_string;
use apple_intelligence::error::PluginError;
use apple_intelligence::registry::{PendingKind, PendingRequests};
use apple_intelligence::session::CompletionPayload;

fn native_text<T: std::fmt::Debug>(r: Result<T, PluginError>) -> String {
    match r {
        Err(PluginError::Native(m)) => m,
        other => panic!("expected a native error, got {:?}", other),
    }
}

fn payload(ok: bool, text: &str) -> Option<CompletionPayload> {
    Some(CompletionPayload { ok, text: text.to_string() })
}

#[test]
fn c_strings_reject_interior_nul() {
    assert!(check_c_string("hello").is_ok());
    assert!(check_c_string("").is_ok());
    assert!(check_c_string("héllo wörld").is_ok());
    match check_c_string("a\0b") {
        Err(PluginError::InvalidInput(m)) => assert_eq!(m, "string contains NUL"),
        other => panic!("unexpected {:?}", other),
    }
    assert!(check_c_string("\0").is_err());
    assert!(check_c_string("end\0").is_err());
}

#[test]
fn dispatch_status_zero_is_success() {
    for call in [
        NativeCall::Respond(1),
        NativeCall::RespondStream(1),
        NativeCall::ImgAvailability,
        NativeCall::ImgGenerate,
    ] {
        assert!(dispatch_result(call, 0).is_ok());
        assert!(dispatch_result(call, 1).is_err());
    }
}

#[test]
fn dispatch_failures_name_the_entry_point() {
    assert_eq!(
        native_text(dispatch_result(NativeCall::ImgGenerate, -1)),
        "img_generate returned -1"
    );
    assert_eq!(
        native_text(dispatch_result(NativeCall::ImgGenerate, 12)),
        "img_generate returned 12"
    );
    assert_eq!(
        native_text(dispatch_result(NativeCall::ImgAvailability, 5)),
        "img_availability returned non-zero"
    );
    assert_eq!(
        native_text(dispatch_result(NativeCall::ImgGenerate, i32::MIN)),
        "img_generate returned -2147483648"
    );
}

#[test]
fn refused_responses_name_the_missing_session() {
    match dispatch_result(NativeCall::Respond(12), 3) {
        Err(e @ PluginError::SessionNotFound(12)) => assert_eq!(e.message(), "session 12 not found"),
        other => panic!("unexpected {:?}", other),
    }
    assert!(matches!(
        dispatch_result(NativeCall::RespondStream(5), -1),
        Err(PluginError::SessionNotFound(5))
    ));
}

#[test]
fn refused_dispatch_empties_the_slot() {
    let mut pending: PendingRequests<&str> = PendingRequests::new();
    let a = pending.begin(PendingKind::Completion, "a");
    let b = pending.begin(PendingKind::Completion, "b");
    let s = pending.begin(PendingKind::Stream, "s");
    assert!(pending.settle(PendingKind::Completion, NativeCall::Respond(8), a, 0).is_ok());
    assert_eq!(pending.len(PendingKind::Completion), 2);
    assert!(matches!(
        pending.settle(PendingKind::Completion, NativeCall::Respond(8), a, 2),
        Err(PluginError::SessionNotFound(8))
    ));
    assert_eq!(pending.len(PendingKind::Completion), 1);
    assert!(pending.chunk_sink(PendingKind::Completion, a, "x").is_none());
    assert_eq!(pending.chunk_sink(PendingKind::Completion, b, "x"), Some(&"b"));
    assert_eq!(
        native_text(pending.settle(PendingKind::Image, NativeCall::ImgGenerate, s, 1)),
        "img_generate returned 1"
    );
    assert_eq!(pending.len(PendingKind::Stream), 1);
}

#[test]
fn finished_requests_yield_text_or_mapped_error() {
    assert_eq!(finish(NativeCall::Respond(1), payload(true, "Hello there")).unwrap(), "Hello there");
    assert!(matches!(
        finish(NativeCall::Respond(1), payload(false, "exceededContextWindowSize")),
        Err(PluginError::ContextWindowExceeded)
    ));
    assert!(matches!(
        finish(NativeCall::RespondStream(1), payload(false, "unsupportedLanguageOrLocale")),
        Err(PluginError::UnsupportedLanguageOrLocale)
    ));
    assert_eq!(native_text(finish(NativeCall::Respond(1), payload(false, "oops"))), "oops");
    assert!(matches!(
        finish(NativeCall::ImgAvailability, payload(false, "notSupported")),
        Err(PluginError::ImageNotSupported)
    ));
    assert!(matches!(
        finish(NativeCall::ImgGenerate, payload(false, "creationFailed")),
        Err(PluginError::ImageCreationFailed)
    ));
    // A text-model error name is just text for image generation.
    assert_eq!(
        native_text(finish(NativeCall::ImgGenerate, payload(false, "exceededContextWindowSize"))),
        "exceededContextWindowSize"
    );
    assert_eq!(
        finish(NativeCall::ImgAvailability, payload(true, "{\"available\":true}")).unwrap(),
        "{\"available\":true}"
    );
}

#[test]
fn dropped_channels_have_their_own_texts() {
    assert_eq!(native_text(finish(NativeCall::Respond(1), None)), "completion channel dropped");
    assert_eq!(
        native_text(finish(NativeCall::RespondStream(1), None)),
        "stream completion channel dropped"
    );
    assert_eq!(
        native_text(finish(NativeCall::ImgAvailability, None)),
        "img availability channel dropped"
    );
    assert_eq!(
        native_text(finish(NativeCall::ImgGenerate, None)),
        "img generation channel dropped"
    );
}

#[test]
fn availability_needs_a_report() {
    assert_eq!(
        availability_outcome(Some("{\"available\":true}".into())).unwrap(),
        "{\"available\":true}"
    );
    assert_eq!(native_text(availability_outcome(None)), "ai_availability returned null");
}

#[test]
fn session_creation_outcomes() {
    assert_eq!(create_session_outcome(0, 17, None).unwrap(), 17);
    assert_eq!(create_session_outcome(0, 17, Some("ignored".into())).unwrap(), 17);
    assert_eq!(native_text(create_session_outcome(1, 0, Some("no model".into()))), "no model");
    assert_eq!(native_text(create_session_outcome(-3, 0, None)), "unknown");
}

#[test]
fn closing_an_unknown_session_fails() {
    assert!(close_session_outcome(9, 0).is_ok());
    match close_session_outcome(9, 1) {
        Err(e @ PluginError::SessionNotFound(9)) => {
            assert_eq!(e.message(), "session 9 not found")
        },
        other => panic!("unexpected {:?}", other),
    }
}

#[test]
fn tool_results_carry_an_error_flag() {
    let value: serde_json::Value = serde_json::from_str("{\"temp\":21}").unwrap();
    let (text, flag) = tool_result_request(&value, false).unwrap();
    assert_eq!(text, "{\"temp\":21}");
    assert_eq!(flag, 0);
    let (text, flag) = tool_result_request(&serde_json::Value::String("failed".into()), true).unwrap();
    assert_eq!(text, "\"failed\"");
    assert_eq!(flag, 1);
    assert!(tool_resolution_result(0).is_ok());
    assert_eq!(native_text(tool_resolution_result(4)), "ai_resolve_tool_call returned 4");
}

#[test]
fn tool_result_with_nul_is_escaped_not_refused() {
    let value = serde_json::Value::String("a\0b".into());
    let (text, flag) = tool_result_request(&value, false).unwrap();
    assert_eq!(text, "\"a\\u0000b\"");
    assert!(!text.contains('\0'));
    assert_eq!(flag, 0);
}
