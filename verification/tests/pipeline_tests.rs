use dictation_core::inject::ModifierKey;
use dictation_core::pipeline::Action;
use dictation_core::pipeline::CompletionKind;
use dictation_core::pipeline::Orchestrator;
use dictation_core::polish::FallbackReason;
use dictation_core::polish::PolishOutcome;
use dictation_core::polish::RemoteReply;

const KEY: &str = "validkey123";
const URL: &str = "https://generativelanguage.googleapis.com/v1beta/models/gemini-2.5-flash:generateContent?key=validkey123";

fn keys_as_string(keys: &[char]) -> String {
    keys.iter().collect()
}

#[test]
fn blank_input_short_circuits() {
    let mut o = Orchestrator::new();
    let a = o.begin("  ", KEY);
    assert!(matches!(a, Action::Complete(CompletionKind::BlankInput)));
    assert!(!o.is_busy());
}

#[test]
fn empty_input_short_circuits() {
    let mut o = Orchestrator::new();
    let a = o.begin("", KEY);
    assert!(matches!(a, Action::Complete(CompletionKind::BlankInput)));
}

#[test]
fn unicode_whitespace_counts_as_blank() {
    let mut o = Orchestrator::new();
    let a = o.begin("\u{3000}\u{00A0}\t\r\n", KEY);
    assert!(matches!(a, Action::Complete(CompletionKind::BlankInput)));
}

#[test]
fn short_credential_aborts_silently() {
    let mut o = Orchestrator::new();
    let a = o.begin("test", "ab");
    assert!(matches!(a, Action::Complete(CompletionKind::MissingCredential)));
    assert!(!o.is_busy());
}

#[test]
fn credential_threshold_is_six_bytes() {
    let mut o = Orchestrator::new();
    let a = o.begin("test", "abcde");
    assert!(matches!(a, Action::Complete(CompletionKind::MissingCredential)));
    let a = o.begin("test", "abcdef");
    assert!(matches!(a, Action::SendRequest { .. }));
    // Three two-byte characters reach the byte threshold as well.
    let mut o2 = Orchestrator::new();
    let a = o2.begin("test", "ééé");
    assert!(matches!(a, Action::SendRequest { .. }));
}

#[test]
fn successful_reply_injects_polished_text() {
    let mut o = Orchestrator::with_delays(0, 0);
    let a = o.begin("i am going to the store today um", KEY);
    let (url, body) = match a {
        Action::SendRequest { url, body } => (url, body),
        _ => panic!("expected a request"),
    };
    assert_eq!(url, URL);
    assert_eq!(
        body,
        "{\"contents\":[{\"parts\":[{\"text\":\"Fix grammar and remove fillers. Output ONLY the polished text:\\n\\ni am going to the store today um\"}]}]}"
    );
    let reply = RemoteReply::Response {
        success: true,
        body: "{\"candidates\":[{\"content\":{\"parts\":[{\"text\":\"I am going to the store today.\"}]}}]}".to_string(),
    };
    let a = o.on_reply(&reply);
    match a {
        Action::YieldFocus { settle_delay_ms, outcome } => {
            assert_eq!(settle_delay_ms, 0);
            match outcome {
                PolishOutcome::Polished(t) => assert_eq!(t, "I am going to the store today."),
                _ => panic!("expected a polished outcome"),
            }
        },
        _ => panic!("expected a focus yield"),
    }
    let a = o.on_focus_settled();
    match a {
        Action::Inject { plan } => {
            assert_eq!(keys_as_string(&plan.keys), "I am going to the store today.");
            assert_eq!(plan.releases, vec![ModifierKey::Control, ModifierKey::Shift]);
            assert_eq!(plan.inter_key_delay_ms, 0);
        },
        _ => panic!("expected an injection"),
    }
    let a = o.on_injection_complete();
    assert!(matches!(a, Action::Complete(CompletionKind::Finished)));
    assert!(!o.is_busy());
}

#[test]
fn transport_failure_falls_back_to_raw_text() {
    let mut o = Orchestrator::with_delays(0, 0);
    let a = o.begin("hello world", KEY);
    assert!(matches!(a, Action::SendRequest { .. }));
    let a = o.on_reply(&RemoteReply::TransportFailure);
    match a {
        Action::YieldFocus { outcome, .. } => match outcome {
            PolishOutcome::Fallback(t, reason) => {
                assert_eq!(t, "hello world");
                assert_eq!(reason, FallbackReason::Network);
            },
            _ => panic!("expected a fallback"),
        },
        _ => panic!("expected a focus yield"),
    }
    let a = o.on_focus_settled();
    match a {
        Action::Inject { plan } => assert_eq!(keys_as_string(&plan.keys), "hello world"),
        _ => panic!("expected an injection"),
    }
    assert!(matches!(o.on_injection_complete(), Action::Complete(CompletionKind::Finished)));
}

#[test]
fn non_success_status_falls_back_to_raw_text() {
    let mut o = Orchestrator::with_delays(0, 0);
    o.begin("hello world", KEY);
    let reply = RemoteReply::Response {
        success: false,
        body: "{\"error\":{\"message\":\"quota exceeded\"}}".to_string(),
    };
    let a = o.on_reply(&reply);
    match a {
        Action::YieldFocus { outcome, .. } => match outcome {
            PolishOutcome::Fallback(t, reason) => {
                assert_eq!(t, "hello world");
                assert_eq!(reason, FallbackReason::RemoteStatus);
            },
            _ => panic!("expected a fallback"),
        },
        _ => panic!("expected a focus yield"),
    }
}

#[test]
fn malformed_body_falls_back_to_raw_text() {
    let mut o = Orchestrator::with_delays(0, 0);
    o.begin("hello world", KEY);
    let reply = RemoteReply::Response { success: true, body: "not json at all".to_string() };
    let a = o.on_reply(&reply);
    match a {
        Action::YieldFocus { outcome, .. } => match outcome {
            PolishOutcome::Fallback(t, reason) => {
                assert_eq!(t, "hello world");
                assert_eq!(reason, FallbackReason::MalformedBody);
            },
            _ => panic!("expected a fallback"),
        },
        _ => panic!("expected a focus yield"),
    }
    match o.on_focus_settled() {
        Action::Inject { plan } => assert_eq!(keys_as_string(&plan.keys), "hello world"),
        _ => panic!("expected an injection"),
    }
}

#[test]
fn missing_text_field_falls_back_to_raw_text() {
    let mut o = Orchestrator::with_delays(0, 0);
    o.begin("hello world", KEY);
    let reply = RemoteReply::Response {
        success: true,
        body: "{\"candidates\":[]}".to_string(),
    };
    match o.on_reply(&reply) {
        Action::YieldFocus { outcome, .. } => {
            assert!(matches!(outcome, PolishOutcome::Fallback(_, FallbackReason::MalformedBody)));
        },
        _ => panic!("expected a focus yield"),
    }
}

#[test]
fn whitespace_only_candidate_falls_back_to_raw_text() {
    let mut o = Orchestrator::with_delays(0, 0);
    o.begin("hello world", KEY);
    let reply = RemoteReply::Response {
        success: true,
        body: "{\"candidates\":[{\"content\":{\"parts\":[{\"text\":\"   \"}]}}]}".to_string(),
    };
    match o.on_reply(&reply) {
        Action::YieldFocus { outcome, .. } => match outcome {
            PolishOutcome::Fallback(t, reason) => {
                assert_eq!(t, "hello world");
                assert_eq!(reason, FallbackReason::EmptyPolish);
            },
            _ => panic!("expected a fallback"),
        },
        _ => panic!("expected a focus yield"),
    }
}

#[test]
fn candidate_text_is_trimmed() {
    let mut o = Orchestrator::with_delays(0, 0);
    o.begin("hi there", KEY);
    let reply = RemoteReply::Response {
        success: true,
        body: "{\"candidates\":[{\"content\":{\"parts\":[{\"text\":\"  Hi there.  \"}]}}]}".to_string(),
    };
    match o.on_reply(&reply) {
        Action::YieldFocus { outcome, .. } => match outcome {
            PolishOutcome::Polished(t) => assert_eq!(t, "Hi there."),
            _ => panic!("expected a polished outcome"),
        },
        _ => panic!("expected a focus yield"),
    }
}

#[test]
fn second_request_is_rejected_while_in_flight() {
    let mut o = Orchestrator::with_delays(0, 0);
    let a = o.begin("first request", KEY);
    assert!(matches!(a, Action::SendRequest { .. }));
    assert!(o.is_busy());
    let a = o.begin("second request", KEY);
    assert!(matches!(a, Action::Reject));
    // The first request is unharmed and still runs to completion.
    let a = o.on_reply(&RemoteReply::TransportFailure);
    assert!(matches!(a, Action::YieldFocus { .. }));
    let a = o.begin("third request", KEY);
    assert!(matches!(a, Action::Reject));
    match o.on_focus_settled() {
        Action::Inject { plan } => assert_eq!(keys_as_string(&plan.keys), "first request"),
        _ => panic!("expected an injection"),
    }
    assert!(matches!(o.on_injection_complete(), Action::Complete(CompletionKind::Finished)));
    assert!(!o.is_busy());
    let a = o.begin("fourth request", KEY);
    assert!(matches!(a, Action::SendRequest { .. }));
}

#[test]
fn events_in_the_wrong_phase_are_ignored() {
    let mut o = Orchestrator::new();
    assert!(matches!(o.on_reply(&RemoteReply::TransportFailure), Action::Ignore));
    assert!(matches!(o.on_focus_settled(), Action::Ignore));
    assert!(matches!(o.on_injection_complete(), Action::Ignore));
    let a = o.begin("hello", KEY);
    assert!(matches!(a, Action::SendRequest { .. }));
    assert!(matches!(o.on_focus_settled(), Action::Ignore));
    assert!(matches!(o.on_injection_complete(), Action::Ignore));
}

#[test]
fn default_delays_are_the_reference_values() {
    let mut o = Orchestrator::new();
    o.begin("hello there", KEY);
    let a = o.on_reply(&RemoteReply::TransportFailure);
    match a {
        Action::YieldFocus { settle_delay_ms, .. } => assert_eq!(settle_delay_ms, 800),
        _ => panic!("expected a focus yield"),
    }
    match o.on_focus_settled() {
        Action::Inject { plan } => assert_eq!(plan.inter_key_delay_ms, 5),
        _ => panic!("expected an injection"),
    }
}
