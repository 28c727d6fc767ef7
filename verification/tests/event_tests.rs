use pjsua_rust::event::{
    call_state_event, cseq_header_value, dtmf_event, incoming_call_event, media_state_event,
    registration_event, response_summary, sip_trace_event, text_before_nul, text_from_bytes,
    transfer_status_event, EventSink,
};
use pjsua_rust::{AccountId, CallId, CallState, ConfPort, MediaStatus, SipEvent, TraceDirection};

#[test]
fn sip_event_debug() {
    let event = SipEvent::RegistrationState {
        account_id: AccountId(0),
        code: 200,
        reason: "OK".into(),
        is_registered: true,
        reg_last_error: None,
    };
    let debug = format!("{:?}", event);
    assert!(debug.contains("RegistrationState"));
    assert!(debug.contains("200"));
}

#[test]
fn sip_event_clone() {
    let event = SipEvent::IncomingCall {
        account_id: AccountId(1),
        call_id: CallId(0),
        remote_uri: "sip:alice@example.com".into(),
        local_uri: "sip:bob@example.com".into(),
        sip_call_id: "test-call-id".into(),
    };
    let cloned = event.clone();
    let debug_orig = format!("{:?}", event);
    let debug_clone = format!("{:?}", cloned);
    assert_eq!(debug_orig, debug_clone);
}

#[test]
fn sip_event_call_state_debug() {
    let event = SipEvent::CallState {
        call_id: CallId(42),
        account_id: AccountId(0),
        state: CallState::Confirmed,
        last_code: 200,
        last_reason: "OK".into(),
    };
    let debug = format!("{:?}", event);
    assert!(debug.contains("CallState"));
    assert!(debug.contains("Confirmed"));
}

#[test]
fn sip_event_media_state_debug() {
    let event = SipEvent::CallMediaState {
        call_id: CallId(0),
        account_id: AccountId(0),
        media_status: MediaStatus::Active,
        conf_port: Some(ConfPort(1)),
    };
    let debug = format!("{:?}", event);
    assert!(debug.contains("CallMediaState"));
    assert!(debug.contains("Active"));
}

#[test]
fn sip_event_dtmf_debug() {
    let event = SipEvent::DtmfDigit {
        call_id: CallId(0),
        digit: '5',
    };
    let debug = format!("{:?}", event);
    assert!(debug.contains("DtmfDigit"));
    assert!(debug.contains('5'));
}

#[test]
fn sip_event_transfer_status_debug() {
    let event = SipEvent::TransferStatus {
        call_id: CallId(1),
        status_code: 200,
        status_text: "OK".into(),
        is_final: true,
    };
    let debug = format!("{:?}", event);
    assert!(debug.contains("TransferStatus"));
    assert!(debug.contains("200"));
    assert!(debug.contains("true"));
}

#[test]
fn registration_event_classifies_code() {
    match registration_event(3, 200, "OK".into(), 0) {
        SipEvent::RegistrationState { account_id, code, is_registered, reg_last_error, .. } => {
            assert_eq!(account_id, AccountId(3));
            assert_eq!(code, 200);
            assert!(is_registered);
            assert_eq!(reg_last_error, None);
        }
        other => panic!("unexpected {:?}", other),
    }
    match registration_event(3, 408, "Request Timeout".into(), 70018) {
        SipEvent::RegistrationState { code, is_registered, reg_last_error, .. } => {
            assert_eq!(code, 408);
            assert!(!is_registered);
            assert_eq!(reg_last_error, Some(70018));
        }
        other => panic!("unexpected {:?}", other),
    }
    // 65736 wraps to 200 as a 16-bit code.
    match registration_event(0, 65736, String::new(), 0) {
        SipEvent::RegistrationState { code, is_registered, .. } => {
            assert_eq!(code, 200);
            assert!(is_registered);
        }
        other => panic!("unexpected {:?}", other),
    }
}

#[test]
fn media_event_reports_port_only_when_active() {
    match media_state_event(1, 0, 1, 4) {
        SipEvent::CallMediaState { media_status, conf_port, .. } => {
            assert_eq!(media_status, MediaStatus::Active);
            assert_eq!(conf_port, Some(ConfPort(4)));
        }
        other => panic!("unexpected {:?}", other),
    }
    match media_state_event(1, 0, 2, 4) {
        SipEvent::CallMediaState { media_status, conf_port, .. } => {
            assert_eq!(media_status, MediaStatus::LocalHold);
            assert_eq!(conf_port, None);
        }
        other => panic!("unexpected {:?}", other),
    }
}

#[test]
fn call_state_and_incoming_events() {
    match call_state_event(7, 2, 5, 200, "OK".into()) {
        SipEvent::CallState { call_id, account_id, state, last_code, last_reason } => {
            assert_eq!(call_id, CallId(7));
            assert_eq!(account_id, AccountId(2));
            assert_eq!(state, CallState::Confirmed);
            assert_eq!(last_code, 200);
            assert_eq!(last_reason, "OK");
        }
        other => panic!("unexpected {:?}", other),
    }
    match incoming_call_event(1, 9, "sip:a@x".into(), "sip:b@x".into(), "cid".into()) {
        SipEvent::IncomingCall { account_id, call_id, remote_uri, local_uri, sip_call_id } => {
            assert_eq!(account_id, AccountId(1));
            assert_eq!(call_id, CallId(9));
            assert_eq!(remote_uri, "sip:a@x");
            assert_eq!(local_uri, "sip:b@x");
            assert_eq!(sip_call_id, "cid");
        }
        other => panic!("unexpected {:?}", other),
    }
}

#[test]
fn dtmf_and_transfer_events() {
    match dtmf_event(0, '#' as u32) {
        SipEvent::DtmfDigit { digit, .. } => assert_eq!(digit, '#'),
        other => panic!("unexpected {:?}", other),
    }
    let (event, cont) = transfer_status_event(1, 180, "Ringing".into(), 0);
    assert_eq!(cont, 1);
    match event {
        SipEvent::TransferStatus { status_code, is_final, .. } => {
            assert_eq!(status_code, 180);
            assert!(!is_final);
        }
        other => panic!("unexpected {:?}", other),
    }
    let (event, cont) = transfer_status_event(1, 200, "OK".into(), 1);
    assert_eq!(cont, 0);
    match event {
        SipEvent::TransferStatus { is_final, .. } => assert!(is_final),
        other => panic!("unexpected {:?}", other),
    }
}

#[test]
fn trace_event_texts() {
    match sip_trace_event(1, Some(b"INVITE"), Some(b"abc@host"), Some(b"v=0")) {
        SipEvent::SipMessageTrace { call_id, account_id, info } => {
            assert_eq!(call_id, CallId(-1));
            assert_eq!(account_id, AccountId(-1));
            assert_eq!(info.direction, TraceDirection::Sent);
            assert_eq!(info.method_or_status, "INVITE");
            assert_eq!(info.sip_call_id, "abc@host");
            assert_eq!(info.sdp.as_deref(), Some("v=0"));
            assert!(info.headers.is_empty());
            assert!(info.raw.is_none());
        }
        other => panic!("unexpected {:?}", other),
    }
    match sip_trace_event(0, None, None, None) {
        SipEvent::SipMessageTrace { info, .. } => {
            assert_eq!(info.direction, TraceDirection::Received);
            assert_eq!(info.method_or_status, "");
            assert_eq!(info.sip_call_id, "");
            assert!(info.sdp.is_none());
        }
        other => panic!("unexpected {:?}", other),
    }
}

#[test]
fn text_from_c_buffers() {
    assert_eq!(text_from_bytes(b"sip:user@example.com"), "sip:user@example.com");
    assert_eq!(text_from_bytes(&[0x66, 0xff, 0x6f]), "f\u{fffd}o");
    assert_eq!(text_before_nul(b"Success\0garbage"), "Success");
    assert_eq!(text_before_nul(b"no terminator"), "no terminator");
    assert_eq!(text_before_nul(b"\0"), "");
}

#[test]
fn status_lines() {
    assert_eq!(response_summary(200, "OK"), "200 OK");
    assert_eq!(cseq_header_value(1, "INVITE"), "1 INVITE");
}

#[test]
fn event_sink_drops_without_sender() {
    let mut sink = EventSink::new();
    assert!(!sink.send_event(SipEvent::DtmfDigit { call_id: CallId(0), digit: '1' }));
    let (tx, mut rx) = tokio::sync::mpsc::unbounded_channel();
    sink.set_event_sender(tx);
    assert!(sink.send_event(SipEvent::DtmfDigit { call_id: CallId(0), digit: '2' }));
    match rx.try_recv() {
        Ok(SipEvent::DtmfDigit { digit, .. }) => assert_eq!(digit, '2'),
        other => panic!("unexpected {:?}", other),
    }
    sink.clear_event_sender();
    assert!(!sink.send_event(SipEvent::DtmfDigit { call_id: CallId(0), digit: '3' }));
}

#[test]
fn event_sink_delivers_in_order() {
    let mut sink = EventSink::new();
    let (tx, mut rx) = tokio::sync::mpsc::unbounded_channel();
    sink.set_event_sender(tx);
    for d in ['1', '2', '3'] {
        assert!(sink.send_event(SipEvent::DtmfDigit { call_id: CallId(7), digit: d }));
    }
    for d in ['1', '2', '3'] {
        match rx.try_recv() {
            Ok(SipEvent::DtmfDigit { digit, call_id }) => {
                assert_eq!(digit, d);
                assert_eq!(call_id, CallId(7));
            }
            other => panic!("unexpected {:?}", other),
        }
    }
    assert!(rx.try_recv().is_err());
    drop(rx);
    assert!(!sink.send_event(SipEvent::DtmfDigit { call_id: CallId(7), digit: '4' }));
}
