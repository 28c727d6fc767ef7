use pjsua_rust::account::{account_settings, RetryTimers, RtpPorts};
use pjsua_rust::logging::{log_message_body, log_severity, LogSeverity};
use pjsua_rust::session::{
    account_info_from, begin_init, call_info_from, contains_nul, init_plan, next_init_step,
    nameserver_update, ports_from_ids, player_port_result, published_address_precheck,
    recorder_port_result, removal_after_delete, resolver_update_result, sip_url_precheck,
    sip_url_result, thread_name, transaction_timers, transport_settings, InitStage, InitStep,
    RawCallInfo, RemovalStep, ResolverUpdate, PJSIP_EBUSY,
};
use pjsua_rust::{
    AccountConfig, AccountId, CallId, CallState, ConfPort, MediaStatus, PjError, PjsuaConfig,
    PlayerId, RecorderId, SrtpMode, SrtpSecureSignaling, TlsConfig, TransportType, Use100Rel,
};

#[test]
fn init_plan_truncates_nameservers() {
    let cfg = PjsuaConfig {
        nameservers: vec!["1.1.1.1".into(), "8.8.8.8".into(), "9.9.9.9".into(), "8.8.4.4".into(), "1.0.0.1".into()],
        user_agent: Some("agent/1".into()),
        ..Default::default()
    };
    let plan = init_plan(&cfg);
    assert_eq!(plan.nameservers, vec!["1.1.1.1", "8.8.8.8", "9.9.9.9", "8.8.4.4"]);
    assert_eq!(plan.ignored_nameservers, 1);
    assert_eq!(plan.user_agent.as_deref(), Some("agent/1"));
    assert_eq!(plan.log_level, 3);
    assert_eq!(plan.console_level, 0);
    assert_eq!(plan.clock_rate, 16000);
    assert!(plan.null_audio);
}

#[test]
fn init_sequence() {
    assert!(matches!(begin_init(true), Err(PjError::AlreadyInitialized)));
    assert_eq!(begin_init(false).unwrap(), InitStage::Create);
    assert_eq!(next_init_step(InitStage::Create, 0, true), InitStep::Run(InitStage::Init));
    assert_eq!(next_init_step(InitStage::Init, 0, true), InitStep::Run(InitStage::SetNullSound));
    assert_eq!(next_init_step(InitStage::Init, 0, false), InitStep::Run(InitStage::Start));
    assert_eq!(next_init_step(InitStage::SetNullSound, 0, true), InitStep::Run(InitStage::Start));
    assert_eq!(next_init_step(InitStage::Start, 0, true), InitStep::Started);
    assert_eq!(
        next_init_step(InitStage::Create, 70001, true),
        InitStep::Failed { status: 70001, destroy: false }
    );
    assert_eq!(
        next_init_step(InitStage::Start, 70001, true),
        InitStep::Failed { status: 70001, destroy: true }
    );
}

#[test]
fn timers() {
    assert_eq!(transaction_timers(32), (500, 32000));
    assert_eq!(transaction_timers(10), (156, 10000));
    assert_eq!(transaction_timers(0), (0, 0));
}

#[test]
fn nameserver_updates() {
    assert!(nameserver_update(&vec![]).is_none());
    assert_eq!(nameserver_update(&vec!["8.8.8.8".to_string()]).unwrap(), vec!["8.8.8.8"]);
    assert!(matches!(
        resolver_update_result(ResolverUpdate::NoEndpoint, String::new()),
        Err(PjError::NotInitialized)
    ));
    assert!(resolver_update_result(ResolverUpdate::NoResolver, String::new()).is_ok());
    assert!(resolver_update_result(ResolverUpdate::Applied(0), String::new()).is_ok());
    match resolver_update_result(ResolverUpdate::Applied(70004), "bad".into()) {
        Err(PjError::Pjsip { status, message }) => {
            assert_eq!(status, 70004);
            assert_eq!(message, "bad");
        }
        other => panic!("unexpected {:?}", other),
    }
}

#[test]
fn transport_settings_for_tls() {
    let tls = TlsConfig {
        ca_list_path: Some("/etc/ssl/certs".into()),
        verify_server: true,
        ..Default::default()
    };
    let s = transport_settings(TransportType::Tls, Some("0.0.0.0"), 5061, Some(&tls), Some(46));
    assert_eq!(s.transport_type, 3);
    assert_eq!(s.port, 5061);
    assert_eq!(s.qos, Some((1, 46)));
    assert_eq!(s.bound_addr.as_deref(), Some("0.0.0.0"));
    let t = s.tls.unwrap();
    assert_eq!(t.ca_list_path.as_deref(), Some("/etc/ssl/certs"));
    assert!(t.ca_list_file.is_none());
    assert_eq!(t.verify_server, 1);
    assert_eq!(t.verify_client, 0);
    assert!(t.cipher_list.is_none());
    let leveled = TlsConfig { security_level: Some(1), ..Default::default() };
    let s = transport_settings(TransportType::Tls, None, 5061, Some(&leveled), None);
    assert_eq!(s.tls.unwrap().cipher_list.as_deref(), Some("DEFAULT:@SECLEVEL=1"));
    let plain = transport_settings(TransportType::Udp, None, 0, None, None);
    assert_eq!(plain.transport_type, 1);
    assert!(plain.qos.is_none());
    assert!(plain.bound_addr.is_none());
    assert!(plain.tls.is_none());
}

#[test]
fn removal_retries_when_busy() {
    assert!(matches!(removal_after_delete(1, PJSIP_EBUSY, String::new()), RemovalStep::RetryAfter(200)));
    assert!(matches!(removal_after_delete(2, PJSIP_EBUSY, String::new()), RemovalStep::RetryAfter(500)));
    assert!(matches!(removal_after_delete(3, PJSIP_EBUSY, String::new()), RemovalStep::Finished(Ok(()))));
    assert!(matches!(removal_after_delete(3, 70004, String::new()), RemovalStep::Finished(Ok(()))));
    assert!(matches!(removal_after_delete(1, 0, String::new()), RemovalStep::Finished(Ok(()))));
    match removal_after_delete(2, 70004, "bad".into()) {
        RemovalStep::Finished(Err(PjError::Pjsip { status, .. })) => assert_eq!(status, 70004),
        other => panic!("unexpected {:?}", other),
    }
}

#[test]
fn account_and_call_records() {
    let info = account_info_from(2, "sip:a@b".into(), 200, "OK".into());
    assert_eq!(info.account_id, AccountId(2));
    assert!(info.is_registered);
    assert_eq!(info.status_code, 200);
    assert!(!account_info_from(2, String::new(), 403, String::new()).is_registered);
    assert!(!account_info_from(2, String::new(), 300, String::new()).is_registered);
    let call = call_info_from(RawCallInfo {
        id: 1,
        acc_id: 0,
        remote_info: "sip:x@y".into(),
        state: 5,
        media_status: 1,
        conf_slot: 3,
        connect_sec: 12,
        connect_msec: 345,
        total_sec: 15,
        total_msec: 6,
        last_status: 200,
        call_id: "cid".into(),
    });
    assert_eq!(call.call_id, CallId(1));
    assert_eq!(call.state, CallState::Confirmed);
    assert_eq!(call.media_status, MediaStatus::Active);
    assert_eq!(call.conf_port, ConfPort(3));
    assert_eq!(call.connect_duration_ms, 12345);
    assert_eq!(call.total_duration_ms, 15006);
    assert_eq!(call.sip_call_id, "cid");
}

#[test]
fn conference_ports() {
    assert_eq!(ports_from_ids(&[0, 4, 9, 77], 3), vec![ConfPort(0), ConfPort(4), ConfPort(9)]);
    assert_eq!(player_port_result(PlayerId(2), 5).unwrap(), ConfPort(5));
    match player_port_result(PlayerId(2), -1) {
        Err(e) => assert_eq!(e.to_string(), "Not found: player 2"),
        Ok(p) => panic!("unexpected {:?}", p),
    }
    match recorder_port_result(RecorderId(7), -1) {
        Err(e) => assert_eq!(e.to_string(), "Not found: recorder 7"),
        Ok(p) => panic!("unexpected {:?}", p),
    }
}

#[test]
fn c_string_checks() {
    assert!(contains_nul("a\0b"));
    assert!(!contains_nul("sip:a@b"));
    assert!(sip_url_precheck("sip:a@b").is_ok());
    assert_eq!(sip_url_precheck("sip:\0").unwrap_err().to_string(), "Invalid argument: URL contains null byte");
    assert!(sip_url_result("sip:a@b", 0).is_ok());
    assert_eq!(
        sip_url_result("nonsense", 171039).unwrap_err().to_string(),
        "Invalid argument: invalid SIP URL: nonsense"
    );
    assert_eq!(
        published_address_precheck("1.2.3.4\0").unwrap_err().to_string(),
        "Invalid argument: invalid address string"
    );
    assert_eq!(thread_name("worker"), "worker");
    assert_eq!(thread_name("bad\0name"), "rust");
}

#[test]
fn account_settings_defaults() {
    let cfg = AccountConfig {
        username: "6013".into(),
        password: "secret".into(),
        server: "192.168.10.10".into(),
        ..Default::default()
    };
    let s = account_settings(&cfg);
    assert_eq!(s.id_uri, "sip:6013@192.168.10.10");
    assert_eq!(s.reg_uri, "sip:192.168.10.10:5060");
    assert_eq!(s.cred_realm, "*");
    assert_eq!(s.cred_scheme, "digest");
    assert_eq!(s.cred_username, "6013");
    assert_eq!(s.cred_password, "secret");
    assert_eq!(s.cred_data_type, 0);
    assert_eq!(s.use_srtp, 0);
    assert!(!s.allow_contact_rewrite && !s.allow_via_rewrite && !s.allow_sdp_nat_rewrite);
    assert!(s.reg_timeout.is_none());
    assert!(s.proxy.is_none());
    assert!(s.retry.is_none());
    assert!(s.rtp.is_none());
    assert!(s.transport_id.is_none());
    assert!(s.require_100rel.is_none());
    assert!(s.srtp_secure_signaling.is_none());
}

#[test]
fn account_settings_overrides() {
    let cfg = AccountConfig {
        username: "6013".into(),
        password: "secret".into(),
        server: "pbx".into(),
        auth_username: Some("auth".into()),
        realm: Some("asterisk".into()),
        srtp: SrtpMode::Mandatory,
        reg_timeout: Some(120),
        proxy: Some("sip:proxy;lr".into()),
        reg_retry_interval: Some(10),
        rtp_port_start: Some(4000),
        rtp_port_range: Some(100),
        transport_id: Some(2),
        require_100rel: Some(Use100Rel::Optional),
        srtp_secure_signaling: Some(SrtpSecureSignaling::Any),
        ..Default::default()
    };
    let s = account_settings(&cfg);
    assert_eq!(s.cred_realm, "asterisk");
    assert_eq!(s.cred_username, "auth");
    assert_eq!(s.use_srtp, 2);
    assert_eq!(s.reg_timeout, Some(120));
    assert_eq!(s.proxy.as_deref(), Some("sip:proxy;lr"));
    assert_eq!(
        s.retry,
        Some(RetryTimers { retry_interval: 10, first_retry_interval: 10, random_interval: 2 })
    );
    assert_eq!(s.rtp, Some(RtpPorts { port: 4000, port_range: Some(100) }));
    assert_eq!(s.transport_id, Some(2));
    assert_eq!(s.require_100rel, Some(2));
    assert_eq!(s.srtp_secure_signaling, Some(0));
    // A range without a start port is not applied.
    let only_range = AccountConfig { rtp_port_range: Some(100), ..Default::default() };
    assert!(account_settings(&only_range).rtp.is_none());
}

#[test]
fn log_lines() {
    assert_eq!(log_severity(1), LogSeverity::Error);
    assert_eq!(log_severity(2), LogSeverity::Warn);
    assert_eq!(log_severity(3), LogSeverity::Info);
    assert_eq!(log_severity(4), LogSeverity::Debug);
    assert_eq!(log_severity(5), LogSeverity::Trace);
    assert_eq!(log_severity(0), LogSeverity::Trace);
    assert_eq!(
        log_message_body("12:34:56.789         pjsua_core.c  PJSUA state changed\n"),
        "pjsua_core.c  PJSUA state changed"
    );
    assert_eq!(log_message_body("  short line \n"), "short line");
    assert_eq!(log_message_body("no timestamp in this message"), "no timestamp in this message");
    assert_eq!(log_message_body("12:34:56.789 hello world!"), "hello world!");
    assert_eq!(log_message_body("12:34:56.789"), "");
    assert_eq!(log_message_body("12:34 short"), "12:34 short");
    assert_eq!(log_message_body("ab:cd:ef.ghi not a time stamp"), "ab:cd:ef.ghi not a time stamp");
}
