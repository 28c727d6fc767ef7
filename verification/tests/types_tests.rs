use pjsua_rust::types::{
    PJSIP_INV_STATE_CONFIRMED, PJSIP_INV_STATE_DISCONNECTED, PJSUA_CALL_MEDIA_ACTIVE,
    PJSUA_CALL_MEDIA_NONE,
};
use pjsua_rust::{
    AccountConfig, AccountId, CallId, CallState, ConfPort, DtmfMethod, MediaStatus, PjsuaConfig,
    PlayerId, RecorderId, SrtpMode, SrtpSecureSignaling, TlsConfig, TransportId, TransportType,
    Use100Rel,
};

#[test]
fn conf_port_master() {
    assert_eq!(ConfPort::master().0, 0);
}

#[test]
fn account_id_equality() {
    assert_eq!(AccountId(1), AccountId(1));
    assert_ne!(AccountId(1), AccountId(2));
}

#[test]
fn call_id_equality() {
    assert_eq!(CallId(0), CallId(0));
    assert_ne!(CallId(0), CallId(1));
}

#[test]
fn transport_type_to_pjsip() {
    // Just verify the conversions don't panic and produce distinct values
    let udp = TransportType::Udp.to_pjsip();
    let tcp = TransportType::Tcp.to_pjsip();
    let tls = TransportType::Tls.to_pjsip();
    assert_ne!(udp, tcp);
    assert_ne!(tcp, tls);
}

#[test]
fn transport_type_display() {
    assert_eq!(TransportType::Udp.to_string(), "udp");
    assert_eq!(TransportType::Tcp.to_string(), "tcp");
    assert_eq!(TransportType::Tls.to_string(), "tls");
}

#[test]
fn transport_type_deserialize() {
    let w: toml::Table = "t = \"udp\"".parse().unwrap();
    let t = TransportType::from_name(w["t"].as_str().unwrap()).unwrap();
    assert_eq!(t, TransportType::Udp);
}

#[test]
fn transport_type_names_round_trip() {
    for t in [TransportType::Udp, TransportType::Tcp, TransportType::Tls] {
        assert_eq!(TransportType::from_name(&t.to_string()), Some(t));
    }
    assert_eq!(TransportType::from_name("UDP"), None);
    assert_eq!(TransportType::from_name(""), None);
}

#[test]
fn srtp_mode_to_pjsip() {
    let disabled = SrtpMode::Disabled.to_pjsip();
    let optional = SrtpMode::Optional.to_pjsip();
    let mandatory = SrtpMode::Mandatory.to_pjsip();
    assert_ne!(disabled, optional);
    assert_ne!(optional, mandatory);
}

#[test]
fn registrar_uri_a_record_includes_port() {
    // Default (dns_srv = false): explicit port is present, suppressing SRV.
    let cfg = AccountConfig {
        server: "sip.example.com".into(),
        port: 5060,
        ..Default::default()
    };
    assert_eq!(cfg.registrar_uri(), "sip:sip.example.com:5060");
}

#[test]
fn registrar_uri_srv_udp_omits_port() {
    // UDP + SRV: bare host, no transport param, so PJSIP queries _sip._udp.
    let cfg = AccountConfig {
        server: "sip.example.com".into(),
        port: 5060,
        dns_srv: true,
        ..Default::default()
    };
    assert_eq!(cfg.registrar_uri(), "sip:sip.example.com");
}

#[test]
fn registrar_uri_srv_tls_keeps_transport_omits_port() {
    // TLS + SRV: transport param retained so the SRV service tag matches,
    // but the explicit port is dropped so resolution goes via SRV.
    let cfg = AccountConfig {
        server: "sip.example.com".into(),
        port: 5061,
        transport: TransportType::Tls,
        dns_srv: true,
        ..Default::default()
    };
    assert_eq!(cfg.registrar_uri(), "sip:sip.example.com;transport=tls");
}

#[test]
fn registrar_uri_custom_registrar_ignores_dns_srv() {
    // An explicit registrar override always wins, SRV flag notwithstanding.
    let cfg = AccountConfig {
        server: "sip.example.com".into(),
        registrar: Some("sip:reg.example.com:5070".into()),
        dns_srv: true,
        ..Default::default()
    };
    assert_eq!(cfg.registrar_uri(), "sip:reg.example.com:5070");
}

#[test]
fn registrar_uri_server_with_port_ignores_dns_srv() {
    let a = AccountConfig {
        server: "sip.example.com:5070".into(),
        dns_srv: true,
        ..Default::default()
    };
    let b = AccountConfig { dns_srv: false, ..a.clone() };
    assert_eq!(a.registrar_uri(), "sip:sip.example.com:5070");
    assert_eq!(b.registrar_uri(), a.registrar_uri());
    let v6 = AccountConfig { server: "[2001:db8::1]".into(), ..Default::default() };
    assert_eq!(v6.registrar_uri(), "sip:[2001:db8::1]:5060");
    let v6_port = AccountConfig { server: "[2001:db8::1]:5070".into(), ..Default::default() };
    assert_eq!(v6_port.registrar_uri(), "sip:[2001:db8::1]:5070");
    let bare_v6 = AccountConfig { server: "2001:db8::1".into(), ..Default::default() };
    assert_eq!(bare_v6.registrar_uri(), "sip:2001:db8::1:5060");
}

#[test]
fn call_state_from_pjsip() {
    assert_eq!(
        CallState::from_pjsip(PJSIP_INV_STATE_CONFIRMED),
        CallState::Confirmed
    );
    assert_eq!(
        CallState::from_pjsip(PJSIP_INV_STATE_DISCONNECTED),
        CallState::Disconnected
    );
}

#[test]
fn call_state_unknown() {
    assert_eq!(CallState::from_pjsip(99999), CallState::Unknown(99999));
}

#[test]
fn call_state_display() {
    assert_eq!(CallState::Confirmed.to_string(), "CONFIRMED");
    assert_eq!(CallState::Unknown(42).to_string(), "UNKNOWN(42)");
}

#[test]
fn media_status_from_pjsip() {
    assert_eq!(
        MediaStatus::from_pjsip(PJSUA_CALL_MEDIA_ACTIVE),
        MediaStatus::Active
    );
    assert_eq!(
        MediaStatus::from_pjsip(PJSUA_CALL_MEDIA_NONE),
        MediaStatus::NoMedia
    );
}

#[test]
fn media_status_unknown() {
    assert_eq!(MediaStatus::from_pjsip(99999), MediaStatus::Unknown(99999));
}

#[test]
fn tls_config_default() {
    let cfg = TlsConfig::default();
    assert!(cfg.ca_list_file.is_none());
    assert!(cfg.ca_list_path.is_none());
    assert!(cfg.cert_file.is_none());
    assert!(cfg.privkey_file.is_none());
    assert!(cfg.password.is_none());
    assert!(!cfg.verify_server);
    assert!(!cfg.verify_client);
}

#[test]
fn pjsua_config_default() {
    let cfg = PjsuaConfig::default();
    assert_eq!(cfg.log_level, 3);
    assert_eq!(cfg.clock_rate, 16000);
    assert!(cfg.null_audio);
}

#[test]
fn account_config_sip_uri() {
    let cfg = AccountConfig {
        username: "6013".into(),
        server: "192.168.10.10".into(),
        ..Default::default()
    };
    assert_eq!(cfg.sip_uri(), "sip:6013@192.168.10.10");
    assert_eq!(cfg.registrar_uri(), "sip:192.168.10.10:5060");
}

#[test]
fn account_config_sip_uri_with_display_name() {
    let cfg = AccountConfig {
        username: "6013".into(),
        server: "192.168.10.10".into(),
        display_name: Some("Alice".into()),
        ..Default::default()
    };
    assert_eq!(cfg.sip_uri(), "\"Alice\" <sip:6013@192.168.10.10>");
}

#[test]
fn account_config_use_sips() {
    let cfg = AccountConfig {
        username: "6013".into(),
        server: "192.168.10.10".into(),
        port: 5061,
        transport: TransportType::Tls,
        use_sips: true,
        ..Default::default()
    };
    // sips: scheme implies TLS — no ;transport= needed
    assert_eq!(cfg.sip_uri(), "sips:6013@192.168.10.10");
    assert_eq!(cfg.registrar_uri(), "sips:192.168.10.10:5061");
}

#[test]
fn account_config_tls_without_sips() {
    let cfg = AccountConfig {
        username: "user".into(),
        server: "sip.linphone.org".into(),
        port: 5061,
        transport: TransportType::Tls,
        use_sips: false,
        ..Default::default()
    };
    // TLS transport without sips: scheme needs ;transport=tls
    assert_eq!(cfg.sip_uri(), "sip:user@sip.linphone.org;transport=tls");
    assert_eq!(
        cfg.registrar_uri(),
        "sip:sip.linphone.org:5061;transport=tls"
    );
}

#[test]
fn account_config_tcp_transport() {
    let cfg = AccountConfig {
        username: "user".into(),
        server: "pbx.example.com".into(),
        transport: TransportType::Tcp,
        ..Default::default()
    };
    assert_eq!(cfg.sip_uri(), "sip:user@pbx.example.com;transport=tcp");
    assert_eq!(
        cfg.registrar_uri(),
        "sip:pbx.example.com:5060;transport=tcp"
    );
}

#[test]
fn account_config_custom_registrar() {
    let cfg = AccountConfig {
        username: "6013".into(),
        server: "192.168.10.10".into(),
        registrar: Some("sip:registrar.example.com".into()),
        ..Default::default()
    };
    assert_eq!(cfg.registrar_uri(), "sip:registrar.example.com");
}

#[test]
fn media_status_display() {
    assert_eq!(MediaStatus::Active.to_string(), "ACTIVE");
    assert_eq!(MediaStatus::NoMedia.to_string(), "NONE");
    assert_eq!(MediaStatus::LocalHold.to_string(), "LOCAL_HOLD");
    assert_eq!(MediaStatus::RemoteHold.to_string(), "REMOTE_HOLD");
    assert_eq!(MediaStatus::Error.to_string(), "ERROR");
    assert_eq!(MediaStatus::Unknown(42).to_string(), "UNKNOWN(42)");
}

#[test]
fn srtp_mode_display() {
    assert_eq!(SrtpMode::Disabled.to_string(), "disabled");
    assert_eq!(SrtpMode::Optional.to_string(), "optional");
    assert_eq!(SrtpMode::Mandatory.to_string(), "mandatory");
}

#[test]
fn dtmf_method_display() {
    assert_eq!(DtmfMethod::Rfc2833.to_string(), "RFC2833");
    assert_eq!(DtmfMethod::SipInfo.to_string(), "SIP-INFO");
}

#[test]
fn id_display() {
    assert_eq!(AccountId(5).to_string(), "5");
    assert_eq!(CallId(3).to_string(), "3");
    assert_eq!(TransportId(1).to_string(), "1");
    assert_eq!(ConfPort(0).to_string(), "0");
    assert_eq!(PlayerId(2).to_string(), "2");
    assert_eq!(RecorderId(7).to_string(), "7");
}

#[test]
fn account_config_default() {
    let cfg = AccountConfig::default();
    assert_eq!(cfg.port, 5060);
    assert_eq!(cfg.transport, TransportType::Udp);
    assert_eq!(cfg.srtp, SrtpMode::Disabled);
    assert!(!cfg.use_sips);
    assert!(cfg.access_code.is_none());
    assert!(cfg.display_name.is_none());
    assert!(cfg.auth_username.is_none());
    assert!(cfg.realm.is_none());
    assert!(cfg.reg_timeout.is_none());
    assert!(cfg.registrar.is_none());
    assert!(cfg.proxy.is_none());
}

#[test]
fn account_config_with_access_code() {
    let cfg = AccountConfig {
        access_code: Some("1234".into()),
        ..Default::default()
    };
    assert_eq!(cfg.access_code.as_deref(), Some("1234"));
}

#[test]
fn native_codes_and_names() {
    assert_eq!(TransportType::Udp.to_pjsip(), 1);
    assert_eq!(TransportType::Tcp.to_pjsip(), 2);
    assert_eq!(TransportType::Tls.to_pjsip(), 3);
    assert_eq!(SrtpMode::Mandatory.to_pjsip(), 2);
    assert_eq!(SrtpSecureSignaling::Any.to_pjsip(), 0);
    assert_eq!(SrtpSecureSignaling::EndToEndSips.to_pjsip(), 2);
    assert_eq!(SrtpSecureSignaling::TlsOrSips.to_string(), "tls_or_sips");
    assert_eq!(Use100Rel::Optional.to_pjsip(), 2);
    assert_eq!(Use100Rel::default(), Use100Rel::NotUsed);
    assert_eq!(SrtpSecureSignaling::default(), SrtpSecureSignaling::TlsOrSips);
    assert_eq!(TransportType::default(), TransportType::Udp);
    assert_eq!(SrtpMode::default(), SrtpMode::Disabled);
    assert_eq!(CallState::from_pjsip(0), CallState::Null);
    assert_eq!(CallState::from_pjsip(7), CallState::Unknown(7));
    assert_eq!(MediaStatus::from_pjsip(4), MediaStatus::Error);
    assert_eq!(MediaStatus::from_pjsip(5), MediaStatus::Unknown(5));
    assert_eq!(AccountId(-12).to_string(), "-12");
}

#[test]
fn display_name_with_tcp_transport() {
    let cfg = AccountConfig {
        username: "u".into(),
        server: "h".into(),
        transport: TransportType::Tcp,
        display_name: Some("Bob".into()),
        use_sips: true,
        ..Default::default()
    };
    assert_eq!(cfg.sip_uri(), "\"Bob\" <sips:u@h;transport=tcp>");
    assert_eq!(cfg.registrar_uri(), "sips:h:5060;transport=tcp");
}

#[test]
fn srtp_mode_deserialize() {
    let w: toml::Table = "s = \"disabled\"".parse().unwrap();
    let s = SrtpMode::from_name(w["s"].as_str().unwrap()).unwrap();
    assert_eq!(s, SrtpMode::Disabled);
}

#[test]
fn srtp_mode_names_round_trip() {
    for m in [SrtpMode::Disabled, SrtpMode::Optional, SrtpMode::Mandatory] {
        assert_eq!(SrtpMode::from_name(&m.to_string()), Some(m));
    }
    assert_eq!(SrtpMode::from_name("required"), None);
}
