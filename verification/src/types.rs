//! Identifiers, enumerations and configuration records of the SIP user agent.

use std::collections::HashMap;
use vstd::prelude::*;
use crate::text::{int_decimal, nat_decimal, push_decimal_i64, push_decimal_u64};

verus! {

// ---------------------------------------------------------------------------
// Native constant values of the PJSIP enumerations that this crate maps.
// ---------------------------------------------------------------------------

/// `PJSIP_TRANSPORT_UDP`.
pub const PJSIP_TRANSPORT_UDP: u32 = 1;
/// `PJSIP_TRANSPORT_TCP`.
pub const PJSIP_TRANSPORT_TCP: u32 = 2;
/// `PJSIP_TRANSPORT_TLS`.
pub const PJSIP_TRANSPORT_TLS: u32 = 3;

/// `PJMEDIA_SRTP_DISABLED`.
pub const PJMEDIA_SRTP_DISABLED: u32 = 0;
/// `PJMEDIA_SRTP_OPTIONAL`.
pub const PJMEDIA_SRTP_OPTIONAL: u32 = 1;
/// `PJMEDIA_SRTP_MANDATORY`.
pub const PJMEDIA_SRTP_MANDATORY: u32 = 2;

/// `PJSIP_INV_STATE_NULL` .. `PJSIP_INV_STATE_DISCONNECTED`.
pub const PJSIP_INV_STATE_NULL: u32 = 0;
pub const PJSIP_INV_STATE_CALLING: u32 = 1;
pub const PJSIP_INV_STATE_INCOMING: u32 = 2;
pub const PJSIP_INV_STATE_EARLY: u32 = 3;
pub const PJSIP_INV_STATE_CONNECTING: u32 = 4;
pub const PJSIP_INV_STATE_CONFIRMED: u32 = 5;
pub const PJSIP_INV_STATE_DISCONNECTED: u32 = 6;

/// `PJSUA_CALL_MEDIA_NONE` .. `PJSUA_CALL_MEDIA_ERROR`.
pub const PJSUA_CALL_MEDIA_NONE: u32 = 0;
pub const PJSUA_CALL_MEDIA_ACTIVE: u32 = 1;
pub const PJSUA_CALL_MEDIA_LOCAL_HOLD: u32 = 2;
pub const PJSUA_CALL_MEDIA_REMOTE_HOLD: u32 = 3;
pub const PJSUA_CALL_MEDIA_ERROR: u32 = 4;

/// A copy of an optional text.
pub(crate) fn clone_opt(s: &Option<String>) -> (r: Option<String>)
    ensures
        r == *s,
{
    match s {
        Some(v) => Some(v.clone()),
        None => None,
    }
}

fn owned(s: &str) -> (r: String)
    ensures
        r@ == s@,
{
    String::from_str(s)
}

// ---------------------------------------------------------------------------
// Opaque IDs (newtypes for type safety)
// ---------------------------------------------------------------------------

/// A PJSUA account ID.
#[derive(Debug, Clone, Copy, PartialEq, Eq, Hash, Structural)]
pub struct AccountId(pub i32);

/// A PJSUA call ID.
#[derive(Debug, Clone, Copy, PartialEq, Eq, Hash, Structural)]
pub struct CallId(pub i32);

/// A PJSUA transport ID.
#[derive(Debug, Clone, Copy, PartialEq, Eq, Hash, Structural)]
pub struct TransportId(pub i32);

/// A conference bridge port number.
#[derive(Debug, Clone, Copy, PartialEq, Eq, Hash, Structural)]
pub struct ConfPort(pub i32);

/// A WAV player ID.
#[derive(Debug, Clone, Copy, PartialEq, Eq, Hash, Structural)]
pub struct PlayerId(pub i32);

/// A WAV recorder ID.
#[derive(Debug, Clone, Copy, PartialEq, Eq, Hash, Structural)]
pub struct RecorderId(pub i32);

impl AccountId {
    /// The decimal text of the ID.
    pub fn to_string(&self) -> (s: String)
        ensures
            s@ == int_decimal(self.0 as int),
    {
        let mut s = String::new();
        push_decimal_i64(&mut s, self.0 as i64);
        s
    }
}

impl CallId {
    /// The decimal text of the ID.
    pub fn to_string(&self) -> (s: String)
        ensures
            s@ == int_decimal(self.0 as int),
    {
        let mut s = String::new();
        push_decimal_i64(&mut s, self.0 as i64);
        s
    }
}

impl TransportId {
    /// The decimal text of the ID.
    pub fn to_string(&self) -> (s: String)
        ensures
            s@ == int_decimal(self.0 as int),
    {
        let mut s = String::new();
        push_decimal_i64(&mut s, self.0 as i64);
        s
    }
}

impl ConfPort {
    /// The master/sound device conference port (port 0).
    pub fn master() -> (p: ConfPort)
        ensures
            p.0 == 0,
    {
        ConfPort(0)
    }

    /// The decimal text of the port number.
    pub fn to_string(&self) -> (s: String)
        ensures
            s@ == int_decimal(self.0 as int),
    {
        let mut s = String::new();
        push_decimal_i64(&mut s, self.0 as i64);
        s
    }
}

impl PlayerId {
    /// The decimal text of the ID.
    pub fn to_string(&self) -> (s: String)
        ensures
            s@ == int_decimal(self.0 as int),
    {
        let mut s = String::new();
        push_decimal_i64(&mut s, self.0 as i64);
        s
    }
}

impl RecorderId {
    /// The decimal text of the ID.
    pub fn to_string(&self) -> (s: String)
        ensures
            s@ == int_decimal(self.0 as int),
    {
        let mut s = String::new();
        push_decimal_i64(&mut s, self.0 as i64);
        s
    }
}

// ---------------------------------------------------------------------------
// Enums
// ---------------------------------------------------------------------------

/// SIP transport type.
#[derive(Debug, Clone, Copy, PartialEq, Eq, Structural)]
pub enum TransportType {
    Udp,
    Tcp,
    Tls,
}

impl Default for TransportType {
    fn default() -> (t: Self)
        ensures
            t == TransportType::Udp,
    {
        TransportType::Udp
    }
}

/// The native PJSIP value of a transport type.
pub open spec fn transport_code(t: TransportType) -> u32 {
    match t {
        TransportType::Udp => PJSIP_TRANSPORT_UDP,
        TransportType::Tcp => PJSIP_TRANSPORT_TCP,
        TransportType::Tls => PJSIP_TRANSPORT_TLS,
    }
}

/// The lowercase name of a transport type, as written in configuration files.
pub open spec fn transport_name(t: TransportType) -> Seq<char> {
    match t {
        TransportType::Udp => "udp"@,
        TransportType::Tcp => "tcp"@,
        TransportType::Tls => "tls"@,
    }
}

/// The transport type that a configuration file names: the lowercase name,
/// exactly.
pub open spec fn transport_named(name: Seq<char>) -> Option<TransportType> {
    if name == "udp"@ {
        Some(TransportType::Udp)
    } else if name == "tcp"@ {
        Some(TransportType::Tcp)
    } else if name == "tls"@ {
        Some(TransportType::Tls)
    } else {
        None
    }
}

fn same_text(a: &String, b: &str) -> (r: bool)
    ensures
        r == (a@ == b@),
{
    *a == String::from_str(b)
}

impl TransportType {
    /// The transport type named `name` in a configuration file (`udp`,
    /// `tcp` or `tls`, lowercase); any other text names none.
    pub fn from_name(name: &str) -> (r: Option<TransportType>)
        ensures
            r == transport_named(name@),
    {
        let s = String::from_str(name);
        if same_text(&s, "udp") {
            Some(TransportType::Udp)
        } else if same_text(&s, "tcp") {
            Some(TransportType::Tcp)
        } else if same_text(&s, "tls") {
            Some(TransportType::Tls)
        } else {
            None
        }
    }

    /// Convert to the PJSIP C enum value.
    pub fn to_pjsip(self) -> (code: u32)
        ensures
            code == transport_code(self),
    {
        match self {
            TransportType::Udp => PJSIP_TRANSPORT_UDP,
            TransportType::Tcp => PJSIP_TRANSPORT_TCP,
            TransportType::Tls => PJSIP_TRANSPORT_TLS,
        }
    }

    /// The lowercase name (`udp`, `tcp`, `tls`).
    pub fn to_string(&self) -> (s: String)
        ensures
            s@ == transport_name(*self),
    {
        match self {
            TransportType::Udp => owned("udp"),
            TransportType::Tcp => owned("tcp"),
            TransportType::Tls => owned("tls"),
        }
    }
}

/// SRTP usage mode.
#[derive(Debug, Clone, Copy, PartialEq, Eq, Structural)]
pub enum SrtpMode {
    Disabled,
    Optional,
    Mandatory,
}

impl Default for SrtpMode {
    fn default() -> (m: Self)
        ensures
            m == SrtpMode::Disabled,
    {
        SrtpMode::Disabled
    }
}

/// The native PJMEDIA value of an SRTP mode.
pub open spec fn srtp_code(m: SrtpMode) -> u32 {
    match m {
        SrtpMode::Disabled => PJMEDIA_SRTP_DISABLED,
        SrtpMode::Optional => PJMEDIA_SRTP_OPTIONAL,
        SrtpMode::Mandatory => PJMEDIA_SRTP_MANDATORY,
    }
}

/// The lowercase name of an SRTP mode, as written in configuration files.
pub open spec fn srtp_name(m: SrtpMode) -> Seq<char> {
    match m {
        SrtpMode::Disabled => "disabled"@,
        SrtpMode::Optional => "optional"@,
        SrtpMode::Mandatory => "mandatory"@,
    }
}

/// The SRTP mode that a configuration file names: the lowercase name, exactly.
pub open spec fn srtp_named(name: Seq<char>) -> Option<SrtpMode> {
    if name == "disabled"@ {
        Some(SrtpMode::Disabled)
    } else if name == "optional"@ {
        Some(SrtpMode::Optional)
    } else if name == "mandatory"@ {
        Some(SrtpMode::Mandatory)
    } else {
        None
    }
}

/// The name that a transport type or an SRTP mode is written with is the
/// name that reads back as it: `to_string` and `from_name` are inverse.
pub proof fn law_names_round_trip(t: TransportType, m: SrtpMode)
    ensures
        transport_named(transport_name(t)) == Some(t),
        srtp_named(srtp_name(m)) == Some(m),
{
    reveal_strlit("udp");
    reveal_strlit("tcp");
    reveal_strlit("tls");
    reveal_strlit("disabled");
    reveal_strlit("optional");
    reveal_strlit("mandatory");
    assert("tcp"@[0] != "udp"@[0]);
    assert("tls"@[0] != "udp"@[0] && "tls"@[1] != "tcp"@[1]);
    assert("optional"@[0] != "disabled"@[0]);
    assert("mandatory"@[0] != "disabled"@[0] && "mandatory"@[0] != "optional"@[0]);
}

impl SrtpMode {
    /// The SRTP mode named `name` in a configuration file (`disabled`,
    /// `optional` or `mandatory`, lowercase); any other text names none.
    pub fn from_name(name: &str) -> (r: Option<SrtpMode>)
        ensures
            r == srtp_named(name@),
    {
        let s = String::from_str(name);
        if same_text(&s, "disabled") {
            Some(SrtpMode::Disabled)
        } else if same_text(&s, "optional") {
            Some(SrtpMode::Optional)
        } else if same_text(&s, "mandatory") {
            Some(SrtpMode::Mandatory)
        } else {
            None
        }
    }

    /// Convert to the PJMEDIA C enum value.
    pub fn to_pjsip(self) -> (code: u32)
        ensures
            code == srtp_code(self),
    {
        match self {
            SrtpMode::Disabled => PJMEDIA_SRTP_DISABLED,
            SrtpMode::Optional => PJMEDIA_SRTP_OPTIONAL,
            SrtpMode::Mandatory => PJMEDIA_SRTP_MANDATORY,
        }
    }

    /// The lowercase name (`disabled`, `optional`, `mandatory`).
    pub fn to_string(&self) -> (s: String)
        ensures
            s@ == srtp_name(*self),
    {
        match self {
            SrtpMode::Disabled => owned("disabled"),
            SrtpMode::Optional => owned("optional"),
            SrtpMode::Mandatory => owned("mandatory"),
        }
    }
}

/// Minimum signalling-security level required before SRTP is offered
/// (`pjsua_acc_config.srtp_secure_signaling`: 0, 1 or 2).
#[derive(Debug, Clone, Copy, PartialEq, Eq, Structural)]
pub enum SrtpSecureSignaling {
    /// Accept SRTP regardless of signalling transport.
    Any,
    /// Require TLS or `sips:` signalling (PJSIP default).
    TlsOrSips,
    /// Require end-to-end `sips:` signalling.
    EndToEndSips,
}

impl Default for SrtpSecureSignaling {
    fn default() -> (s: Self)
        ensures
            s == SrtpSecureSignaling::TlsOrSips,
    {
        SrtpSecureSignaling::TlsOrSips
    }
}

/// The numeric level of a secure-signalling requirement.
pub open spec fn secure_signaling_code(s: SrtpSecureSignaling) -> u32 {
    match s {
        SrtpSecureSignaling::Any => 0,
        SrtpSecureSignaling::TlsOrSips => 1,
        SrtpSecureSignaling::EndToEndSips => 2,
    }
}

/// The snake-case name of a secure-signalling requirement.
pub open spec fn secure_signaling_name(s: SrtpSecureSignaling) -> Seq<char> {
    match s {
        SrtpSecureSignaling::Any => "any"@,
        SrtpSecureSignaling::TlsOrSips => "tls_or_sips"@,
        SrtpSecureSignaling::EndToEndSips => "end_to_end_sips"@,
    }
}

impl SrtpSecureSignaling {
    /// Numeric value passed to `pjsua_acc_config.srtp_secure_signaling`.
    pub fn to_pjsip(self) -> (code: u32)
        ensures
            code == secure_signaling_code(self),
    {
        match self {
            SrtpSecureSignaling::Any => 0,
            SrtpSecureSignaling::TlsOrSips => 1,
            SrtpSecureSignaling::EndToEndSips => 2,
        }
    }

    /// The snake-case name (`any`, `tls_or_sips`, `end_to_end_sips`).
    pub fn to_string(&self) -> (s: String)
        ensures
            s@ == secure_signaling_name(*self),
    {
        match self {
            SrtpSecureSignaling::Any => owned("any"),
            SrtpSecureSignaling::TlsOrSips => owned("tls_or_sips"),
            SrtpSecureSignaling::EndToEndSips => owned("end_to_end_sips"),
        }
    }
}

/// Use of the 100rel / PRACK extension (RFC 3262), PJSIP's `pjsua_100rel_use`.
#[derive(Debug, Clone, Copy, PartialEq, Eq, Structural)]
pub enum Use100Rel {
    /// PJSIP default: the UAS does not actively use 100rel.
    NotUsed,
    /// Require the peer to use 100rel.
    Mandatory,
    /// Advertise `Supported: 100rel` and let the peer opt in.
    Optional,
}

impl Default for Use100Rel {
    fn default() -> (u: Self)
        ensures
            u == Use100Rel::NotUsed,
    {
        Use100Rel::NotUsed
    }
}

/// The native value of a 100rel setting.
pub open spec fn use_100rel_code(u: Use100Rel) -> u32 {
    match u {
        Use100Rel::NotUsed => 0,
        Use100Rel::Mandatory => 1,
        Use100Rel::Optional => 2,
    }
}

impl Use100Rel {
    /// PJSIP C enum value.
    pub fn to_pjsip(self) -> (code: u32)
        ensures
            code == use_100rel_code(self),
    {
        match self {
            Use100Rel::NotUsed => 0,
            Use100Rel::Mandatory => 1,
            Use100Rel::Optional => 2,
        }
    }
}

/// Per-call options that don't belong on the account.
#[derive(Debug, Clone, Copy)]
pub struct CallSetting {
    /// Send the INVITE without an SDP body (late offer).
    pub late_offer: bool,
}

impl Default for CallSetting {
    fn default() -> (c: Self)
        ensures
            !c.late_offer,
    {
        CallSetting { late_offer: false }
    }
}

/// DTMF sending method.
#[derive(Debug, Clone, Copy, PartialEq, Eq, Structural)]
pub enum DtmfMethod {
    Rfc2833,
    SipInfo,
}

/// The display name of a DTMF method.
pub open spec fn dtmf_method_name(m: DtmfMethod) -> Seq<char> {
    match m {
        DtmfMethod::Rfc2833 => "RFC2833"@,
        DtmfMethod::SipInfo => "SIP-INFO"@,
    }
}

impl DtmfMethod {
    /// The display name (`RFC2833`, `SIP-INFO`).
    pub fn to_string(&self) -> (s: String)
        ensures
            s@ == dtmf_method_name(*self),
    {
        match self {
            DtmfMethod::Rfc2833 => owned("RFC2833"),
            DtmfMethod::SipInfo => owned("SIP-INFO"),
        }
    }
}

/// SIP call state.
#[derive(Debug, Clone, Copy, PartialEq, Eq, Structural)]
pub enum CallState {
    Null,
    Calling,
    Incoming,
    Early,
    Connecting,
    Confirmed,
    Disconnected,
    Unknown(u32),
}

/// The call state that a native `pjsip_inv_state` value stands for.
pub open spec fn call_state_of(code: u32) -> CallState {
    if code == PJSIP_INV_STATE_NULL {
        CallState::Null
    } else if code == PJSIP_INV_STATE_CALLING {
        CallState::Calling
    } else if code == PJSIP_INV_STATE_INCOMING {
        CallState::Incoming
    } else if code == PJSIP_INV_STATE_EARLY {
        CallState::Early
    } else if code == PJSIP_INV_STATE_CONNECTING {
        CallState::Connecting
    } else if code == PJSIP_INV_STATE_CONFIRMED {
        CallState::Confirmed
    } else if code == PJSIP_INV_STATE_DISCONNECTED {
        CallState::Disconnected
    } else {
        CallState::Unknown(code)
    }
}

/// The upper-case display name of a call state.
pub open spec fn call_state_name(s: CallState) -> Seq<char> {
    match s {
        CallState::Null => "NULL"@,
        CallState::Calling => "CALLING"@,
        CallState::Incoming => "INCOMING"@,
        CallState::Early => "EARLY"@,
        CallState::Connecting => "CONNECTING"@,
        CallState::Confirmed => "CONFIRMED"@,
        CallState::Disconnected => "DISCONNECTED"@,
        CallState::Unknown(n) => "UNKNOWN("@ + nat_decimal(n as nat) + ")"@,
    }
}

fn unknown_text(n: u32) -> (s: String)
    ensures
        s@ == "UNKNOWN("@ + nat_decimal(n as nat) + ")"@,
{
    let mut s = owned("UNKNOWN(");
    push_decimal_u64(&mut s, n as u64);
    s.append(")");
    s
}

impl CallState {
    /// Convert from the PJSIP C enum value.
    pub fn from_pjsip(state: u32) -> (s: Self)
        ensures
            s == call_state_of(state),
    {
        if state == PJSIP_INV_STATE_NULL {
            CallState::Null
        } else if state == PJSIP_INV_STATE_CALLING {
            CallState::Calling
        } else if state == PJSIP_INV_STATE_INCOMING {
            CallState::Incoming
        } else if state == PJSIP_INV_STATE_EARLY {
            CallState::Early
        } else if state == PJSIP_INV_STATE_CONNECTING {
            CallState::Connecting
        } else if state == PJSIP_INV_STATE_CONFIRMED {
            CallState::Confirmed
        } else if state == PJSIP_INV_STATE_DISCONNECTED {
            CallState::Disconnected
        } else {
            CallState::Unknown(state)
        }
    }

    /// The upper-case display name (`CONFIRMED`, `UNKNOWN(42)`, ...).
    pub fn to_string(&self) -> (s: String)
        ensures
            s@ == call_state_name(*self),
    {
        match self {
            CallState::Null => owned("NULL"),
            CallState::Calling => owned("CALLING"),
            CallState::Incoming => owned("INCOMING"),
            CallState::Early => owned("EARLY"),
            CallState::Connecting => owned("CONNECTING"),
            CallState::Confirmed => owned("CONFIRMED"),
            CallState::Disconnected => owned("DISCONNECTED"),
            CallState::Unknown(n) => unknown_text(*n),
        }
    }
}

/// Media status for a call.
#[derive(Debug, Clone, Copy, PartialEq, Eq, Structural)]
pub enum MediaStatus {
    NoMedia,
    Active,
    LocalHold,
    RemoteHold,
    Error,
    Unknown(u32),
}

/// The media status that a native `pjsua_call_media_status` value stands for.
pub open spec fn media_status_of(code: u32) -> MediaStatus {
    if code == PJSUA_CALL_MEDIA_NONE {
        MediaStatus::NoMedia
    } else if code == PJSUA_CALL_MEDIA_ACTIVE {
        MediaStatus::Active
    } else if code == PJSUA_CALL_MEDIA_LOCAL_HOLD {
        MediaStatus::LocalHold
    } else if code == PJSUA_CALL_MEDIA_REMOTE_HOLD {
        MediaStatus::RemoteHold
    } else if code == PJSUA_CALL_MEDIA_ERROR {
        MediaStatus::Error
    } else {
        MediaStatus::Unknown(code)
    }
}

/// The upper-case display name of a media status.
pub open spec fn media_status_name(s: MediaStatus) -> Seq<char> {
    match s {
        MediaStatus::NoMedia => "NONE"@,
        MediaStatus::Active => "ACTIVE"@,
        MediaStatus::LocalHold => "LOCAL_HOLD"@,
        MediaStatus::RemoteHold => "REMOTE_HOLD"@,
        MediaStatus::Error => "ERROR"@,
        MediaStatus::Unknown(n) => "UNKNOWN("@ + nat_decimal(n as nat) + ")"@,
    }
}

impl MediaStatus {
    /// Convert from the PJSUA C enum value.
    pub fn from_pjsip(status: u32) -> (s: Self)
        ensures
            s == media_status_of(status),
    {
        if status == PJSUA_CALL_MEDIA_NONE {
            MediaStatus::NoMedia
        } else if status == PJSUA_CALL_MEDIA_ACTIVE {
            MediaStatus::Active
        } else if status == PJSUA_CALL_MEDIA_LOCAL_HOLD {
            MediaStatus::LocalHold
        } else if status == PJSUA_CALL_MEDIA_REMOTE_HOLD {
            MediaStatus::RemoteHold
        } else if status == PJSUA_CALL_MEDIA_ERROR {
            MediaStatus::Error
        } else {
            MediaStatus::Unknown(status)
        }
    }

    /// The upper-case display name (`ACTIVE`, `LOCAL_HOLD`, `UNKNOWN(42)`, ...).
    pub fn to_string(&self) -> (s: String)
        ensures
            s@ == media_status_name(*self),
    {
        match self {
            MediaStatus::NoMedia => owned("NONE"),
            MediaStatus::Active => owned("ACTIVE"),
            MediaStatus::LocalHold => owned("LOCAL_HOLD"),
            MediaStatus::RemoteHold => owned("REMOTE_HOLD"),
            MediaStatus::Error => owned("ERROR"),
            MediaStatus::Unknown(n) => unknown_text(*n),
        }
    }
}

// ---------------------------------------------------------------------------
// Structs
// ---------------------------------------------------------------------------

/// High-level call information.
#[derive(Debug, Clone)]
pub struct CallInfo {
    pub call_id: CallId,
    pub account_id: AccountId,
    pub remote_uri: String,
    pub state: CallState,
    pub media_status: MediaStatus,
    pub conf_port: ConfPort,
    pub connect_duration_ms: u64,
    pub total_duration_ms: u64,
    pub last_status_code: u32,
    /// SIP `Call-ID` header value for this call.
    pub sip_call_id: String,
}

/// High-level account information.
#[derive(Debug, Clone)]
pub struct AccountInfo {
    pub account_id: AccountId,
    pub uri: String,
    pub is_registered: bool,
    pub status_code: u32,
    pub status_text: String,
}

/// TLS transport configuration.
#[derive(Debug, Clone)]
pub struct TlsConfig {
    /// Path to CA certificate list file.
    pub ca_list_file: Option<String>,
    /// Path to a directory of CA certificates.
    pub ca_list_path: Option<String>,
    /// Path to the certificate file.
    pub cert_file: Option<String>,
    /// Path to the private key file.
    pub privkey_file: Option<String>,
    /// Password for the private key.
    pub password: Option<String>,
    /// Verify server certificate.
    pub verify_server: bool,
    /// Verify client certificate.
    pub verify_client: bool,
    /// Explicit OpenSSL security level (0-5) forced through the cipher list
    /// `DEFAULT:@SECLEVEL=<n>`, or `None` for the defaults.
    pub security_level: Option<u8>,
}

impl Default for TlsConfig {
    fn default() -> (c: Self)
        ensures
            c.ca_list_file is None,
            c.ca_list_path is None,
            c.cert_file is None,
            c.privkey_file is None,
            c.password is None,
            !c.verify_server,
            !c.verify_client,
            c.security_level is None,
    {
        TlsConfig {
            ca_list_file: None,
            ca_list_path: None,
            cert_file: None,
            privkey_file: None,
            password: None,
            verify_server: false,
            verify_client: false,
            security_level: None,
        }
    }
}

/// Top-level PJSUA configuration.
#[derive(Debug, Clone)]
pub struct PjsuaConfig {
    /// Logging level (0-6).
    pub log_level: u32,
    /// Clock rate in Hz (e.g. 16000).
    pub clock_rate: u32,
    /// Use null audio device (no real audio hardware).
    pub null_audio: bool,
    /// Optional User-Agent string.
    pub user_agent: Option<String>,
    /// DNS nameservers for PJSIP's asynchronous resolver (at most four are used).
    pub nameservers: Vec<String>,
}

impl Default for PjsuaConfig {
    fn default() -> (c: Self)
        ensures
            c.log_level == 3,
            c.clock_rate == 16000,
            c.null_audio,
            c.user_agent is None,
            c.nameservers@.len() == 0,
    {
        PjsuaConfig {
            log_level: 3,
            clock_rate: 16000,
            null_audio: true,
            user_agent: None,
            nameservers: Vec::new(),
        }
    }
}

/// Direction of a traced SIP message.
#[derive(Debug, Clone, Copy, PartialEq, Eq, Structural)]
pub enum TraceDirection {
    Sent,
    Received,
}

/// Extracted information from a SIP message for tracing.
#[derive(Debug, Clone)]
pub struct SipMessageInfo {
    pub direction: TraceDirection,
    pub method_or_status: String,
    pub sip_call_id: String,
    pub sdp: Option<String>,
    pub headers: HashMap<String, String>,
    /// Verbatim message text (only for REGISTER transactions).
    pub raw: Option<String>,
}

/// Configuration for a single SIP account.
#[derive(Debug, Clone)]
pub struct AccountConfig {
    /// Friendly name for this account.
    pub name: String,
    /// SIP username.
    pub username: String,
    /// SIP password.
    pub password: String,
    /// SIP server hostname or IP.
    pub server: String,
    /// SIP port.
    pub port: u16,
    /// Transport type (udp, tcp, tls).
    pub transport: TransportType,
    /// SRTP mode.
    pub srtp: SrtpMode,
    /// Optional access code (DTMF digits to send after call connects).
    pub access_code: Option<String>,
    /// Display name for the From header (e.g. "Alice").
    pub display_name: Option<String>,
    /// Authentication username (defaults to `username` if None).
    pub auth_username: Option<String>,
    /// Authentication realm (defaults to `"*"` if None).
    pub realm: Option<String>,
    /// Registration timeout in seconds.
    pub reg_timeout: Option<u32>,
    /// Use `sips:` URI scheme instead of `sip:`.
    pub use_sips: bool,
    /// Resolve the registrar via DNS SRV instead of a fixed `host:port`:
    /// [`AccountConfig::registrar_uri`] then leaves the port out. No effect
    /// when a custom `registrar` is set or `server` already has a port.
    pub dns_srv: bool,
    /// Override the auto-built registrar URI.
    pub registrar: Option<String>,
    /// Outbound proxy URI.
    pub proxy: Option<String>,
    /// Registration retry interval in seconds.
    pub reg_retry_interval: Option<u32>,
    /// RTP port start.
    pub rtp_port_start: Option<u16>,
    /// RTP port range.
    pub rtp_port_range: Option<u16>,
    /// Pin this account to a specific PJSUA transport ID.
    pub transport_id: Option<i32>,
    /// 100rel (PRACK) usage for this account.
    pub require_100rel: Option<Use100Rel>,
    /// SRTP secure-signalling requirement.
    pub srtp_secure_signaling: Option<SrtpSecureSignaling>,
}

impl Default for AccountConfig {
    fn default() -> (c: Self)
        ensures
            c.name@.len() == 0,
            c.username@.len() == 0,
            c.password@.len() == 0,
            c.server@.len() == 0,
            c.port == 5060,
            c.transport == TransportType::Udp,
            c.srtp == SrtpMode::Disabled,
            c.access_code is None,
            c.display_name is None,
            c.auth_username is None,
            c.realm is None,
            c.reg_timeout is None,
            !c.use_sips,
            !c.dns_srv,
            c.registrar is None,
            c.proxy is None,
            c.reg_retry_interval is None,
            c.rtp_port_start is None,
            c.rtp_port_range is None,
            c.transport_id is None,
            c.require_100rel is None,
            c.srtp_secure_signaling is None,
    {
        AccountConfig {
            name: String::new(),
            username: String::new(),
            password: String::new(),
            server: String::new(),
            port: 5060,
            transport: TransportType::Udp,
            srtp: SrtpMode::Disabled,
            access_code: None,
            display_name: None,
            auth_username: None,
            realm: None,
            reg_timeout: None,
            use_sips: false,
            dns_srv: false,
            registrar: None,
            proxy: None,
            reg_retry_interval: None,
            rtp_port_start: None,
            rtp_port_range: None,
            transport_id: None,
            require_100rel: None,
            srtp_secure_signaling: None,
        }
    }
}

/// The URI scheme of an account: `sips` when `use_sips`, else `sip`.
pub open spec fn uri_scheme(use_sips: bool) -> Seq<char> {
    if use_sips { "sips"@ } else { "sip"@ }
}

/// The `;transport=` URI parameter: `tcp` for TCP, `tls` for TLS over a
/// plain `sip:` URI, nothing for UDP or for TLS with `sips:`.
pub open spec fn transport_param_of(transport: TransportType, use_sips: bool) -> Seq<char> {
    match transport {
        TransportType::Tcp => ";transport=tcp"@,
        TransportType::Tls => if use_sips { Seq::empty() } else { ";transport=tls"@ },
        TransportType::Udp => Seq::empty(),
    }
}

/// The account's SIP URI: `scheme:user@server[;transport=..]`, wrapped as
/// `"Name" <...>` when a display name is set.
pub open spec fn sip_uri_of(c: AccountConfig) -> Seq<char> {
    let bare = uri_scheme(c.use_sips) + ":"@ + c.username@ + "@"@ + c.server@
        + transport_param_of(c.transport, c.use_sips);
    match c.display_name {
        Some(name) => "\""@ + name@ + "\" <"@ + bare + ">"@,
        None => bare,
    }
}

/// Whether a character is an ASCII decimal digit.
pub open spec fn ascii_digit(c: char) -> bool {
    '0' <= c <= '9'
}

/// Whether a server address already names a port: it ends with `:` and one
/// or more digits, and the host before that colon is bracketed (`[::1]:5070`)
/// or has no colon of its own (`host:5070`). An unbracketed IPv6 address
/// such as `2001:db8::1` names no port.
pub open spec fn has_explicit_port(server: Seq<char>) -> bool {
    exists|k: int|
        0 <= k < server.len() - 1 && #[trigger] server[k] == ':' && (forall|j: int|
            k < j < server.len() ==> ascii_digit(#[trigger] server[j])) && ((k > 0 && server[k
            - 1] == ']') || forall|j: int| 0 <= j < k ==> server[j] != ':')
}

/// The registrar URI: the custom registrar when set; otherwise
/// `scheme:server[:port][;transport=..]`, where the configured port is left
/// out for DNS SRV and when the server already names its own port.
pub open spec fn registrar_uri_of(c: AccountConfig) -> Seq<char> {
    match c.registrar {
        Some(reg) => reg@,
        None => if c.dns_srv || has_explicit_port(c.server@) {
            uri_scheme(c.use_sips) + ":"@ + c.server@ + transport_param_of(c.transport, c.use_sips)
        } else {
            uri_scheme(c.use_sips) + ":"@ + c.server@ + ":"@ + nat_decimal(c.port as nat)
                + transport_param_of(c.transport, c.use_sips)
        },
    }
}

fn no_colon_before(server: &str, k: usize) -> (b: bool)
    requires
        k <= server@.len(),
    ensures
        b == (forall|j: int| 0 <= j < k ==> server@[j] != ':'),
{
    let mut j: usize = 0;
    while j < k
        invariant
            k <= server@.len(),
            j <= k,
            forall|m: int| 0 <= m < j ==> server@[m] != ':',
        decreases k - j,
    {
        if server.get_char(j) == ':' {
            return false;
        }
        j += 1;
    }
    true
}

/// Whether `server` already names a port (see [`has_explicit_port`]).
fn server_has_port(server: &str) -> (b: bool)
    ensures
        b == has_explicit_port(server@),
{
    let n = server.unicode_len();
    let mut i: usize = n;
    while i > 0 && '0' <= server.get_char(i - 1) && server.get_char(i - 1) <= '9'
        invariant
            n == server@.len(),
            i <= n,
            forall|j: int| i <= j < n ==> ascii_digit(#[trigger] server@[j]),
        decreases i,
    {
        i -= 1;
    }
    if !(i > 0 && i < n && server.get_char(i - 1) == ':') {
        proof {
            if has_explicit_port(server@) {
                let k = choose|k: int|
                    0 <= k < server@.len() - 1 && #[trigger] server@[k] == ':' && (forall|j: int|
                        k < j < server@.len() ==> ascii_digit(#[trigger] server@[j])) && ((k > 0
                        && server@[k - 1] == ']') || forall|j: int|
                        0 <= j < k ==> server@[j] != ':');
                if k >= i {
                    assert(ascii_digit(server@[k]));
                } else if k < i - 1 {
                    assert(ascii_digit(server@[i - 1]));
                }
            }
        }
        return false;
    }
    let k = i - 1;
    let b = (k > 0 && server.get_char(k - 1) == ']') || no_colon_before(server, k);
    proof {
        if b {
            assert(server@[k as int] == ':');
            assert(forall|j: int| k < j < server@.len() ==> ascii_digit(#[trigger] server@[j]));
        } else if has_explicit_port(server@) {
            let k2 = choose|k2: int|
                0 <= k2 < server@.len() - 1 && #[trigger] server@[k2] == ':' && (forall|j: int|
                    k2 < j < server@.len() ==> ascii_digit(#[trigger] server@[j])) && ((k2 > 0
                    && server@[k2 - 1] == ']') || forall|j: int|
                    0 <= j < k2 ==> server@[j] != ':');
            if k2 > k {
                assert(ascii_digit(server@[k2]));
            } else if k2 < k {
                assert(ascii_digit(server@[k as int]));
            }
        }
    }
    b
}

/// With no custom registrar, a server that already names its port gives the
/// same registrar URI whether DNS SRV is on or off.
pub proof fn law_dns_srv_no_effect_with_port(c: AccountConfig, dns_srv: bool)
    requires
        c.registrar is None,
        has_explicit_port(c.server@),
    ensures
        registrar_uri_of(c) == registrar_uri_of(AccountConfig { dns_srv, ..c }),
{
}

/// PJSIP's invite states 0 to 6 are, in order, NULL, CALLING, INCOMING,
/// EARLY, CONNECTING, CONFIRMED and DISCONNECTED, and each decodes to the
/// variant of that name; every other value, and only such a value, decodes
/// to `Unknown` carrying the value.
pub proof fn law_call_state_codes(n: u32)
    ensures
        call_state_of(0) == CallState::Null,
        call_state_of(1) == CallState::Calling,
        call_state_of(2) == CallState::Incoming,
        call_state_of(3) == CallState::Early,
        call_state_of(4) == CallState::Connecting,
        call_state_of(5) == CallState::Confirmed,
        call_state_of(6) == CallState::Disconnected,
        n > 6 ==> call_state_of(n) == CallState::Unknown(n),
        call_state_of(n) is Unknown <==> n > 6,
{
}

/// PJSUA's call media statuses 0 to 4 are, in order, NONE, ACTIVE,
/// LOCAL_HOLD, REMOTE_HOLD and ERROR, and each decodes to the variant of that
/// name; every other value, and only such a value, decodes to `Unknown`
/// carrying the value.
pub proof fn law_media_status_codes(n: u32)
    ensures
        media_status_of(0) == MediaStatus::NoMedia,
        media_status_of(1) == MediaStatus::Active,
        media_status_of(2) == MediaStatus::LocalHold,
        media_status_of(3) == MediaStatus::RemoteHold,
        media_status_of(4) == MediaStatus::Error,
        n > 4 ==> media_status_of(n) == MediaStatus::Unknown(n),
        media_status_of(n) is Unknown <==> n > 4,
{
}

/// The native values that PJSIP and PJMEDIA define: transports UDP 1, TCP 2,
/// TLS 3 (`pjsip_transport_type_e`); SRTP disabled 0, optional 1, mandatory 2
/// (`pjmedia_srtp_use`); secure signalling any 0, TLS or `sips:` 1, end-to-end
/// `sips:` 2; 100rel not used 0, mandatory 1, optional 2 (`pjsua_100rel_use`).
pub proof fn law_native_code_values()
    ensures
        transport_code(TransportType::Udp) == 1,
        transport_code(TransportType::Tcp) == 2,
        transport_code(TransportType::Tls) == 3,
        srtp_code(SrtpMode::Disabled) == 0,
        srtp_code(SrtpMode::Optional) == 1,
        srtp_code(SrtpMode::Mandatory) == 2,
        secure_signaling_code(SrtpSecureSignaling::Any) == 0,
        secure_signaling_code(SrtpSecureSignaling::TlsOrSips) == 1,
        secure_signaling_code(SrtpSecureSignaling::EndToEndSips) == 2,
        use_100rel_code(Use100Rel::NotUsed) == 0,
        use_100rel_code(Use100Rel::Mandatory) == 1,
        use_100rel_code(Use100Rel::Optional) == 2,
{
}

/// The URIs of an account: the scheme is `sips` exactly when `use_sips`;
/// TCP always adds `;transport=tcp`; TLS adds `;transport=tls` exactly on a
/// `sip:` URI; the SIP URI without a display name is
/// `scheme:username@server` and the parameter.
pub proof fn law_uri_parts(c: AccountConfig)
    ensures
        c.use_sips ==> uri_scheme(c.use_sips) == "sips"@,
        !c.use_sips ==> uri_scheme(c.use_sips) == "sip"@,
        c.transport == TransportType::Tcp ==> transport_param_of(c.transport, c.use_sips) == ";transport=tcp"@,
        c.transport == TransportType::Tls && !c.use_sips ==> transport_param_of(c.transport, c.use_sips)
            == ";transport=tls"@,
        c.display_name is None ==> sip_uri_of(c) == uri_scheme(c.use_sips) + ":"@ + c.username@ + "@"@
            + c.server@ + transport_param_of(c.transport, c.use_sips),
        c.registrar is None && !c.dns_srv && !has_explicit_port(c.server@) ==> registrar_uri_of(c)
            == uri_scheme(c.use_sips) + ":"@ + c.server@ + ":"@ + nat_decimal(c.port as nat)
            + transport_param_of(c.transport, c.use_sips),
{
}

/// Distinct transports, SRTP modes, secure-signalling levels and 100rel
/// settings map to distinct native values.
pub proof fn law_native_codes_distinct(
    t1: TransportType,
    t2: TransportType,
    m1: SrtpMode,
    m2: SrtpMode,
    s1: SrtpSecureSignaling,
    s2: SrtpSecureSignaling,
    u1: Use100Rel,
    u2: Use100Rel,
)
    ensures
        t1 != t2 ==> transport_code(t1) != transport_code(t2),
        m1 != m2 ==> srtp_code(m1) != srtp_code(m2),
        s1 != s2 ==> secure_signaling_code(s1) != secure_signaling_code(s2),
        u1 != u2 ==> use_100rel_code(u1) != use_100rel_code(u2),
{
}

/// Decoding native call states and media statuses loses nothing: distinct
/// native values give distinct states.
pub proof fn law_native_states_lossless(a: u32, b: u32)
    ensures
        call_state_of(a) == call_state_of(b) ==> a == b,
        media_status_of(a) == media_status_of(b) ==> a == b,
{
}

/// A `sips:` URI never carries `;transport=tls` (the scheme implies TLS),
/// and a UDP account never carries a transport parameter.
pub proof fn law_transport_param(c: AccountConfig)
    ensures
        c.use_sips && c.transport == TransportType::Tls ==> transport_param_of(c.transport, c.use_sips)
            == Seq::<char>::empty(),
        c.transport == TransportType::Udp ==> transport_param_of(c.transport, c.use_sips)
            == Seq::<char>::empty(),
        c.registrar matches Some(r) ==> registrar_uri_of(c) == r@,
{
}

impl AccountConfig {
    /// SIP URI transport parameter suffix for non-UDP transports.
    fn transport_param(&self) -> (p: &'static str)
        ensures
            p@ == transport_param_of(self.transport, self.use_sips),
    {
        match self.transport {
            TransportType::Tcp => ";transport=tcp",
            TransportType::Tls => if !self.use_sips {
                ";transport=tls"
            } else {
                proof { reveal_strlit(""); }
                ""
            },
            TransportType::Udp => {
                proof { reveal_strlit(""); }
                ""
            },
        }
    }

    fn scheme(&self) -> (s: &'static str)
        ensures
            s@ == uri_scheme(self.use_sips),
    {
        if self.use_sips { "sips" } else { "sip" }
    }

    /// Build the SIP URI for this account.
    ///
    /// Honors `display_name`, `use_sips`, and `transport`.
    pub fn sip_uri(&self) -> (uri: String)
        ensures
            uri@ == sip_uri_of(*self),
    {
        let mut bare = String::new();
        bare.append(self.scheme());
        bare.append(":");
        bare.append(self.username.as_str());
        bare.append("@");
        bare.append(self.server.as_str());
        bare.append(self.transport_param());
        match &self.display_name {
            Some(name) => {
                let mut uri = String::new();
                uri.append("\"");
                uri.append(name.as_str());
                uri.append("\" <");
                uri.append(bare.as_str());
                uri.append(">");
                uri
            },
            None => bare,
        }
    }

    /// Build the registrar URI.
    ///
    /// Returns the custom `registrar` if set, otherwise `sip:server:port`
    /// (port omitted when `dns_srv` or when `server` names its own port), with `;transport=tcp` or
    /// `;transport=tls` for non-UDP transports.
    pub fn registrar_uri(&self) -> (uri: String)
        ensures
            uri@ == registrar_uri_of(*self),
    {
        if let Some(reg) = &self.registrar {
            return reg.clone();
        }
        let mut uri = String::new();
        uri.append(self.scheme());
        uri.append(":");
        uri.append(self.server.as_str());
        if !self.dns_srv && !server_has_port(self.server.as_str()) {
            uri.append(":");
            push_decimal_u64(&mut uri, self.port as u64);
        }
        uri.append(self.transport_param());
        uri
    }
}

} // verus!
