//! Decisions of the user-agent session: start-up, timers, DNS resolver
//! updates, transports, account removal, and the records built from what
//! PJSUA reports. The native glue layer performs each PJSUA call and hands
//! the outcome to these functions.

use vstd::prelude::*;
use crate::error::{PjError, Result};
use crate::types::{
    call_state_of, clone_opt, media_status_of, transport_code, AccountId, AccountInfo, CallId, CallInfo,
    CallState, ConfPort, MediaStatus, PjsuaConfig, PlayerId, RecorderId, TlsConfig,
    TransportType,
};
use crate::text::{int_decimal, nat_decimal, push_decimal_i64, push_decimal_u64};

verus! {

// ---------------------------------------------------------------------------
// Start-up
// ---------------------------------------------------------------------------

/// PJSIP's nameserver array holds at most this many entries.
pub const MAX_NAMESERVERS: usize = 4;

/// The nameservers that are used: the first [`MAX_NAMESERVERS`] of the list.
pub open spec fn used_nameservers(servers: Seq<String>) -> Seq<String> {
    if servers.len() <= MAX_NAMESERVERS { servers } else { servers.take(MAX_NAMESERVERS as int) }
}

/// At most four nameservers are used: the list itself when it has four or
/// fewer, else its first four, in order.
pub proof fn law_first_four_nameservers(servers: Seq<String>)
    ensures
        used_nameservers(servers).len() == (if servers.len() <= 4 { servers.len() } else { 4 }),
        forall|i: int| 0 <= i < used_nameservers(servers).len() ==> #[trigger] used_nameservers(
            servers,
        )[i] == servers[i],
{
}

/// The first [`MAX_NAMESERVERS`] entries of `servers`; extras are ignored.
pub fn nameservers_to_use(servers: &Vec<String>) -> (r: Vec<String>)
    ensures
        r@ == used_nameservers(servers@),
{
    let mut r: Vec<String> = Vec::new();
    let mut i: usize = 0;
    while i < servers.len() && i < MAX_NAMESERVERS
        invariant
            i <= servers@.len(),
            i <= MAX_NAMESERVERS,
            r@ == servers@.take(i as int),
        decreases servers@.len() - i,
    {
        r.push(servers[i].clone());
        i += 1;
        assert(r@ =~= servers@.take(i as int));
    }
    assert(servers@.len() <= MAX_NAMESERVERS ==> servers@.take(i as int) =~= servers@);
    r
}

/// What `pjsua_init` is configured with.
#[derive(Debug, Clone)]
pub struct InitPlan {
    /// `pjsua_config.user_agent`, when set.
    pub user_agent: Option<String>,
    /// `pjsua_config.nameserver[..]`: the nameservers in use.
    pub nameservers: Vec<String>,
    /// How many configured nameservers are ignored (beyond the limit).
    pub ignored_nameservers: usize,
    /// `pjsua_logging_config.level`.
    pub log_level: u32,
    /// `pjsua_logging_config.console_level`: 0, logs go through the callback only.
    pub console_level: u32,
    /// `pjsua_media_config.clock_rate`.
    pub clock_rate: u32,
    /// Whether the null sound device is installed after `pjsua_init`.
    pub null_audio: bool,
}

/// Compute the start-up configuration for `config`.
pub fn init_plan(config: &PjsuaConfig) -> (p: InitPlan)
    ensures
        p.user_agent == config.user_agent,
        p.nameservers@ == used_nameservers(config.nameservers@),
        p.ignored_nameservers == config.nameservers@.len() - p.nameservers@.len(),
        p.log_level == config.log_level,
        p.console_level == 0,
        p.clock_rate == config.clock_rate,
        p.null_audio == config.null_audio,
{
    let nameservers = nameservers_to_use(&config.nameservers);
    let ignored_nameservers = config.nameservers.len() - nameservers.len();
    InitPlan {
        user_agent: match &config.user_agent {
            Some(ua) => Some(ua.clone()),
            None => None,
        },
        nameservers,
        ignored_nameservers,
        log_level: config.log_level,
        console_level: 0,
        clock_rate: config.clock_rate,
        null_audio: config.null_audio,
    }
}

/// The native start-up calls, in order.
#[derive(Debug, Clone, Copy, PartialEq, Eq, Structural)]
pub enum InitStage {
    /// `pjsua_create`.
    Create,
    /// `pjsua_init`.
    Init,
    /// `pjsua_set_null_snd_dev`.
    SetNullSound,
    /// `pjsua_start`.
    Start,
}

/// What follows a start-up call.
#[derive(Debug, Clone, Copy, PartialEq, Eq, Structural)]
pub enum InitStep {
    /// Perform the next call.
    Run(InitStage),
    /// Give up with the status; `destroy` says whether `pjsua_destroy` must
    /// run. The singleton flag is released in either case.
    Failed { status: i32, destroy: bool },
    /// PJSUA is running.
    Started,
}

/// The step after `stage` returned `status`.
pub open spec fn init_step_after(stage: InitStage, status: i32, null_audio: bool) -> InitStep {
    if status != 0 {
        InitStep::Failed { status, destroy: stage != InitStage::Create }
    } else {
        match stage {
            InitStage::Create => InitStep::Run(InitStage::Init),
            InitStage::Init => if null_audio {
                InitStep::Run(InitStage::SetNullSound)
            } else {
                InitStep::Run(InitStage::Start)
            },
            InitStage::SetNullSound => InitStep::Run(InitStage::Start),
            InitStage::Start => InitStep::Started,
        }
    }
}

/// Claim the process-wide PJSUA instance: refused when one is alive,
/// otherwise start-up begins with `pjsua_create`.
pub fn begin_init(already_initialized: bool) -> (r: Result<InitStage>)
    ensures
        already_initialized ==> r matches Err(PjError::AlreadyInitialized),
        !already_initialized ==> r == Ok::<InitStage, PjError>(InitStage::Create),
{
    if already_initialized {
        Err(PjError::AlreadyInitialized)
    } else {
        Ok(InitStage::Create)
    }
}

/// Decide what follows a start-up call: any failure gives up (destroying
/// PJSUA once it was created); success moves to the next call, installing
/// the null sound device only when asked for.
pub fn next_init_step(stage: InitStage, status: i32, null_audio: bool) -> (s: InitStep)
    ensures
        s == init_step_after(stage, status, null_audio),
{
    if status != 0 {
        let destroy = match stage {
            InitStage::Create => false,
            _ => true,
        };
        InitStep::Failed { status, destroy }
    } else {
        match stage {
            InitStage::Create => InitStep::Run(InitStage::Init),
            InitStage::Init => if null_audio {
                InitStep::Run(InitStage::SetNullSound)
            } else {
                InitStep::Run(InitStage::Start)
            },
            InitStage::SetNullSound => InitStep::Run(InitStage::Start),
            InitStage::Start => InitStep::Started,
        }
    }
}

/// A start-up in which every call succeeds runs `pjsua_create`, `pjsua_init`,
/// the null sound device (only when asked for) and `pjsua_start`, in that
/// order, and then is running; a failure at any call after `pjsua_create`
/// destroys PJSUA, and a failure of `pjsua_create` does not.
pub proof fn law_init_sequence(null_audio: bool, status: i32)
    ensures
        init_step_after(InitStage::Create, 0, null_audio) == InitStep::Run(InitStage::Init),
        null_audio ==> init_step_after(InitStage::Init, 0, null_audio)
            == InitStep::Run(InitStage::SetNullSound),
        !null_audio ==> init_step_after(InitStage::Init, 0, null_audio)
            == InitStep::Run(InitStage::Start),
        init_step_after(InitStage::SetNullSound, 0, null_audio) == InitStep::Run(InitStage::Start),
        init_step_after(InitStage::Start, 0, null_audio) == InitStep::Started,
        status != 0 ==> init_step_after(InitStage::Create, status, null_audio)
            == (InitStep::Failed { status, destroy: false }),
        status != 0 ==> forall|stage: InitStage| stage != InitStage::Create ==>
            #[trigger] init_step_after(stage, status, null_audio)
            == (InitStep::Failed { status, destroy: true }),
{
}

// ---------------------------------------------------------------------------
// SIP timers and DNS
// ---------------------------------------------------------------------------

/// The SIP transaction timers for a timeout in seconds: `(T1, TD)` in
/// milliseconds, with `T1 = timeout / 64` (RFC 3261 Timer F = 64 * T1) and
/// `TD = timeout`.
pub fn transaction_timers(timeout_secs: u32) -> (t: (u32, u32))
    requires
        timeout_secs * 1000 <= u32::MAX,
    ensures
        t.0 == timeout_secs * 1000 / 64,
        t.1 == timeout_secs * 1000,
        t.0 * 64 <= t.1 < t.0 * 64 + 64,
{
    let td_ms = timeout_secs * 1000;
    (td_ms / 64, td_ms)
}

/// The nameserver list to hand to the running resolver: nothing for an
/// empty list (the call is a no-op), else the first [`MAX_NAMESERVERS`].
pub fn nameserver_update(servers: &Vec<String>) -> (r: Option<Vec<String>>)
    ensures
        servers@.len() == 0 ==> r is None,
        servers@.len() > 0 ==> (r matches Some(v) && v@ == used_nameservers(servers@)),
{
    if servers.len() == 0 {
        None
    } else {
        Some(nameservers_to_use(servers))
    }
}

/// What was found when updating the resolver's nameservers.
#[derive(Debug, Clone, Copy, PartialEq, Eq, Structural)]
pub enum ResolverUpdate {
    /// `pjsua_get_pjsip_endpt` returned null.
    NoEndpoint,
    /// The endpoint has no asynchronous resolver (started without nameservers).
    NoResolver,
    /// `pj_dns_resolver_set_ns` returned this status.
    Applied(i32),
}

/// The result of a nameserver update: no endpoint means PJSUA is not
/// initialised; a missing resolver is a no-op; otherwise the status decides.
pub fn resolver_update_result(update: ResolverUpdate, message: String) -> (r: Result<()>)
    ensures
        update == ResolverUpdate::NoEndpoint ==> r matches Err(PjError::NotInitialized),
        update == ResolverUpdate::NoResolver ==> r is Ok,
        update == ResolverUpdate::Applied(0) ==> r is Ok,
        forall|s: i32| s != 0 && update == ResolverUpdate::Applied(s) ==>
            r == Err::<(), PjError>(PjError::Pjsip { status: s, message }),
{
    match update {
        ResolverUpdate::NoEndpoint => Err(PjError::NotInitialized),
        ResolverUpdate::NoResolver => Ok(()),
        ResolverUpdate::Applied(status) => if status == 0 {
            Ok(())
        } else {
            Err(PjError::Pjsip { status, message })
        },
    }
}

// ---------------------------------------------------------------------------
// Transports
// ---------------------------------------------------------------------------

/// `PJ_QOS_PARAM_HAS_DSCP`: the QoS parameters carry a DSCP value.
pub const PJ_QOS_PARAM_HAS_DSCP: u32 = 1;

/// Plain-value form of `pjsip_tls_setting` as this library fills it.
#[derive(Debug, Clone)]
pub struct TlsSettings {
    pub ca_list_file: Option<String>,
    pub ca_list_path: Option<String>,
    pub cert_file: Option<String>,
    pub privkey_file: Option<String>,
    pub password: Option<String>,
    /// `verify_server` (0 or 1).
    pub verify_server: u32,
    /// `verify_client` (0 or 1).
    pub verify_client: u32,
    /// The OpenSSL cipher list that forces a security level
    /// (`DEFAULT:@SECLEVEL=<n>`), when one is configured.
    pub cipher_list: Option<String>,
}

/// Plain-value form of `pjsua_transport_config` as this library fills it,
/// with the transport type passed to `pjsua_transport_create`.
#[derive(Debug, Clone)]
pub struct TransportSettings {
    /// The native transport type.
    pub transport_type: u32,
    /// `port`.
    pub port: u32,
    /// `qos_params.flags` and `qos_params.dscp_val`, when a DSCP value is given.
    pub qos: Option<(u32, u8)>,
    /// `bound_addr`, when given.
    pub bound_addr: Option<String>,
    /// `tls_setting`, when TLS settings are given.
    pub tls: Option<TlsSettings>,
}

/// The TLS settings for a TLS configuration.
pub open spec fn tls_settings_match(s: TlsSettings, c: TlsConfig) -> bool {
    &&& s.ca_list_file == c.ca_list_file
    &&& s.ca_list_path == c.ca_list_path
    &&& s.cert_file == c.cert_file
    &&& s.privkey_file == c.privkey_file
    &&& s.password == c.password
    &&& s.verify_server == (if c.verify_server { 1u32 } else { 0u32 })
    &&& s.verify_client == (if c.verify_client { 1u32 } else { 0u32 })
    &&& match c.security_level {
        Some(n) => s.cipher_list matches Some(l) && l@ == seclevel_cipher_list(n),
        None => s.cipher_list is None,
    }
}

/// The cipher list that forces OpenSSL security level `n`: `DEFAULT:@SECLEVEL=<n>`.
pub open spec fn seclevel_cipher_list(n: u8) -> Seq<char> {
    "DEFAULT:@SECLEVEL="@ + nat_decimal(n as nat)
}

fn cipher_list_for(n: u8) -> (l: String)
    ensures
        l@ == seclevel_cipher_list(n),
{
    let mut l = String::from_str("DEFAULT:@SECLEVEL=");
    push_decimal_u64(&mut l, n as u64);
    l
}

/// Compute the transport configuration for `pjsua_transport_create`.
pub fn transport_settings(
    transport_type: TransportType,
    bind_addr: Option<&str>,
    port: u16,
    tls: Option<&TlsConfig>,
    qos_dscp: Option<u8>,
) -> (s: TransportSettings)
    ensures
        s.transport_type == transport_code(transport_type),
        s.port == port as u32,
        s.qos == (match qos_dscp {
            Some(d) => Some((PJ_QOS_PARAM_HAS_DSCP, d)),
            None => None,
        }),
        match bind_addr {
            Some(a) => s.bound_addr matches Some(b) && b@ == a@,
            None => s.bound_addr is None,
        },
        match tls {
            Some(c) => s.tls matches Some(t) && tls_settings_match(t, *c),
            None => s.tls is None,
        },
{
    let qos = match qos_dscp {
        Some(d) => Some((PJ_QOS_PARAM_HAS_DSCP, d)),
        None => None,
    };
    let bound_addr = match bind_addr {
        Some(a) => Some(String::from_str(a)),
        None => None,
    };
    let tls_settings = match tls {
        Some(c) => Some(TlsSettings {
            ca_list_file: clone_opt(&c.ca_list_file),
            ca_list_path: clone_opt(&c.ca_list_path),
            cert_file: clone_opt(&c.cert_file),
            privkey_file: clone_opt(&c.privkey_file),
            password: clone_opt(&c.password),
            verify_server: if c.verify_server { 1 } else { 0 },
            verify_client: if c.verify_client { 1 } else { 0 },
            cipher_list: match c.security_level {
                Some(n) => Some(cipher_list_for(n)),
                None => None,
            },
        }),
        None => None,
    };
    TransportSettings {
        transport_type: transport_type.to_pjsip(),
        port: port as u32,
        qos,
        bound_addr,
        tls: tls_settings,
    }
}

// ---------------------------------------------------------------------------
// Account removal
// ---------------------------------------------------------------------------

/// `PJSIP_EBUSY`: an in-flight transaction keeps the account busy.
pub const PJSIP_EBUSY: i32 = 171001;

/// The most deletion attempts that removing an account makes.
pub const MAX_DELETE_ATTEMPTS: u32 = 3;

/// What follows a `pjsua_acc_del` attempt.
#[derive(Debug)]
pub enum RemovalStep {
    /// Wait this many milliseconds, then try `pjsua_acc_del` again.
    RetryAfter(u64),
    /// Removal is over with this result.
    Finished(Result<()>),
}

/// The wait before the next attempt when attempt `attempt` found the account busy.
pub open spec fn retry_delay(attempt: u32) -> u64 {
    if attempt == 1 { 200 } else { 500 }
}

/// Decide what follows deletion attempt `attempt` (1, 2 or 3) that returned
/// `status`. A busy account is retried after 200 ms, then after 500 ms; the
/// third attempt ends removal successfully whatever it returns (a failure is
/// only reported in the log). On the earlier attempts, success ends removal
/// and any other failure is returned.
pub fn removal_after_delete(attempt: u32, status: i32, message: String) -> (s: RemovalStep)
    requires
        1 <= attempt <= MAX_DELETE_ATTEMPTS,
    ensures
        s == removal_after_delete_spec(attempt, status, message),
        attempt == MAX_DELETE_ATTEMPTS ==> s matches RemovalStep::Finished(Ok(_)),
        attempt < MAX_DELETE_ATTEMPTS && status == PJSIP_EBUSY ==> s == RemovalStep::RetryAfter(
            retry_delay(attempt),
        ),
        attempt < MAX_DELETE_ATTEMPTS && status == 0 ==> s matches RemovalStep::Finished(Ok(_)),
        attempt < MAX_DELETE_ATTEMPTS && status != 0 && status != PJSIP_EBUSY ==> s
            == RemovalStep::Finished(Err(PjError::Pjsip { status, message })),
{
    if attempt >= MAX_DELETE_ATTEMPTS {
        RemovalStep::Finished(Ok(()))
    } else if status == PJSIP_EBUSY {
        RemovalStep::RetryAfter(if attempt == 1 { 200 } else { 500 })
    } else if status == 0 {
        RemovalStep::Finished(Ok(()))
    } else {
        RemovalStep::Finished(Err(PjError::Pjsip { status, message }))
    }
}

/// Removing an account makes at most three deletion attempts and waits at
/// most 700 ms in all: only the first two attempts can ask for a retry.
pub proof fn law_removal_bounded(attempt: u32, status: i32, message: String)
    requires
        1 <= attempt <= MAX_DELETE_ATTEMPTS,
    ensures
        removal_after_delete_spec(attempt, status, message) matches RemovalStep::RetryAfter(_)
            ==> attempt < MAX_DELETE_ATTEMPTS,
        retry_delay(1) + retry_delay(2) == 700,
        retry_delay(1) == 200 && retry_delay(2) == 500,
{
}

/// [`removal_after_delete`] as a specification.
pub open spec fn removal_after_delete_spec(attempt: u32, status: i32, message: String) -> RemovalStep {
    if attempt >= MAX_DELETE_ATTEMPTS {
        RemovalStep::Finished(Ok(()))
    } else if status == PJSIP_EBUSY {
        RemovalStep::RetryAfter(retry_delay(attempt))
    } else if status == 0 {
        RemovalStep::Finished(Ok(()))
    } else {
        RemovalStep::Finished(Err(PjError::Pjsip { status, message }))
    }
}

// ---------------------------------------------------------------------------
// Records built from what PJSUA reports
// ---------------------------------------------------------------------------

/// A SIP status code in the 2xx class means "registered".
pub open spec fn is_success_class(code: int) -> bool {
    200 <= code < 300
}

/// Account information counts an account as registered exactly for the 2xx
/// status codes (200 to 299).
pub proof fn law_account_registered_is_2xx(code: int)
    ensures
        is_success_class(code) <==> 200 <= code && code <= 299,
{
}

/// Build the account information from `pjsua_acc_get_info`'s fields.
pub fn account_info_from(id: i32, uri: String, status: u32, status_text: String) -> (info: AccountInfo)
    ensures
        info.account_id == AccountId(id),
        info.uri == uri,
        info.is_registered == is_success_class(status as int),
        info.status_code == status,
        info.status_text == status_text,
{
    AccountInfo {
        account_id: AccountId(id),
        uri,
        is_registered: 200 <= status && status < 300,
        status_code: status,
        status_text,
    }
}

/// The fields of `pjsua_call_info` that a [`CallInfo`] is built from; the
/// durations are split into seconds and milliseconds as PJSUA reports them.
#[derive(Debug, Clone)]
pub struct RawCallInfo {
    pub id: i32,
    pub acc_id: i32,
    pub remote_info: String,
    pub state: u32,
    pub media_status: u32,
    pub conf_slot: i32,
    pub connect_sec: u64,
    pub connect_msec: u64,
    pub total_sec: u64,
    pub total_msec: u64,
    pub last_status: u32,
    pub call_id: String,
}

/// Whether the durations of a raw record fit in milliseconds as a `u64`.
pub open spec fn durations_fit(raw: RawCallInfo) -> bool {
    &&& raw.connect_sec * 1000 + raw.connect_msec <= u64::MAX
    &&& raw.total_sec * 1000 + raw.total_msec <= u64::MAX
}

/// Build the call information: states decoded, durations in milliseconds.
pub fn call_info_from(raw: RawCallInfo) -> (info: CallInfo)
    requires
        durations_fit(raw),
    ensures
        info.call_id == CallId(raw.id),
        info.account_id == AccountId(raw.acc_id),
        info.remote_uri == raw.remote_info,
        info.state == call_state_of(raw.state),
        info.media_status == media_status_of(raw.media_status),
        info.conf_port == ConfPort(raw.conf_slot),
        info.connect_duration_ms == raw.connect_sec * 1000 + raw.connect_msec,
        info.total_duration_ms == raw.total_sec * 1000 + raw.total_msec,
        info.last_status_code == raw.last_status,
        info.sip_call_id == raw.call_id,
{
    CallInfo {
        call_id: CallId(raw.id),
        account_id: AccountId(raw.acc_id),
        remote_uri: raw.remote_info,
        state: CallState::from_pjsip(raw.state),
        media_status: MediaStatus::from_pjsip(raw.media_status),
        conf_port: ConfPort(raw.conf_slot),
        connect_duration_ms: raw.connect_sec * 1000 + raw.connect_msec,
        total_duration_ms: raw.total_sec * 1000 + raw.total_msec,
        last_status_code: raw.last_status,
        sip_call_id: raw.call_id,
    }
}

/// The conference ports reported by `pjsua_enum_conf_ports`: the first
/// `count` entries of the ID buffer.
pub fn ports_from_ids(ids: &[i32], count: u32) -> (ports: Vec<ConfPort>)
    requires
        count <= ids@.len(),
    ensures
        ports@.len() == count,
        forall|i: int| 0 <= i < count ==> #[trigger] ports@[i] == ConfPort(ids@[i]),
{
    let mut ports: Vec<ConfPort> = Vec::new();
    let n = count as usize;
    let mut i: usize = 0;
    while i < n
        invariant
            n == count,
            n <= ids@.len(),
            i <= n,
            ports@.len() == i,
            forall|j: int| 0 <= j < i ==> #[trigger] ports@[j] == ConfPort(ids@[j]),
        decreases n - i,
    {
        ports.push(ConfPort(ids[i]));
        i += 1;
    }
    ports
}

fn labelled_id(label: &str, id: i32) -> (s: String)
    ensures
        s@ == label@ + int_decimal(id as int),
{
    let mut s = String::from_str(label);
    push_decimal_i64(&mut s, id as i64);
    s
}

/// The conference port of a player: a negative slot means the player does
/// not exist (`NotFound("player <id>")`).
pub fn player_port_result(id: PlayerId, slot: i32) -> (r: Result<ConfPort>)
    ensures
        slot >= 0 ==> r == Ok::<ConfPort, PjError>(ConfPort(slot)),
        slot < 0 ==> (r matches Err(PjError::NotFound(m)) && m@ == "player "@ + int_decimal(id.0 as int)),
{
    if slot < 0 {
        Err(PjError::NotFound(labelled_id("player ", id.0)))
    } else {
        Ok(ConfPort(slot))
    }
}

/// The conference port of a recorder: a negative slot means the recorder
/// does not exist (`NotFound("recorder <id>")`).
pub fn recorder_port_result(id: RecorderId, slot: i32) -> (r: Result<ConfPort>)
    ensures
        slot >= 0 ==> r == Ok::<ConfPort, PjError>(ConfPort(slot)),
        slot < 0 ==> (r matches Err(PjError::NotFound(m)) && m@ == "recorder "@ + int_decimal(id.0 as int)),
{
    if slot < 0 {
        Err(PjError::NotFound(labelled_id("recorder ", id.0)))
    } else {
        Ok(ConfPort(slot))
    }
}

// ---------------------------------------------------------------------------
// Text handed to C
// ---------------------------------------------------------------------------

/// Whether `s` contains a NUL character (and so cannot become a C string).
pub fn contains_nul(s: &str) -> (b: bool)
    ensures
        b == s@.contains('\0'),
{
    let n = s.unicode_len();
    let mut i: usize = 0;
    while i < n
        invariant
            n == s@.len(),
            i <= n,
            forall|j: int| 0 <= j < i ==> s@[j] != '\0',
        decreases n - i,
    {
        if s.get_char(i) == '\0' {
            return true;
        }
        i += 1;
    }
    false
}

/// The check made before `pjsua_verify_sip_url`: a URL with a NUL character
/// is an invalid argument.
pub fn sip_url_precheck(url: &str) -> (r: Result<()>)
    ensures
        !url@.contains('\0') ==> r is Ok,
        url@.contains('\0') ==> (r matches Err(PjError::InvalidArg(m)) && m@ == "URL contains null byte"@),
{
    if contains_nul(url) {
        Err(PjError::InvalidArg(String::from_str("URL contains null byte")))
    } else {
        Ok(())
    }
}

/// The result of `pjsua_verify_sip_url`: any non-zero status makes the URL invalid.
pub fn sip_url_result(url: &str, status: i32) -> (r: Result<()>)
    ensures
        status == 0 ==> r is Ok,
        status != 0 ==> (r matches Err(PjError::InvalidArg(m)) && m@ == "invalid SIP URL: "@ + url@),
{
    if status != 0 {
        let mut m = String::from_str("invalid SIP URL: ");
        m.append(url);
        Err(PjError::InvalidArg(m))
    } else {
        Ok(())
    }
}

/// The check made before `pjsua_transport_set_published_address`: an address
/// with a NUL character is an invalid argument.
pub fn published_address_precheck(addr: &str) -> (r: Result<()>)
    ensures
        !addr@.contains('\0') ==> r is Ok,
        addr@.contains('\0') ==> (r matches Err(PjError::InvalidArg(m)) && m@ == "invalid address string"@),
{
    if contains_nul(addr) {
        Err(PjError::InvalidArg(String::from_str("invalid address string")))
    } else {
        Ok(())
    }
}

/// The name under which a thread is registered with PJLIB: the given name,
/// or `rust` when it cannot become a C string.
pub fn thread_name(name: &str) -> (r: String)
    ensures
        !name@.contains('\0') ==> r@ == name@,
        name@.contains('\0') ==> r@ == "rust"@,
{
    if contains_nul(name) {
        String::from_str("rust")
    } else {
        String::from_str(name)
    }
}

} // verus!
