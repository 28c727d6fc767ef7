//! The native account settings that an [`AccountConfig`] stands for.
//!
//! The glue layer copies an [`AccountSettings`] value field by field into a
//! `pjsua_acc_config` before `pjsua_acc_add` / `pjsua_acc_modify`.

use vstd::prelude::*;
use crate::types::{
    registrar_uri_of, secure_signaling_code, sip_uri_of, srtp_code, use_100rel_code,
    AccountConfig, SrtpMode, Use100Rel,
};

verus! {

/// Registration retry timers (seconds).
#[derive(Debug, Clone, Copy, PartialEq, Eq, Structural)]
pub struct RetryTimers {
    /// `reg_retry_interval`: retry after a failed registration.
    pub retry_interval: u32,
    /// `reg_first_retry_interval`: first retry after a transport failure.
    pub first_retry_interval: u32,
    /// `reg_retry_random_interval`: random jitter subtracted from the interval.
    pub random_interval: u32,
}

/// RTP port settings of the account's media transport.
#[derive(Debug, Clone, Copy, PartialEq, Eq, Structural)]
pub struct RtpPorts {
    /// `rtp_cfg.port`.
    pub port: u32,
    /// `rtp_cfg.port_range`, when configured.
    pub port_range: Option<u32>,
}

/// Plain-value form of the fields of `pjsua_acc_config` that this library sets.
#[derive(Debug, Clone)]
pub struct AccountSettings {
    /// `id`: the account's SIP URI.
    pub id_uri: String,
    /// `reg_uri`: the registrar URI.
    pub reg_uri: String,
    /// `cred_info[0].realm`.
    pub cred_realm: String,
    /// `cred_info[0].scheme`.
    pub cred_scheme: String,
    /// `cred_info[0].username`.
    pub cred_username: String,
    /// `cred_info[0].data` (plain-text password).
    pub cred_password: String,
    /// `cred_info[0].data_type` (`PJSIP_CRED_DATA_PLAIN_PASSWD`).
    pub cred_data_type: i32,
    /// `use_srtp`.
    pub use_srtp: u32,
    /// `allow_contact_rewrite`.
    pub allow_contact_rewrite: bool,
    /// `allow_via_rewrite`.
    pub allow_via_rewrite: bool,
    /// `allow_sdp_nat_rewrite`.
    pub allow_sdp_nat_rewrite: bool,
    /// `reg_timeout`, when configured.
    pub reg_timeout: Option<u32>,
    /// `proxy[0]` (with `proxy_cnt = 1`), when configured.
    pub proxy: Option<String>,
    /// Registration retry timers, when a retry interval is configured.
    pub retry: Option<RetryTimers>,
    /// RTP port settings, when an RTP start port is configured.
    pub rtp: Option<RtpPorts>,
    /// `transport_id`, when the account is pinned to a transport.
    pub transport_id: Option<i32>,
    /// `require_100rel`, when configured.
    pub require_100rel: Option<u32>,
    /// `srtp_secure_signaling`, when configured.
    pub srtp_secure_signaling: Option<u32>,
}

/// The retry timers for a retry interval: both intervals equal to it, and the
/// random jitter capped at a quarter of it so that the effective interval
/// never drops to zero.
pub open spec fn retry_timers_for(interval: u32) -> RetryTimers {
    RetryTimers { retry_interval: interval, first_retry_interval: interval, random_interval: interval / 4 }
}

/// The RTP settings: only when a start port is set; the range only together with it.
pub open spec fn rtp_ports_for(start: Option<u16>, range: Option<u16>) -> Option<RtpPorts> {
    match start {
        Some(s) => Some(RtpPorts {
            port: s as u32,
            port_range: match range {
                Some(r) => Some(r as u32),
                None => None,
            },
        }),
        None => None,
    }
}

/// The credential user name: the authentication user name when set, else the SIP user name.
pub open spec fn cred_username_of(c: AccountConfig) -> Seq<char> {
    match c.auth_username {
        Some(u) => u@,
        None => c.username@,
    }
}

/// The credential realm: the configured realm when set, else `*` (any realm).
pub open spec fn cred_realm_of(c: AccountConfig) -> Seq<char> {
    match c.realm {
        Some(r) => r@,
        None => "*"@,
    }
}

/// The random jitter never exceeds a quarter of the retry interval, so a
/// positive retry interval never becomes a zero effective interval.
pub proof fn law_retry_never_zero(interval: u32)
    ensures
        retry_timers_for(interval).random_interval * 4 <= interval,
        interval > 0 ==> retry_timers_for(interval).retry_interval
            - retry_timers_for(interval).random_interval > 0,
{
}

/// The native account settings for an account configuration.
pub open spec fn settings_match(s: AccountSettings, c: AccountConfig) -> bool {
    &&& s.id_uri@ == sip_uri_of(c)
    &&& s.reg_uri@ == registrar_uri_of(c)
    &&& s.cred_realm@ == cred_realm_of(c)
    &&& s.cred_scheme@ == "digest"@
    &&& s.cred_username@ == cred_username_of(c)
    &&& s.cred_password@ == c.password@
    &&& s.cred_data_type == 0
    &&& s.use_srtp == srtp_code(c.srtp)
    &&& !s.allow_contact_rewrite
    &&& !s.allow_via_rewrite
    &&& !s.allow_sdp_nat_rewrite
    &&& s.reg_timeout == c.reg_timeout
    &&& s.proxy == c.proxy
    &&& s.retry == (match c.reg_retry_interval {
        Some(i) => Some(retry_timers_for(i)),
        None => None,
    })
    &&& s.rtp == rtp_ports_for(c.rtp_port_start, c.rtp_port_range)
    &&& s.transport_id == c.transport_id
    &&& s.require_100rel == (match c.require_100rel {
        Some(u) => Some(use_100rel_code(u)),
        None => None,
    })
    &&& s.srtp_secure_signaling == (match c.srtp_secure_signaling {
        Some(x) => Some(secure_signaling_code(x)),
        None => None,
    })
}

/// What the native account settings hold, for every configuration:
/// digest credentials with the plain password (data type 0), the realm `*`
/// unless one is configured, the authentication user name unless absent
/// (then the SIP user name); PJSIP's Contact, Via and SDP rewriting off;
/// SRTP as 0, 1 or 2 for disabled, optional, mandatory; 100rel as 0, 1 or 2
/// for not used, mandatory, optional; and a retry interval `i` sets both
/// intervals to `i` and the jitter to `i / 4`.
pub proof fn law_account_settings_values(s: AccountSettings, c: AccountConfig)
    requires
        settings_match(s, c),
    ensures
        s.cred_scheme@ == "digest"@,
        s.cred_data_type == 0,
        s.cred_password@ == c.password@,
        c.realm is None ==> s.cred_realm@ == "*"@,
        c.realm matches Some(r) ==> s.cred_realm@ == r@,
        c.auth_username is None ==> s.cred_username@ == c.username@,
        c.auth_username matches Some(u) ==> s.cred_username@ == u@,
        !s.allow_contact_rewrite && !s.allow_via_rewrite && !s.allow_sdp_nat_rewrite,
        c.srtp == SrtpMode::Disabled ==> s.use_srtp == 0,
        c.srtp == SrtpMode::Optional ==> s.use_srtp == 1,
        c.srtp == SrtpMode::Mandatory ==> s.use_srtp == 2,
        c.require_100rel == Some(Use100Rel::NotUsed) ==> s.require_100rel == Some(0u32),
        c.require_100rel == Some(Use100Rel::Mandatory) ==> s.require_100rel == Some(1u32),
        c.require_100rel == Some(Use100Rel::Optional) ==> s.require_100rel == Some(2u32),
        c.require_100rel is None ==> s.require_100rel is None,
        c.reg_retry_interval matches Some(i) ==> (s.retry matches Some(t) && t.retry_interval == i
            && t.first_retry_interval == i && t.random_interval == i / 4),
        c.reg_retry_interval is None ==> s.retry is None,
        c.rtp_port_start is None ==> s.rtp is None,
        c.rtp_port_start matches Some(p) ==> (s.rtp matches Some(r) && r.port == p),
{
}

/// Compute the native account settings for `config`.
///
/// Credentials use digest authentication with the plain password, the
/// authentication user name (or the SIP user name) and the realm (or `*`).
/// PJSIP's NAT rewriting of Contact, Via and SDP is switched off. The retry
/// interval sets both retry timers and caps the random jitter at a quarter of
/// it. The RTP range applies only together with an RTP start port.
pub fn account_settings(config: &AccountConfig) -> (s: AccountSettings)
    ensures
        settings_match(s, *config),
{
    let cred_realm = match &config.realm {
        Some(r) => r.clone(),
        None => String::from_str("*"),
    };
    let cred_username = match &config.auth_username {
        Some(u) => u.clone(),
        None => config.username.clone(),
    };
    let proxy = match &config.proxy {
        Some(p) => Some(p.clone()),
        None => None,
    };
    let retry = match config.reg_retry_interval {
        Some(interval) => Some(RetryTimers {
            retry_interval: interval,
            first_retry_interval: interval,
            random_interval: interval / 4,
        }),
        None => None,
    };
    let rtp = match config.rtp_port_start {
        Some(start) => Some(RtpPorts {
            port: start as u32,
            port_range: match config.rtp_port_range {
                Some(range) => Some(range as u32),
                None => None,
            },
        }),
        None => None,
    };
    let require_100rel = match config.require_100rel {
        Some(u) => Some(u.to_pjsip()),
        None => None,
    };
    let srtp_secure_signaling = match config.srtp_secure_signaling {
        Some(x) => Some(x.to_pjsip()),
        None => None,
    };
    AccountSettings {
        id_uri: config.sip_uri(),
        reg_uri: config.registrar_uri(),
        cred_realm,
        cred_scheme: String::from_str("digest"),
        cred_username,
        cred_password: config.password.clone(),
        cred_data_type: 0,
        use_srtp: config.srtp.to_pjsip(),
        allow_contact_rewrite: false,
        allow_via_rewrite: false,
        allow_sdp_nat_rewrite: false,
        reg_timeout: config.reg_timeout,
        proxy,
        retry,
        rtp,
        transport_id: config.transport_id,
        require_100rel,
        srtp_secure_signaling,
    }
}

} // verus!
