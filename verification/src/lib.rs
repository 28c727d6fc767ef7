//! Verified core of a PJSUA (PJSIP user agent) binding: SIP identifiers and
//! enumerations, URI construction, TOML configuration decoding, error
//! values, and the decisions that the native glue layer follows.

pub mod account;
pub mod config;
pub mod error;
pub mod event;
pub mod logging;
pub mod media_port;
pub mod session;
pub mod text;
pub mod tonegen;
pub mod types;
pub mod version;

pub use config::Config;
pub use error::{check_status, make_pj_error, PjError, Result};
pub use event::SipEvent;
pub use media_port::{AudioFrame, MediaPort};
pub use tonegen::{DtmfDigit, ToneDesc};
pub use types::{
    AccountConfig, AccountId, AccountInfo, CallId, CallInfo, CallSetting, CallState, ConfPort,
    DtmfMethod, MediaStatus, PjsuaConfig, PlayerId, RecorderId, SipMessageInfo, SrtpMode,
    SrtpSecureSignaling, TlsConfig, TraceDirection, TransportId, TransportType, Use100Rel,
};
