//! Error values of the library and the PJSIP status check.

use vstd::prelude::*;
use crate::text::{int_decimal, push_decimal_i64};

verus! {

/// Result type alias using [`PjError`].
pub type Result<T> = std::result::Result<T, PjError>;

/// Errors originating from PJSIP or this crate's operations.
#[derive(Debug, Clone)]
pub enum PjError {
    /// A PJSIP function returned a non-success status code.
    Pjsip { status: i32, message: String },
    /// An invalid argument was provided.
    InvalidArg(String),
    /// A requested resource was not found.
    NotFound(String),
    /// PJSUA is already initialized.
    AlreadyInitialized,
    /// A resource is already in use.
    AlreadyInUse(String),
    /// PJSUA has not been initialized yet.
    NotInitialized,
    /// Configuration error.
    Config(String),
}

/// The human-readable text of an error.
pub open spec fn error_text(e: PjError) -> Seq<char> {
    match e {
        PjError::Pjsip { status, message } => "PJSIP error "@ + int_decimal(status as int) + ": "@
            + message@,
        PjError::InvalidArg(m) => "Invalid argument: "@ + m@,
        PjError::NotFound(m) => "Not found: "@ + m@,
        PjError::AlreadyInitialized => "PJSUA already initialized"@,
        PjError::AlreadyInUse(m) => "Already in use: "@ + m@,
        PjError::NotInitialized => "PJSUA not initialized"@,
        PjError::Config(m) => "Config error: "@ + m@,
    }
}

fn prefixed(prefix: &str, rest: &String) -> (s: String)
    ensures
        s@ == prefix@ + rest@,
{
    let mut s = String::from_str(prefix);
    s.append(rest.as_str());
    s
}

impl PjError {
    /// The human-readable text of the error (e.g. `Invalid argument: bad value`).
    pub fn to_string(&self) -> (s: String)
        ensures
            s@ == error_text(*self),
    {
        match self {
            PjError::Pjsip { status, message } => {
                let mut s = String::from_str("PJSIP error ");
                push_decimal_i64(&mut s, *status as i64);
                s.append(": ");
                s.append(message.as_str());
                s
            },
            PjError::InvalidArg(m) => prefixed("Invalid argument: ", m),
            PjError::NotFound(m) => prefixed("Not found: ", m),
            PjError::AlreadyInitialized => String::from_str("PJSUA already initialized"),
            PjError::AlreadyInUse(m) => prefixed("Already in use: ", m),
            PjError::NotInitialized => String::from_str("PJSUA not initialized"),
            PjError::Config(m) => prefixed("Config error: ", m),
        }
    }
}

/// Create a `PjError::Pjsip` from a non-zero status code and the text that
/// PJSIP gives for it.
pub fn make_pj_error(status: i32, message: String) -> (e: PjError)
    ensures
        e == (PjError::Pjsip { status, message }),
{
    PjError::Pjsip { status, message }
}

/// Check a `pj_status_t` return value: `Ok(())` for `PJ_SUCCESS` (0), else
/// `Err(PjError::Pjsip)` carrying the status and PJSIP's text for it.
pub fn check_status(status: i32, message: String) -> (r: Result<()>)
    ensures
        r is Ok <==> status == 0,
        status != 0 ==> r == Err::<(), PjError>(PjError::Pjsip { status, message }),
{
    if status == 0 {
        Ok(())
    } else {
        Err(PjError::Pjsip { status, message })
    }
}

} // verus!
