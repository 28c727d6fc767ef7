//! TOML-based configuration for PJSUA accounts and general settings.
//!
//! The TOML text is parsed by the `toml` crate into a value tree
//! ([`TomlValue`]); [`Config::from_document`] then decodes that tree into a
//! [`Config`] the way serde reads the configuration structs: keys in
//! document order, the documented defaults, unknown keys ignored, and serde's
//! wording for each error.

use vstd::prelude::*;
use crate::error::{PjError, Result};
use crate::text::{int_decimal, nat_decimal, push_decimal_i64, push_decimal_u64};
use crate::types::{
    clone_opt, srtp_name, srtp_named, transport_name, transport_named, AccountConfig, PjsuaConfig, SrtpMode, TransportType,
};

verus! {

// ---------------------------------------------------------------------------
// The parsed TOML document
// ---------------------------------------------------------------------------

/// A TOML value as read from a document. No configuration field accepts a
/// float or a datetime: a float is kept as the text serde gives it in an
/// error (``floating point `1.5` ``), a datetime as a bare marker.
#[derive(Debug)]
pub enum TomlValue {
    Str(String),
    Int(i64),
    Float(String),
    Bool(bool),
    Datetime,
    Array(Vec<TomlValue>),
    Table(Vec<(String, TomlValue)>),
}

#[verifier::external_type_specification]
#[verifier::external_body]
pub struct ExTomlValue(toml::Value);

/// What the `toml` crate reads from a document text: the root table, or the
/// text of its parse error.
pub uninterp spec fn toml_document(text: Seq<char>) -> std::result::Result<TomlValue, Seq<char>>;

/// One-for-one copy of a `toml::Value` tree into [`TomlValue`]: strings,
/// integers and booleans as they are, array items in order, table entries in
/// the table's own (document) order; a float becomes serde's description
/// of it as an unexpected value, a datetime its marker. It is the conversion step of
/// [`parse_toml_document`]; no contract is claimed of it on its own.
#[verifier::external_body]
fn copy_toml_value(value: &toml::Value) -> TomlValue {
    match value {
        toml::Value::String(s) => TomlValue::Str(s.clone()),
        toml::Value::Integer(i) => TomlValue::Int(*i),
        toml::Value::Float(f) => TomlValue::Float(serde::de::Unexpected::Float(*f).to_string()),
        toml::Value::Boolean(b) => TomlValue::Bool(*b),
        toml::Value::Datetime(_) => TomlValue::Datetime,
        toml::Value::Array(items) => TomlValue::Array(items.iter().map(copy_toml_value).collect()),
        toml::Value::Table(t) => TomlValue::Table(
            t.iter().map(|(k, v)| (k.clone(), copy_toml_value(v))).collect(),
        ),
    }
}

/// Parses a TOML document with `toml::Table::from_str` (the `toml` crate)
/// and copies the root table into a [`TomlValue::Table`]; on a syntax error
/// it returns the crate's error text. The contract claims that the outcome is
/// `toml_document(text)`, that is, a function of the text alone, and that a
/// successful parse yields a table.
#[verifier::external_body]
fn parse_toml_document(text: &str) -> (res: std::result::Result<TomlValue, String>)
    ensures
        match res {
            Ok(doc) => toml_document(text@) == Ok::<TomlValue, Seq<char>>(doc) && doc is Table,
            Err(msg) => toml_document(text@) == Err::<TomlValue, Seq<char>>(msg@),
        },
{
    match text.parse::<toml::Table>() {
        Ok(table) => Ok(copy_toml_value(&toml::Value::Table(table))),
        Err(e) => Err(e.to_string()),
    }
}

// ---------------------------------------------------------------------------
// Config structs
// ---------------------------------------------------------------------------

/// Top-level TOML configuration.
#[derive(Debug, Clone)]
pub struct Config {
    pub general: GeneralConfig,
    pub accounts: Vec<TomlAccountConfig>,
}

/// General PJSUA settings from the `[general]` TOML section.
#[derive(Debug, Clone)]
pub struct GeneralConfig {
    pub log_level: u32,
    pub clock_rate: u32,
    pub null_audio: bool,
}

fn default_log_level() -> (l: u32)
    ensures
        l == 3,
{
    3
}

fn default_clock_rate() -> (r: u32)
    ensures
        r == 16000,
{
    16000
}

fn default_true() -> (b: bool)
    ensures
        b,
{
    true
}

fn default_port() -> (p: u16)
    ensures
        p == 5060,
{
    5060
}

/// The `[general]` settings used when the section or a key is absent.
pub open spec fn default_general() -> GeneralConfig {
    GeneralConfig { log_level: 3, clock_rate: 16000, null_audio: true }
}

impl Default for GeneralConfig {
    fn default() -> (g: Self)
        ensures
            g == default_general(),
    {
        GeneralConfig {
            log_level: default_log_level(),
            clock_rate: default_clock_rate(),
            null_audio: default_true(),
        }
    }
}

/// A single SIP account entry from `[[accounts]]`.
#[derive(Debug, Clone)]
pub struct TomlAccountConfig {
    pub name: String,
    pub username: String,
    pub password: String,
    pub server: String,
    pub port: u16,
    pub transport: TransportType,
    pub srtp: SrtpMode,
    pub display_name: Option<String>,
    pub auth_username: Option<String>,
    pub realm: Option<String>,
    pub reg_timeout: Option<u32>,
    pub use_sips: bool,
    pub registrar: Option<String>,
    pub proxy: Option<String>,
    pub access_code: Option<String>,
}

// ---------------------------------------------------------------------------
// Decoding rules
// ---------------------------------------------------------------------------

/// Whether an executable result and a specified result agree: the same value,
/// or an error whose text is the specified text.
pub open spec fn agrees<T>(r: std::result::Result<T, String>, s: std::result::Result<T, Seq<char>>) -> bool {
    match (r, s) {
        (Ok(a), Ok(b)) => a == b,
        (Err(e), Err(m)) => e@ == m,
        _ => false,
    }
}

/// The value stored under `key` in a table's entries (the first such entry).
pub open spec fn table_lookup(entries: Seq<(String, TomlValue)>, key: Seq<char>) -> Option<TomlValue>
    decreases entries.len(),
{
    if entries.len() == 0 {
        None
    } else if entries[0].0@ == key {
        Some(entries[0].1)
    } else {
        table_lookup(entries.drop_first(), key)
    }
}

/// What serde writes for a string met where another type was expected:
/// `serde::de::Unexpected::Str` displayed, that is `string` and the text
/// quoted and escaped as Rust's `Debug` writes it.
pub uninterp spec fn serde_str_unexpected(text: Seq<char>) -> Seq<char>;

/// `serde::de::Unexpected::Str(text)` displayed (serde). The contract claims
/// that the result is `serde_str_unexpected(text)`, a function of the text.
#[verifier::external_body]
fn describe_str(text: &str) -> (d: String)
    ensures
        d@ == serde_str_unexpected(text@),
{
    serde::de::Unexpected::Str(text).to_string()
}

/// `true` or `false`.
pub open spec fn bool_text(b: bool) -> Seq<char> {
    if b { "true"@ } else { "false"@ }
}

/// How serde names a value of the wrong type: the TOML deserializer hands a
/// string, an integer (`i64`), a float, a boolean, an array (a sequence) or
/// a table (a map) to the visitor, and a datetime as a map.
pub open spec fn unexpected_text(v: TomlValue) -> Seq<char> {
    match v {
        TomlValue::Str(s) => serde_str_unexpected(s@),
        TomlValue::Int(i) => "integer `"@ + int_decimal(i as int) + "`"@,
        TomlValue::Float(d) => d@,
        TomlValue::Bool(b) => "boolean `"@ + bool_text(b) + "`"@,
        TomlValue::Datetime => "map"@,
        TomlValue::Array(_) => "sequence"@,
        TomlValue::Table(_) => "map"@,
    }
}

/// serde's error for a value of the wrong type.
pub open spec fn invalid_type_text(v: TomlValue, expected: Seq<char>) -> Seq<char> {
    "invalid type: "@ + unexpected_text(v) + ", expected "@ + expected
}

/// serde's error for an integer out of the range of the expected type.
pub open spec fn invalid_int_text(i: i64, expected: Seq<char>) -> Seq<char> {
    "invalid value: integer `"@ + int_decimal(i as int) + "`, expected "@ + expected
}

/// serde's error for a required key that is absent.
pub open spec fn missing_text(key: Seq<char>) -> Seq<char> {
    "missing field `"@ + key + "`"@
}

/// serde's error for an array too short for a struct written as an array.
pub open spec fn invalid_length_text(index: nat, expected: Seq<char>) -> Seq<char> {
    "invalid length "@ + nat_decimal(index) + ", expected "@ + expected
}

/// serde's error for a name that is no variant of an enumeration.
pub open spec fn unknown_variant_text(name: Seq<char>, expected: Seq<char>) -> Seq<char> {
    "unknown variant `"@ + name + "`, expected "@ + expected
}

/// An unsigned integer that fits in `u32`.
pub open spec fn dec_u32(v: TomlValue) -> std::result::Result<u32, Seq<char>> {
    match v {
        TomlValue::Int(i) => if 0 <= i <= u32::MAX { Ok(i as u32) } else { Err(invalid_int_text(i, "u32"@)) },
        _ => Err(invalid_type_text(v, "u32"@)),
    }
}

/// An unsigned integer that fits in `u16`.
pub open spec fn dec_u16(v: TomlValue) -> std::result::Result<u16, Seq<char>> {
    match v {
        TomlValue::Int(i) => if 0 <= i <= u16::MAX { Ok(i as u16) } else { Err(invalid_int_text(i, "u16"@)) },
        _ => Err(invalid_type_text(v, "u16"@)),
    }
}

/// A boolean.
pub open spec fn dec_bool(v: TomlValue) -> std::result::Result<bool, Seq<char>> {
    match v {
        TomlValue::Bool(b) => Ok(b),
        _ => Err(invalid_type_text(v, "a boolean"@)),
    }
}

/// A string.
pub open spec fn dec_string(v: TomlValue) -> std::result::Result<String, Seq<char>> {
    match v {
        TomlValue::Str(s) => Ok(s),
        _ => Err(invalid_type_text(v, "a string"@)),
    }
}

/// An optional string that is present.
pub open spec fn dec_some_string(v: TomlValue) -> std::result::Result<Option<String>, Seq<char>> {
    match dec_string(v) {
        Ok(s) => Ok(Some(s)),
        Err(m) => Err(m),
    }
}

/// An optional `u32` that is present.
pub open spec fn dec_some_u32(v: TomlValue) -> std::result::Result<Option<u32>, Seq<char>> {
    match dec_u32(v) {
        Ok(x) => Ok(Some(x)),
        Err(m) => Err(m),
    }
}

/// The value of a unit variant written as a table (`{ udp = {} }`) must be
/// an empty table or array.
pub open spec fn unit_variant_error(v: TomlValue) -> Option<Seq<char>> {
    match v {
        TomlValue::Table(e) => if e@.len() == 0 { None } else { Some("expected empty table"@) },
        TomlValue::Array(a) => if a@.len() == 0 { None } else { Some("expected empty table"@) },
        TomlValue::Str(_) => Some("expected table, found string"@),
        TomlValue::Int(_) => Some("expected table, found integer"@),
        TomlValue::Float(_) => Some("expected table, found float"@),
        TomlValue::Bool(_) => Some("expected table, found boolean"@),
        TomlValue::Datetime => Some("expected table, found datetime"@),
    }
}

/// The error for an enumeration written as an empty table.
pub open spec fn no_variant_text() -> Seq<char> {
    "wanted exactly 1 element, found 0 elements"@
}

/// The error for an enumeration written as a table of several entries.
pub open spec fn many_variants_text() -> Seq<char> {
    "wanted exactly 1 element, more than 1 element"@
}

/// The error for an enumeration written as neither a string nor a table.
pub open spec fn not_variant_text() -> Seq<char> {
    "wanted string or table"@
}

/// The transport names, as serde lists them.
pub open spec fn transport_variants() -> Seq<char> {
    "one of `udp`, `tcp`, `tls`"@
}

/// The SRTP mode names, as serde lists them.
pub open spec fn srtp_variants() -> Seq<char> {
    "one of `disabled`, `optional`, `mandatory`"@
}

/// A transport: its name as a string, or a table with the name as its one
/// key and an empty value.
pub open spec fn dec_transport(v: TomlValue) -> std::result::Result<TransportType, Seq<char>> {
    match v {
        TomlValue::Str(s) => match transport_named(s@) {
            Some(t) => Ok(t),
            None => Err(unknown_variant_text(s@, transport_variants())),
        },
        TomlValue::Table(e) => if e@.len() == 0 {
            Err(no_variant_text())
        } else if e@.len() > 1 {
            Err(many_variants_text())
        } else {
            match transport_named(e@[0].0@) {
                None => Err(unknown_variant_text(e@[0].0@, transport_variants())),
                Some(t) => match unit_variant_error(e@[0].1) {
                    None => Ok(t),
                    Some(m) => Err(m),
                },
            }
        },
        _ => Err(not_variant_text()),
    }
}

/// An SRTP mode: its name as a string, or a table with the name as its one
/// key and an empty value.
pub open spec fn dec_srtp(v: TomlValue) -> std::result::Result<SrtpMode, Seq<char>> {
    match v {
        TomlValue::Str(s) => match srtp_named(s@) {
            Some(m) => Ok(m),
            None => Err(unknown_variant_text(s@, srtp_variants())),
        },
        TomlValue::Table(e) => if e@.len() == 0 {
            Err(no_variant_text())
        } else if e@.len() > 1 {
            Err(many_variants_text())
        } else {
            match srtp_named(e@[0].0@) {
                None => Err(unknown_variant_text(e@[0].0@, srtp_variants())),
                Some(m) => match unit_variant_error(e@[0].1) {
                    None => Ok(m),
                    Some(msg) => Err(msg),
                },
            }
        },
        _ => Err(not_variant_text()),
    }
}

/// The error of a result, if it is one.
pub open spec fn error_of<T>(r: std::result::Result<T, Seq<char>>) -> Option<Seq<char>> {
    match r {
        Ok(_) => None,
        Err(m) => Some(m),
    }
}

/// The string-valued keys of an account.
pub open spec fn is_account_string_key(k: Seq<char>) -> bool {
    ||| k == "name"@
    ||| k == "username"@
    ||| k == "password"@
    ||| k == "server"@
    ||| k == "display_name"@
    ||| k == "auth_username"@
    ||| k == "realm"@
    ||| k == "registrar"@
    ||| k == "proxy"@
    ||| k == "access_code"@
}

/// The error of one entry of an account table; keys the format does not
/// know are ignored.
pub open spec fn account_key_error(k: Seq<char>, v: TomlValue) -> Option<Seq<char>> {
    if is_account_string_key(k) {
        error_of(dec_string(v))
    } else if k == "port"@ {
        error_of(dec_u16(v))
    } else if k == "transport"@ {
        error_of(dec_transport(v))
    } else if k == "srtp"@ {
        error_of(dec_srtp(v))
    } else if k == "reg_timeout"@ {
        error_of(dec_u32(v))
    } else if k == "use_sips"@ {
        error_of(dec_bool(v))
    } else {
        None
    }
}

/// The error of the first entry of an account table, in document order, that
/// does not decode.
pub open spec fn first_account_error(e: Seq<(String, TomlValue)>) -> Option<Seq<char>>
    decreases e.len(),
{
    if e.len() == 0 {
        None
    } else {
        match account_key_error(e[0].0@, e[0].1) {
            Some(m) => Some(m),
            None => first_account_error(e.drop_first()),
        }
    }
}

/// The error of one entry of the `[general]` table.
pub open spec fn general_key_error(k: Seq<char>, v: TomlValue) -> Option<Seq<char>> {
    if k == "log_level"@ || k == "clock_rate"@ {
        error_of(dec_u32(v))
    } else if k == "null_audio"@ {
        error_of(dec_bool(v))
    } else {
        None
    }
}

/// The error of the first entry of the `[general]` table that does not decode.
pub open spec fn first_general_error(e: Seq<(String, TomlValue)>) -> Option<Seq<char>>
    decreases e.len(),
{
    if e.len() == 0 {
        None
    } else {
        match general_key_error(e[0].0@, e[0].1) {
            Some(m) => Some(m),
            None => first_general_error(e.drop_first()),
        }
    }
}

// Fields of a table.

/// A `u32` key, with a default when absent.
pub open spec fn spec_u32_or(e: Seq<(String, TomlValue)>, key: Seq<char>, default: u32) -> std::result::Result<u32, Seq<char>> {
    match table_lookup(e, key) {
        None => Ok(default),
        Some(v) => dec_u32(v),
    }
}

/// An optional `u32` key.
pub open spec fn spec_opt_u32(e: Seq<(String, TomlValue)>, key: Seq<char>) -> std::result::Result<Option<u32>, Seq<char>> {
    match table_lookup(e, key) {
        None => Ok(None),
        Some(v) => dec_some_u32(v),
    }
}

/// A `u16` key, with a default when absent.
pub open spec fn spec_u16_or(e: Seq<(String, TomlValue)>, key: Seq<char>, default: u16) -> std::result::Result<u16, Seq<char>> {
    match table_lookup(e, key) {
        None => Ok(default),
        Some(v) => dec_u16(v),
    }
}

/// A boolean key, with a default when absent.
pub open spec fn spec_bool_or(e: Seq<(String, TomlValue)>, key: Seq<char>, default: bool) -> std::result::Result<bool, Seq<char>> {
    match table_lookup(e, key) {
        None => Ok(default),
        Some(v) => dec_bool(v),
    }
}

/// A required string key.
pub open spec fn spec_string(e: Seq<(String, TomlValue)>, key: Seq<char>) -> std::result::Result<String, Seq<char>> {
    match table_lookup(e, key) {
        None => Err(missing_text(key)),
        Some(v) => dec_string(v),
    }
}

/// An optional string key.
pub open spec fn spec_opt_string(e: Seq<(String, TomlValue)>, key: Seq<char>) -> std::result::Result<Option<String>, Seq<char>> {
    match table_lookup(e, key) {
        None => Ok(None),
        Some(v) => dec_some_string(v),
    }
}

/// The `transport` key: UDP when absent.
pub open spec fn spec_transport(e: Seq<(String, TomlValue)>) -> std::result::Result<TransportType, Seq<char>> {
    match table_lookup(e, "transport"@) {
        None => Ok(TransportType::Udp),
        Some(v) => dec_transport(v),
    }
}

/// The `srtp` key: disabled when absent.
pub open spec fn spec_srtp(e: Seq<(String, TomlValue)>) -> std::result::Result<SrtpMode, Seq<char>> {
    match table_lookup(e, "srtp"@) {
        None => Ok(SrtpMode::Disabled),
        Some(v) => dec_srtp(v),
    }
}

// Fields of a struct written as an array.

/// Item `i` of an array, if it has one.
pub open spec fn seq_elem(items: Seq<TomlValue>, i: nat) -> Option<TomlValue> {
    if i < items.len() { Some(items[i as int]) } else { None }
}

/// A required string item.
pub open spec fn seq_string(items: Seq<TomlValue>, i: nat, expected: Seq<char>) -> std::result::Result<String, Seq<char>> {
    match seq_elem(items, i) {
        None => Err(invalid_length_text(i, expected)),
        Some(v) => dec_string(v),
    }
}

/// An `Option<String>` item: it must be present (as a string).
pub open spec fn seq_opt_string(items: Seq<TomlValue>, i: nat, expected: Seq<char>) -> std::result::Result<Option<String>, Seq<char>> {
    match seq_elem(items, i) {
        None => Err(invalid_length_text(i, expected)),
        Some(v) => dec_some_string(v),
    }
}

/// An `Option<u32>` item: it must be present (as an integer).
pub open spec fn seq_opt_u32(items: Seq<TomlValue>, i: nat, expected: Seq<char>) -> std::result::Result<Option<u32>, Seq<char>> {
    match seq_elem(items, i) {
        None => Err(invalid_length_text(i, expected)),
        Some(v) => dec_some_u32(v),
    }
}

/// A `u32` item, with a default when the array is shorter.
pub open spec fn seq_u32_or(items: Seq<TomlValue>, i: nat, default: u32) -> std::result::Result<u32, Seq<char>> {
    match seq_elem(items, i) {
        None => Ok(default),
        Some(v) => dec_u32(v),
    }
}

/// A `u16` item, with a default when the array is shorter.
pub open spec fn seq_u16_or(items: Seq<TomlValue>, i: nat, default: u16) -> std::result::Result<u16, Seq<char>> {
    match seq_elem(items, i) {
        None => Ok(default),
        Some(v) => dec_u16(v),
    }
}

/// A boolean item, with a default when the array is shorter.
pub open spec fn seq_bool_or(items: Seq<TomlValue>, i: nat, default: bool) -> std::result::Result<bool, Seq<char>> {
    match seq_elem(items, i) {
        None => Ok(default),
        Some(v) => dec_bool(v),
    }
}

/// A transport item, UDP when the array is shorter.
pub open spec fn seq_transport(items: Seq<TomlValue>, i: nat) -> std::result::Result<TransportType, Seq<char>> {
    match seq_elem(items, i) {
        None => Ok(TransportType::Udp),
        Some(v) => dec_transport(v),
    }
}

/// An SRTP item, disabled when the array is shorter.
pub open spec fn seq_srtp(items: Seq<TomlValue>, i: nat) -> std::result::Result<SrtpMode, Seq<char>> {
    match seq_elem(items, i) {
        None => Ok(SrtpMode::Disabled),
        Some(v) => dec_srtp(v),
    }
}

// Accounts.

/// An account from its fields' results, taken in declaration order: the
/// first error, or the account.
pub open spec fn account_from(
    name: std::result::Result<String, Seq<char>>,
    username: std::result::Result<String, Seq<char>>,
    password: std::result::Result<String, Seq<char>>,
    server: std::result::Result<String, Seq<char>>,
    port: std::result::Result<u16, Seq<char>>,
    transport: std::result::Result<TransportType, Seq<char>>,
    srtp: std::result::Result<SrtpMode, Seq<char>>,
    display_name: std::result::Result<Option<String>, Seq<char>>,
    auth_username: std::result::Result<Option<String>, Seq<char>>,
    realm: std::result::Result<Option<String>, Seq<char>>,
    reg_timeout: std::result::Result<Option<u32>, Seq<char>>,
    use_sips: std::result::Result<bool, Seq<char>>,
    registrar: std::result::Result<Option<String>, Seq<char>>,
    proxy: std::result::Result<Option<String>, Seq<char>>,
    access_code: std::result::Result<Option<String>, Seq<char>>,
) -> std::result::Result<TomlAccountConfig, Seq<char>> {
    if name is Err { Err(name->Err_0) }
    else if username is Err { Err(username->Err_0) }
    else if password is Err { Err(password->Err_0) }
    else if server is Err { Err(server->Err_0) }
    else if port is Err { Err(port->Err_0) }
    else if transport is Err { Err(transport->Err_0) }
    else if srtp is Err { Err(srtp->Err_0) }
    else if display_name is Err { Err(display_name->Err_0) }
    else if auth_username is Err { Err(auth_username->Err_0) }
    else if realm is Err { Err(realm->Err_0) }
    else if reg_timeout is Err { Err(reg_timeout->Err_0) }
    else if use_sips is Err { Err(use_sips->Err_0) }
    else if registrar is Err { Err(registrar->Err_0) }
    else if proxy is Err { Err(proxy->Err_0) }
    else if access_code is Err { Err(access_code->Err_0) }
    else {
        Ok(TomlAccountConfig {
            name: name->Ok_0,
            username: username->Ok_0,
            password: password->Ok_0,
            server: server->Ok_0,
            port: port->Ok_0,
            transport: transport->Ok_0,
            srtp: srtp->Ok_0,
            display_name: display_name->Ok_0,
            auth_username: auth_username->Ok_0,
            realm: realm->Ok_0,
            reg_timeout: reg_timeout->Ok_0,
            use_sips: use_sips->Ok_0,
            registrar: registrar->Ok_0,
            proxy: proxy->Ok_0,
            access_code: access_code->Ok_0,
        })
    }
}

/// The fields of an account table: absent required keys are missing, the
/// others take their defaults.
pub open spec fn spec_account_fields(e: Seq<(String, TomlValue)>) -> std::result::Result<TomlAccountConfig, Seq<char>> {
    account_from(
        spec_string(e, "name"@),
        spec_string(e, "username"@),
        spec_string(e, "password"@),
        spec_string(e, "server"@),
        spec_u16_or(e, "port"@, 5060),
        spec_transport(e),
        spec_srtp(e),
        spec_opt_string(e, "display_name"@),
        spec_opt_string(e, "auth_username"@),
        spec_opt_string(e, "realm"@),
        spec_opt_u32(e, "reg_timeout"@),
        spec_bool_or(e, "use_sips"@, false),
        spec_opt_string(e, "registrar"@),
        spec_opt_string(e, "proxy"@),
        spec_opt_string(e, "access_code"@),
    )
}

/// One account table: the first entry, in document order, whose value does
/// not decode; else the first absent required key (`name`, `username`,
/// `password`, `server`); else the account.
pub open spec fn spec_account(e: Seq<(String, TomlValue)>) -> std::result::Result<TomlAccountConfig, Seq<char>> {
    match first_account_error(e) {
        Some(m) => Err(m),
        None => spec_account_fields(e),
    }
}

/// What an account array too short for a field without a default expects.
pub open spec fn account_seq_expected() -> Seq<char> {
    "struct TomlAccountConfig with 15 elements"@
}

/// An account written as an array of its fields in declaration order; items
/// past the end take their defaults where the field has one.
pub open spec fn spec_account_seq(items: Seq<TomlValue>) -> std::result::Result<TomlAccountConfig, Seq<char>> {
    let x = account_seq_expected();
    account_from(
        seq_string(items, 0, x),
        seq_string(items, 1, x),
        seq_string(items, 2, x),
        seq_string(items, 3, x),
        seq_u16_or(items, 4, 5060),
        seq_transport(items, 5),
        seq_srtp(items, 6),
        seq_opt_string(items, 7, x),
        seq_opt_string(items, 8, x),
        seq_opt_string(items, 9, x),
        seq_opt_u32(items, 10, x),
        seq_bool_or(items, 11, false),
        seq_opt_string(items, 12, x),
        seq_opt_string(items, 13, x),
        seq_opt_string(items, 14, x),
    )
}

/// One entry of the `accounts` array: a table, an array of the fields, or a
/// datetime (read as a table with no known key).
pub open spec fn spec_account_value(v: TomlValue) -> std::result::Result<TomlAccountConfig, Seq<char>> {
    match v {
        TomlValue::Table(e) => spec_account(e@),
        TomlValue::Array(items) => spec_account_seq(items@),
        TomlValue::Datetime => Err(missing_text("name"@)),
        _ => Err(invalid_type_text(v, "struct TomlAccountConfig"@)),
    }
}

/// All entries of the `accounts` array in order, or the error of the first
/// entry that does not decode.
pub open spec fn spec_account_list(items: Seq<TomlValue>) -> std::result::Result<Seq<TomlAccountConfig>, Seq<char>>
    decreases items.len(),
{
    if items.len() == 0 {
        Ok(Seq::empty())
    } else {
        match spec_account_list(items.drop_last()) {
            Err(m) => Err(m),
            Ok(prefix) => match spec_account_value(items.last()) {
                Err(m) => Err(m),
                Ok(a) => Ok(prefix.push(a)),
            },
        }
    }
}

/// The value of `accounts`: an array.
pub open spec fn spec_accounts_value(v: TomlValue) -> std::result::Result<Seq<TomlAccountConfig>, Seq<char>> {
    match v {
        TomlValue::Array(items) => spec_account_list(items@),
        _ => Err(invalid_type_text(v, "a sequence"@)),
    }
}

// General settings.

/// The general settings from their fields' results, in declaration order.
pub open spec fn general_from(
    log_level: std::result::Result<u32, Seq<char>>,
    clock_rate: std::result::Result<u32, Seq<char>>,
    null_audio: std::result::Result<bool, Seq<char>>,
) -> std::result::Result<GeneralConfig, Seq<char>> {
    if log_level is Err { Err(log_level->Err_0) }
    else if clock_rate is Err { Err(clock_rate->Err_0) }
    else if null_audio is Err { Err(null_audio->Err_0) }
    else {
        Ok(GeneralConfig {
            log_level: log_level->Ok_0,
            clock_rate: clock_rate->Ok_0,
            null_audio: null_audio->Ok_0,
        })
    }
}

/// The `[general]` table: the first entry that does not decode, else each
/// key with its default when absent.
pub open spec fn spec_general_table(g: Seq<(String, TomlValue)>) -> std::result::Result<GeneralConfig, Seq<char>> {
    match first_general_error(g) {
        Some(m) => Err(m),
        None => general_from(
            spec_u32_or(g, "log_level"@, 3),
            spec_u32_or(g, "clock_rate"@, 16000),
            spec_bool_or(g, "null_audio"@, true),
        ),
    }
}

/// The general settings written as an array of the fields in declaration
/// order, each defaulted past the end.
pub open spec fn spec_general_seq(items: Seq<TomlValue>) -> std::result::Result<GeneralConfig, Seq<char>> {
    general_from(seq_u32_or(items, 0, 3), seq_u32_or(items, 1, 16000), seq_bool_or(items, 2, true))
}

/// The value of `general`: a table, an array of the fields, or a datetime
/// (read as a table with no known key, so every setting takes its default).
pub open spec fn spec_general_value(v: TomlValue) -> std::result::Result<GeneralConfig, Seq<char>> {
    match v {
        TomlValue::Table(g) => spec_general_table(g@),
        TomlValue::Array(items) => spec_general_seq(items@),
        TomlValue::Datetime => Ok(default_general()),
        _ => Err(invalid_type_text(v, "struct GeneralConfig"@)),
    }
}

// The document.

/// The error of one entry of the document root.
pub open spec fn root_key_error(k: Seq<char>, v: TomlValue) -> Option<Seq<char>> {
    if k == "general"@ {
        error_of(spec_general_value(v))
    } else if k == "accounts"@ {
        error_of(spec_accounts_value(v))
    } else {
        None
    }
}

/// The error of the first entry of the document root that does not decode.
pub open spec fn first_root_error(e: Seq<(String, TomlValue)>) -> Option<Seq<char>>
    decreases e.len(),
{
    if e.len() == 0 {
        None
    } else {
        match root_key_error(e[0].0@, e[0].1) {
            Some(m) => Some(m),
            None => first_root_error(e.drop_first()),
        }
    }
}

/// The `[general]` section: defaults when absent.
pub open spec fn spec_general(doc: Seq<(String, TomlValue)>) -> std::result::Result<GeneralConfig, Seq<char>> {
    match table_lookup(doc, "general"@) {
        None => Ok(default_general()),
        Some(v) => spec_general_value(v),
    }
}

/// The `accounts` list: empty when absent.
pub open spec fn spec_accounts(doc: Seq<(String, TomlValue)>) -> std::result::Result<Seq<TomlAccountConfig>, Seq<char>> {
    match table_lookup(doc, "accounts"@) {
        None => Ok(Seq::empty()),
        Some(v) => spec_accounts_value(v),
    }
}

/// Error text for a document root that is not a table.
pub open spec fn root_not_table_text() -> Seq<char> {
    "invalid type, expected a table at the document root"@
}

/// The whole configuration decoded from a document: the error of the first
/// root entry, in document order, that does not decode; else the general
/// settings and the accounts.
pub open spec fn spec_config(doc: TomlValue) -> std::result::Result<(GeneralConfig, Seq<TomlAccountConfig>), Seq<char>> {
    match doc {
        TomlValue::Table(e) => match first_root_error(e@) {
            Some(m) => Err(m),
            None => {
                let general = spec_general(e@);
                let accounts = spec_accounts(e@);
                if general is Err { Err(general->Err_0) }
                else if accounts is Err { Err(accounts->Err_0) }
                else { Ok((general->Ok_0, accounts->Ok_0)) }
            },
        },
        _ => Err(root_not_table_text()),
    }
}

/// Whether the keys of a table's entries are distinct, as in every TOML table.
pub open spec fn keys_distinct(e: Seq<(String, TomlValue)>) -> bool {
    forall|i: int, j: int| 0 <= i < j < e.len() ==> e[i].0@ != e[j].0@
}

proof fn lemma_lookup_of_entry(e: Seq<(String, TomlValue)>, i: int)
    requires
        keys_distinct(e),
        0 <= i < e.len(),
    ensures
        table_lookup(e, e[i].0@) == Some(e[i].1),
    decreases e.len(),
{
    if i > 0 {
        assert(e[0].0@ != e[i].0@);
        assert(keys_distinct(e.drop_first())) by {
            assert forall|a: int, b: int| 0 <= a < b < e.drop_first().len() implies
                e.drop_first()[a].0@ != e.drop_first()[b].0@ by {
                assert(e.drop_first()[a] == e[a + 1] && e.drop_first()[b] == e[b + 1]);
            }
        }
        lemma_lookup_of_entry(e.drop_first(), i - 1);
        assert(e.drop_first()[i - 1] == e[i]);
    }
}

/// Whether an account table has its four required keys as strings and none
/// of the optional ones.
pub open spec fn only_required_keys(e: Seq<(String, TomlValue)>) -> bool {
    &&& table_lookup(e, "name"@) matches Some(TomlValue::Str(_))
    &&& table_lookup(e, "username"@) matches Some(TomlValue::Str(_))
    &&& table_lookup(e, "password"@) matches Some(TomlValue::Str(_))
    &&& table_lookup(e, "server"@) matches Some(TomlValue::Str(_))
    &&& table_lookup(e, "port"@) is None
    &&& table_lookup(e, "transport"@) is None
    &&& table_lookup(e, "srtp"@) is None
    &&& table_lookup(e, "display_name"@) is None
    &&& table_lookup(e, "auth_username"@) is None
    &&& table_lookup(e, "realm"@) is None
    &&& table_lookup(e, "reg_timeout"@) is None
    &&& table_lookup(e, "use_sips"@) is None
    &&& table_lookup(e, "registrar"@) is None
    &&& table_lookup(e, "proxy"@) is None
    &&& table_lookup(e, "access_code"@) is None
}

proof fn lemma_no_account_error(e: Seq<(String, TomlValue)>, k: int)
    requires
        keys_distinct(e),
        only_required_keys(e),
        0 <= k <= e.len(),
    ensures
        first_account_error(e.skip(k)) is None,
    decreases e.len() - k,
{
    if k < e.len() {
        lemma_no_account_error(e, k + 1);
        assert(e.skip(k).drop_first() =~= e.skip(k + 1));
        assert(e.skip(k)[0] == e[k]);
        lemma_lookup_of_entry(e, k);
    } else {
        assert(e.skip(k).len() == 0);
    }
}

/// An account table (with distinct keys, as TOML has) that has its four
/// required keys as strings and none of the optional ones decodes to the
/// documented defaults: port 5060, UDP, SRTP disabled, no `sips:`, and no
/// optional settings.
pub proof fn law_account_defaults(e: Seq<(String, TomlValue)>)
    requires
        keys_distinct(e),
        only_required_keys(e),
    ensures
        spec_account(e) matches Ok(a) && {
            &&& a.port == 5060
            &&& a.transport == TransportType::Udp
            &&& a.srtp == SrtpMode::Disabled
            &&& !a.use_sips
            &&& a.display_name is None
            &&& a.auth_username is None
            &&& a.realm is None
            &&& a.reg_timeout is None
            &&& a.registrar is None
            &&& a.proxy is None
            &&& a.access_code is None
        },
{
    lemma_no_account_error(e, 0);
    assert(e.skip(0) =~= e);
}

proof fn lemma_no_root_error(e: Seq<(String, TomlValue)>)
    requires
        table_lookup(e, "general"@) is None,
        table_lookup(e, "accounts"@) is None,
    ensures
        first_root_error(e) is None,
    decreases e.len(),
{
    if e.len() > 0 {
        lemma_no_root_error(e.drop_first());
    }
}

/// A document without a `[general]` section or `accounts` array decodes to
/// the default general settings and no accounts.
pub proof fn law_empty_document_defaults(doc: TomlValue)
    requires
        doc matches TomlValue::Table(e) && table_lookup(e@, "general"@) is None
            && table_lookup(e@, "accounts"@) is None,
    ensures
        spec_config(doc) == Ok::<(GeneralConfig, Seq<TomlAccountConfig>), Seq<char>>(
            (default_general(), Seq::empty()),
        ),
{
    if let TomlValue::Table(e) = doc {
        lemma_no_root_error(e@);
    }
}

/// A key written in `[general]` overrides its default: whenever a document
/// decodes, a `null_audio`, `log_level` or `clock_rate` written there is the
/// value decoded, and an absent one takes its default (no null audio device
/// only when `null_audio = false` is written).
pub proof fn law_general_keys_decoded(doc: TomlValue)
    ensures
        spec_config(doc) matches Ok((gen, _)) ==> (doc matches TomlValue::Table(e) && (table_lookup(
            e@,
            "general"@,
        ) matches Some(TomlValue::Table(g)) ==> {
            &&& (table_lookup(g@, "null_audio"@) matches Some(TomlValue::Bool(b)) ==> gen.null_audio == b)
            &&& (table_lookup(g@, "null_audio"@) is None ==> gen.null_audio)
            &&& (table_lookup(g@, "log_level"@) matches Some(TomlValue::Int(i)) ==> gen.log_level == i)
            &&& (table_lookup(g@, "log_level"@) is None ==> gen.log_level == 3)
            &&& (table_lookup(g@, "clock_rate"@) matches Some(TomlValue::Int(i)) ==> gen.clock_rate == i)
            &&& (table_lookup(g@, "clock_rate"@) is None ==> gen.clock_rate == 16000)
        })),
        spec_config(doc) matches Ok((gen, _)) ==> (doc matches TomlValue::Table(e) && (table_lookup(
            e@,
            "general"@,
        ) is None ==> gen == default_general())),
{
}

/// Every key written in an account table is what the account holds: whenever
/// the table decodes, each written string, number and flag is the decoded
/// value, a written transport or SRTP name is the name of the decoded mode,
/// and each absent key takes its default (port 5060, UDP, SRTP disabled, no
/// `sips:`, and no optional setting).
pub proof fn law_account_keys_decoded(e: Seq<(String, TomlValue)>)
    ensures
        spec_account(e) matches Ok(a) ==> {
            &&& table_lookup(e, "name"@) matches Some(TomlValue::Str(s)) && a.name == s
            &&& table_lookup(e, "username"@) matches Some(TomlValue::Str(s)) && a.username == s
            &&& table_lookup(e, "password"@) matches Some(TomlValue::Str(s)) && a.password == s
            &&& table_lookup(e, "server"@) matches Some(TomlValue::Str(s)) && a.server == s
            &&& (table_lookup(e, "port"@) matches Some(TomlValue::Int(i)) ==> a.port == i)
            &&& (table_lookup(e, "port"@) is None ==> a.port == 5060)
            &&& (table_lookup(e, "transport"@) matches Some(TomlValue::Str(s)) ==> transport_name(
                a.transport,
            ) == s@)
            &&& (table_lookup(e, "transport"@) is None ==> a.transport == TransportType::Udp)
            &&& (table_lookup(e, "srtp"@) matches Some(TomlValue::Str(s)) ==> srtp_name(a.srtp) == s@)
            &&& (table_lookup(e, "srtp"@) is None ==> a.srtp == SrtpMode::Disabled)
            &&& (table_lookup(e, "display_name"@) matches Some(TomlValue::Str(s)) ==> a.display_name
                == Some(s))
            &&& (table_lookup(e, "display_name"@) is None ==> a.display_name is None)
            &&& (table_lookup(e, "auth_username"@) matches Some(TomlValue::Str(s)) ==> a.auth_username
                == Some(s))
            &&& (table_lookup(e, "auth_username"@) is None ==> a.auth_username is None)
            &&& (table_lookup(e, "realm"@) matches Some(TomlValue::Str(s)) ==> a.realm == Some(s))
            &&& (table_lookup(e, "realm"@) is None ==> a.realm is None)
            &&& (table_lookup(e, "reg_timeout"@) matches Some(TomlValue::Int(i)) ==> (a.reg_timeout
                matches Some(t) && t == i))
            &&& (table_lookup(e, "reg_timeout"@) is None ==> a.reg_timeout is None)
            &&& (table_lookup(e, "use_sips"@) matches Some(TomlValue::Bool(b)) ==> a.use_sips == b)
            &&& (table_lookup(e, "use_sips"@) is None ==> !a.use_sips)
            &&& (table_lookup(e, "registrar"@) matches Some(TomlValue::Str(s)) ==> a.registrar == Some(s))
            &&& (table_lookup(e, "registrar"@) is None ==> a.registrar is None)
            &&& (table_lookup(e, "proxy"@) matches Some(TomlValue::Str(s)) ==> a.proxy == Some(s))
            &&& (table_lookup(e, "proxy"@) is None ==> a.proxy is None)
            &&& (table_lookup(e, "access_code"@) matches Some(TomlValue::Str(s)) ==> a.access_code
                == Some(s))
            &&& (table_lookup(e, "access_code"@) is None ==> a.access_code is None)
        },
{
}

/// Decoding is all or nothing over the accounts: whenever a document
/// decodes, its `accounts` array has exactly as many entries as the decoded
/// list, and each account table among them decodes on its own to the account
/// at the same position.
pub proof fn law_accounts_in_order(doc: TomlValue)
    ensures
        spec_config(doc) matches Ok((_, accounts)) ==> (doc matches TomlValue::Table(e) && (
        table_lookup(e@, "accounts"@) matches Some(TomlValue::Array(items)) ==> {
            &&& accounts.len() == items@.len()
            &&& forall|i: int| 0 <= i < items@.len() ==> (#[trigger] items@[i] matches TomlValue::Table(t)
                ==> spec_account(t@) == Ok::<TomlAccountConfig, Seq<char>>(accounts[i]))
        })),
{
    if let TomlValue::Table(e) = doc {
        if let Some(TomlValue::Array(items)) = table_lookup(e@, "accounts"@) {
            if spec_config(doc) is Ok {
                lemma_account_list_items(items@);
            }
        }
    }
}

proof fn lemma_account_list_items(items: Seq<TomlValue>)
    ensures
        spec_account_list(items) matches Ok(accounts) ==> {
            &&& accounts.len() == items.len()
            &&& forall|i: int| 0 <= i < items.len() ==> spec_account_value(#[trigger] items[i])
                == Ok::<TomlAccountConfig, Seq<char>>(accounts[i])
        },
    decreases items.len(),
{
    if items.len() > 0 {
        lemma_account_list_items(items.drop_last());
        if let Ok(accounts) = spec_account_list(items) {
            assert forall|i: int| 0 <= i < items.len() implies spec_account_value(#[trigger] items[i])
                == Ok::<TomlAccountConfig, Seq<char>>(accounts[i]) by {
                if i < items.len() - 1 {
                    assert(items.drop_last()[i] == items[i]);
                }
            }
        }
    }
}

/// The text of a configuration error: `TOML parse error: ` and the detail.
pub open spec fn config_error_text(detail: Seq<char>) -> Seq<char> {
    "TOML parse error: "@ + detail
}

/// Whether `r` is what decoding `doc` gives: the decoded configuration, or a
/// `PjError::Config` carrying the error text.
pub open spec fn decodes_to(r: Result<Config>, doc: TomlValue) -> bool {
    match spec_config(doc) {
        Ok((g, accounts)) => r matches Ok(c) && c.general == g && c.accounts@ == accounts,
        Err(detail) => r matches Err(PjError::Config(m)) && m@ == config_error_text(detail),
    }
}

// ---------------------------------------------------------------------------
// Executable decoding
// ---------------------------------------------------------------------------

fn lookup<'a>(entries: &'a Vec<(String, TomlValue)>, key: &str) -> (r: Option<&'a TomlValue>)
    ensures
        match r {
            Some(v) => table_lookup(entries@, key@) == Some(*v),
            None => table_lookup(entries@, key@) is None,
        },
{
    let key_s = String::from_str(key);
    let mut i: usize = 0;
    assert(entries@.skip(0) =~= entries@);
    while i < entries.len()
        invariant
            i <= entries@.len(),
            key_s@ == key@,
            table_lookup(entries@, key@) == table_lookup(entries@.skip(i as int), key@),
        decreases entries@.len() - i,
    {
        assert(entries@.skip(i as int)[0] == entries@[i as int]);
        assert(entries@.skip(i as int).drop_first() =~= entries@.skip(i + 1));
        if entries[i].0 == key_s {
            return Some(&entries[i].1);
        }
        i += 1;
    }
    assert(entries@.skip(i as int).len() == 0);
    None
}

/// Whether an executable optional error and a specified one agree.
pub open spec fn agrees_opt(r: Option<String>, s: Option<Seq<char>>) -> bool {
    match (r, s) {
        (None, None) => true,
        (Some(a), Some(b)) => a@ == b,
        _ => false,
    }
}

fn key_is(k: &String, lit: &str) -> (b: bool)
    ensures
        b == (k@ == lit@),
{
    *k == String::from_str(lit)
}

fn push_unexpected(out: &mut String, v: &TomlValue)
    ensures
        final(out)@ == old(out)@ + unexpected_text(*v),
{
    match v {
        TomlValue::Str(s) => {
            let d = describe_str(s.as_str());
            out.append(d.as_str());
        },
        TomlValue::Int(i) => {
            out.append("integer `");
            push_decimal_i64(out, *i);
            out.append("`");
        },
        TomlValue::Float(d) => out.append(d.as_str()),
        TomlValue::Bool(b) => {
            out.append("boolean `");
            if *b {
                out.append("true");
            } else {
                out.append("false");
            }
            out.append("`");
        },
        TomlValue::Datetime => out.append("map"),
        TomlValue::Array(_) => out.append("sequence"),
        TomlValue::Table(_) => out.append("map"),
    }
}

fn invalid_type_message(v: &TomlValue, expected: &str) -> (s: String)
    ensures
        s@ == invalid_type_text(*v, expected@),
{
    let mut s = String::from_str("invalid type: ");
    push_unexpected(&mut s, v);
    s.append(", expected ");
    s.append(expected);
    s
}

fn invalid_int_message(i: i64, expected: &str) -> (s: String)
    ensures
        s@ == invalid_int_text(i, expected@),
{
    let mut s = String::from_str("invalid value: integer `");
    push_decimal_i64(&mut s, i);
    s.append("`, expected ");
    s.append(expected);
    s
}

fn missing_message(key: &str) -> (s: String)
    ensures
        s@ == missing_text(key@),
{
    let mut s = String::from_str("missing field `");
    s.append(key);
    s.append("`");
    s
}

fn invalid_length_message(index: u64, expected: &str) -> (s: String)
    ensures
        s@ == invalid_length_text(index as nat, expected@),
{
    let mut s = String::from_str("invalid length ");
    push_decimal_u64(&mut s, index);
    s.append(", expected ");
    s.append(expected);
    s
}

fn unknown_variant_message(name: &str, expected: &str) -> (s: String)
    ensures
        s@ == unknown_variant_text(name@, expected@),
{
    let mut s = String::from_str("unknown variant `");
    s.append(name);
    s.append("`, expected ");
    s.append(expected);
    s
}

fn decode_u32(v: &TomlValue) -> (r: std::result::Result<u32, String>)
    ensures
        agrees(r, dec_u32(*v)),
{
    match v {
        TomlValue::Int(i) => if 0 <= *i && *i <= 0xFFFF_FFFFi64 {
            Ok(*i as u32)
        } else {
            Err(invalid_int_message(*i, "u32"))
        },
        _ => Err(invalid_type_message(v, "u32")),
    }
}

fn decode_u16(v: &TomlValue) -> (r: std::result::Result<u16, String>)
    ensures
        agrees(r, dec_u16(*v)),
{
    match v {
        TomlValue::Int(i) => if 0 <= *i && *i <= 0xFFFFi64 {
            Ok(*i as u16)
        } else {
            Err(invalid_int_message(*i, "u16"))
        },
        _ => Err(invalid_type_message(v, "u16")),
    }
}

fn decode_bool(v: &TomlValue) -> (r: std::result::Result<bool, String>)
    ensures
        agrees(r, dec_bool(*v)),
{
    match v {
        TomlValue::Bool(b) => Ok(*b),
        _ => Err(invalid_type_message(v, "a boolean")),
    }
}

fn decode_string(v: &TomlValue) -> (r: std::result::Result<String, String>)
    ensures
        agrees(r, dec_string(*v)),
{
    match v {
        TomlValue::Str(s) => Ok(s.clone()),
        _ => Err(invalid_type_message(v, "a string")),
    }
}

fn decode_some_string(v: &TomlValue) -> (r: std::result::Result<Option<String>, String>)
    ensures
        agrees(r, dec_some_string(*v)),
{
    match decode_string(v) {
        Ok(s) => Ok(Some(s)),
        Err(m) => Err(m),
    }
}

fn decode_some_u32(v: &TomlValue) -> (r: std::result::Result<Option<u32>, String>)
    ensures
        agrees(r, dec_some_u32(*v)),
{
    match decode_u32(v) {
        Ok(x) => Ok(Some(x)),
        Err(m) => Err(m),
    }
}

fn unit_variant_message(v: &TomlValue) -> (r: Option<String>)
    ensures
        agrees_opt(r, unit_variant_error(*v)),
{
    match v {
        TomlValue::Table(e) => if e.len() == 0 { None } else { Some(String::from_str("expected empty table")) },
        TomlValue::Array(a) => if a.len() == 0 { None } else { Some(String::from_str("expected empty table")) },
        TomlValue::Str(_) => Some(String::from_str("expected table, found string")),
        TomlValue::Int(_) => Some(String::from_str("expected table, found integer")),
        TomlValue::Float(_) => Some(String::from_str("expected table, found float")),
        TomlValue::Bool(_) => Some(String::from_str("expected table, found boolean")),
        TomlValue::Datetime => Some(String::from_str("expected table, found datetime")),
    }
}

fn decode_transport(v: &TomlValue) -> (r: std::result::Result<TransportType, String>)
    ensures
        agrees(r, dec_transport(*v)),
{
    match v {
        TomlValue::Str(s) => match TransportType::from_name(s.as_str()) {
            Some(t) => Ok(t),
            None => Err(unknown_variant_message(s.as_str(), "one of `udp`, `tcp`, `tls`")),
        },
        TomlValue::Table(e) => if e.len() == 0 {
            Err(String::from_str("wanted exactly 1 element, found 0 elements"))
        } else if e.len() > 1 {
            Err(String::from_str("wanted exactly 1 element, more than 1 element"))
        } else {
            match TransportType::from_name(e[0].0.as_str()) {
                None => Err(unknown_variant_message(e[0].0.as_str(), "one of `udp`, `tcp`, `tls`")),
                Some(t) => match unit_variant_message(&e[0].1) {
                    None => Ok(t),
                    Some(m) => Err(m),
                },
            }
        },
        _ => Err(String::from_str("wanted string or table")),
    }
}

fn decode_srtp(v: &TomlValue) -> (r: std::result::Result<SrtpMode, String>)
    ensures
        agrees(r, dec_srtp(*v)),
{
    match v {
        TomlValue::Str(s) => match SrtpMode::from_name(s.as_str()) {
            Some(m) => Ok(m),
            None => Err(unknown_variant_message(s.as_str(), "one of `disabled`, `optional`, `mandatory`")),
        },
        TomlValue::Table(e) => if e.len() == 0 {
            Err(String::from_str("wanted exactly 1 element, found 0 elements"))
        } else if e.len() > 1 {
            Err(String::from_str("wanted exactly 1 element, more than 1 element"))
        } else {
            match SrtpMode::from_name(e[0].0.as_str()) {
                None => Err(unknown_variant_message(e[0].0.as_str(), "one of `disabled`, `optional`, `mandatory`")),
                Some(m) => match unit_variant_message(&e[0].1) {
                    None => Ok(m),
                    Some(msg) => Err(msg),
                },
            }
        },
        _ => Err(String::from_str("wanted string or table")),
    }
}

fn error_of_exec<T>(r: std::result::Result<T, String>) -> (e: Option<String>)
    ensures
        match r {
            Ok(_) => e is None,
            Err(m) => e == Some(m),
        },
{
    match r {
        Ok(_) => None,
        Err(m) => Some(m),
    }
}

fn check_account_key(k: &String, v: &TomlValue) -> (r: Option<String>)
    ensures
        agrees_opt(r, account_key_error(k@, *v)),
{
    if key_is(k, "name") || key_is(k, "username") || key_is(k, "password") || key_is(k, "server")
        || key_is(k, "display_name") || key_is(k, "auth_username") || key_is(k, "realm")
        || key_is(k, "registrar") || key_is(k, "proxy") || key_is(k, "access_code") {
        error_of_exec(decode_string(v))
    } else if key_is(k, "port") {
        error_of_exec(decode_u16(v))
    } else if key_is(k, "transport") {
        error_of_exec(decode_transport(v))
    } else if key_is(k, "srtp") {
        error_of_exec(decode_srtp(v))
    } else if key_is(k, "reg_timeout") {
        error_of_exec(decode_u32(v))
    } else if key_is(k, "use_sips") {
        error_of_exec(decode_bool(v))
    } else {
        None
    }
}

fn find_account_error(e: &Vec<(String, TomlValue)>) -> (r: Option<String>)
    ensures
        agrees_opt(r, first_account_error(e@)),
{
    let mut i: usize = 0;
    assert(e@.skip(0) =~= e@);
    while i < e.len()
        invariant
            i <= e@.len(),
            first_account_error(e@) == first_account_error(e@.skip(i as int)),
        decreases e@.len() - i,
    {
        assert(e@.skip(i as int)[0] == e@[i as int]);
        assert(e@.skip(i as int).drop_first() =~= e@.skip(i + 1));
        let found = check_account_key(&e[i].0, &e[i].1);
        if found.is_some() {
            return found;
        }
        i += 1;
    }
    assert(e@.skip(i as int).len() == 0);
    None
}

fn check_general_key(k: &String, v: &TomlValue) -> (r: Option<String>)
    ensures
        agrees_opt(r, general_key_error(k@, *v)),
{
    if key_is(k, "log_level") || key_is(k, "clock_rate") {
        error_of_exec(decode_u32(v))
    } else if key_is(k, "null_audio") {
        error_of_exec(decode_bool(v))
    } else {
        None
    }
}

fn find_general_error(e: &Vec<(String, TomlValue)>) -> (r: Option<String>)
    ensures
        agrees_opt(r, first_general_error(e@)),
{
    let mut i: usize = 0;
    assert(e@.skip(0) =~= e@);
    while i < e.len()
        invariant
            i <= e@.len(),
            first_general_error(e@) == first_general_error(e@.skip(i as int)),
        decreases e@.len() - i,
    {
        assert(e@.skip(i as int)[0] == e@[i as int]);
        assert(e@.skip(i as int).drop_first() =~= e@.skip(i + 1));
        let found = check_general_key(&e[i].0, &e[i].1);
        if found.is_some() {
            return found;
        }
        i += 1;
    }
    assert(e@.skip(i as int).len() == 0);
    None
}

// Fields of a table.

fn u32_or(e: &Vec<(String, TomlValue)>, key: &str, default: u32) -> (r: std::result::Result<u32, String>)
    ensures
        agrees(r, spec_u32_or(e@, key@, default)),
{
    match lookup(e, key) {
        None => Ok(default),
        Some(v) => decode_u32(v),
    }
}

fn opt_u32(e: &Vec<(String, TomlValue)>, key: &str) -> (r: std::result::Result<Option<u32>, String>)
    ensures
        agrees(r, spec_opt_u32(e@, key@)),
{
    match lookup(e, key) {
        None => Ok(None),
        Some(v) => decode_some_u32(v),
    }
}

fn u16_or(e: &Vec<(String, TomlValue)>, key: &str, default: u16) -> (r: std::result::Result<u16, String>)
    ensures
        agrees(r, spec_u16_or(e@, key@, default)),
{
    match lookup(e, key) {
        None => Ok(default),
        Some(v) => decode_u16(v),
    }
}

fn bool_or(e: &Vec<(String, TomlValue)>, key: &str, default: bool) -> (r: std::result::Result<bool, String>)
    ensures
        agrees(r, spec_bool_or(e@, key@, default)),
{
    match lookup(e, key) {
        None => Ok(default),
        Some(v) => decode_bool(v),
    }
}

fn required_string(e: &Vec<(String, TomlValue)>, key: &str) -> (r: std::result::Result<String, String>)
    ensures
        agrees(r, spec_string(e@, key@)),
{
    match lookup(e, key) {
        None => Err(missing_message(key)),
        Some(v) => decode_string(v),
    }
}

fn opt_string(e: &Vec<(String, TomlValue)>, key: &str) -> (r: std::result::Result<Option<String>, String>)
    ensures
        agrees(r, spec_opt_string(e@, key@)),
{
    match lookup(e, key) {
        None => Ok(None),
        Some(v) => decode_some_string(v),
    }
}

fn transport_field(e: &Vec<(String, TomlValue)>) -> (r: std::result::Result<TransportType, String>)
    ensures
        agrees(r, spec_transport(e@)),
{
    match lookup(e, "transport") {
        None => Ok(TransportType::Udp),
        Some(v) => decode_transport(v),
    }
}

fn srtp_field(e: &Vec<(String, TomlValue)>) -> (r: std::result::Result<SrtpMode, String>)
    ensures
        agrees(r, spec_srtp(e@)),
{
    match lookup(e, "srtp") {
        None => Ok(SrtpMode::Disabled),
        Some(v) => decode_srtp(v),
    }
}

// Items of an array.

fn item(items: &Vec<TomlValue>, i: usize) -> (r: Option<&TomlValue>)
    ensures
        match r {
            Some(v) => seq_elem(items@, i as nat) == Some(*v),
            None => seq_elem(items@, i as nat) is None,
        },
{
    if i < items.len() {
        Some(&items[i])
    } else {
        None
    }
}

fn item_string(items: &Vec<TomlValue>, i: usize, expected: &str) -> (r: std::result::Result<String, String>)
    ensures
        agrees(r, seq_string(items@, i as nat, expected@)),
{
    match item(items, i) {
        None => Err(invalid_length_message(i as u64, expected)),
        Some(v) => decode_string(v),
    }
}

fn item_opt_string(items: &Vec<TomlValue>, i: usize, expected: &str) -> (r: std::result::Result<Option<String>, String>)
    ensures
        agrees(r, seq_opt_string(items@, i as nat, expected@)),
{
    match item(items, i) {
        None => Err(invalid_length_message(i as u64, expected)),
        Some(v) => decode_some_string(v),
    }
}

fn item_opt_u32(items: &Vec<TomlValue>, i: usize, expected: &str) -> (r: std::result::Result<Option<u32>, String>)
    ensures
        agrees(r, seq_opt_u32(items@, i as nat, expected@)),
{
    match item(items, i) {
        None => Err(invalid_length_message(i as u64, expected)),
        Some(v) => decode_some_u32(v),
    }
}

fn item_u32_or(items: &Vec<TomlValue>, i: usize, default: u32) -> (r: std::result::Result<u32, String>)
    ensures
        agrees(r, seq_u32_or(items@, i as nat, default)),
{
    match item(items, i) {
        None => Ok(default),
        Some(v) => decode_u32(v),
    }
}

fn item_u16_or(items: &Vec<TomlValue>, i: usize, default: u16) -> (r: std::result::Result<u16, String>)
    ensures
        agrees(r, seq_u16_or(items@, i as nat, default)),
{
    match item(items, i) {
        None => Ok(default),
        Some(v) => decode_u16(v),
    }
}

fn item_bool_or(items: &Vec<TomlValue>, i: usize, default: bool) -> (r: std::result::Result<bool, String>)
    ensures
        agrees(r, seq_bool_or(items@, i as nat, default)),
{
    match item(items, i) {
        None => Ok(default),
        Some(v) => decode_bool(v),
    }
}

fn item_transport(items: &Vec<TomlValue>, i: usize) -> (r: std::result::Result<TransportType, String>)
    ensures
        agrees(r, seq_transport(items@, i as nat)),
{
    match item(items, i) {
        None => Ok(TransportType::Udp),
        Some(v) => decode_transport(v),
    }
}

fn item_srtp(items: &Vec<TomlValue>, i: usize) -> (r: std::result::Result<SrtpMode, String>)
    ensures
        agrees(r, seq_srtp(items@, i as nat)),
{
    match item(items, i) {
        None => Ok(SrtpMode::Disabled),
        Some(v) => decode_srtp(v),
    }
}

// Accounts.

fn decode_account_fields(e: &Vec<(String, TomlValue)>) -> (r: std::result::Result<TomlAccountConfig, String>)
    ensures
        agrees(r, spec_account_fields(e@)),
{
    let name = required_string(e, "name")?;
    let username = required_string(e, "username")?;
    let password = required_string(e, "password")?;
    let server = required_string(e, "server")?;
    let port = u16_or(e, "port", default_port())?;
    let transport = transport_field(e)?;
    let srtp = srtp_field(e)?;
    let display_name = opt_string(e, "display_name")?;
    let auth_username = opt_string(e, "auth_username")?;
    let realm = opt_string(e, "realm")?;
    let reg_timeout = opt_u32(e, "reg_timeout")?;
    let use_sips = bool_or(e, "use_sips", false)?;
    let registrar = opt_string(e, "registrar")?;
    let proxy = opt_string(e, "proxy")?;
    let access_code = opt_string(e, "access_code")?;
    Ok(TomlAccountConfig {
        name,
        username,
        password,
        server,
        port,
        transport,
        srtp,
        display_name,
        auth_username,
        realm,
        reg_timeout,
        use_sips,
        registrar,
        proxy,
        access_code,
    })
}

fn decode_account_table(e: &Vec<(String, TomlValue)>) -> (r: std::result::Result<TomlAccountConfig, String>)
    ensures
        agrees(r, spec_account(e@)),
{
    match find_account_error(e) {
        Some(m) => Err(m),
        None => decode_account_fields(e),
    }
}

fn decode_account_seq(items: &Vec<TomlValue>) -> (r: std::result::Result<TomlAccountConfig, String>)
    ensures
        agrees(r, spec_account_seq(items@)),
{
    let x = "struct TomlAccountConfig with 15 elements";
    let name = item_string(items, 0, x)?;
    let username = item_string(items, 1, x)?;
    let password = item_string(items, 2, x)?;
    let server = item_string(items, 3, x)?;
    let port = item_u16_or(items, 4, default_port())?;
    let transport = item_transport(items, 5)?;
    let srtp = item_srtp(items, 6)?;
    let display_name = item_opt_string(items, 7, x)?;
    let auth_username = item_opt_string(items, 8, x)?;
    let realm = item_opt_string(items, 9, x)?;
    let reg_timeout = item_opt_u32(items, 10, x)?;
    let use_sips = item_bool_or(items, 11, false)?;
    let registrar = item_opt_string(items, 12, x)?;
    let proxy = item_opt_string(items, 13, x)?;
    let access_code = item_opt_string(items, 14, x)?;
    Ok(TomlAccountConfig {
        name,
        username,
        password,
        server,
        port,
        transport,
        srtp,
        display_name,
        auth_username,
        realm,
        reg_timeout,
        use_sips,
        registrar,
        proxy,
        access_code,
    })
}

fn decode_account_value(v: &TomlValue) -> (r: std::result::Result<TomlAccountConfig, String>)
    ensures
        agrees(r, spec_account_value(*v)),
{
    match v {
        TomlValue::Table(e) => decode_account_table(e),
        TomlValue::Array(items) => decode_account_seq(items),
        TomlValue::Datetime => Err(missing_message("name")),
        _ => Err(invalid_type_message(v, "struct TomlAccountConfig")),
    }
}

fn decode_account_list(items: &Vec<TomlValue>) -> (r: std::result::Result<Vec<TomlAccountConfig>, String>)
    ensures
        match (r, spec_account_list(items@)) {
            (Ok(v), Ok(s)) => v@ == s,
            (Err(e), Err(m)) => e@ == m,
            _ => false,
        },
{
    let mut out: Vec<TomlAccountConfig> = Vec::new();
    let mut i: usize = 0;
    while i < items.len()
        invariant
            i <= items@.len(),
            spec_account_list(items@.take(i as int)) == Ok::<Seq<TomlAccountConfig>, Seq<char>>(out@),
        decreases items@.len() - i,
    {
        assert(items@.take(i + 1).drop_last() =~= items@.take(i as int));
        assert(items@.take(i + 1).last() == items@[i as int]);
        match decode_account_value(&items[i]) {
            Ok(a) => out.push(a),
            Err(m) => {
                assert(spec_account_list(items@.take(i + 1)) is Err);
                proof { lemma_account_list_error_persists(items@, i as int + 1); }
                return Err(m);
            },
        }
        i += 1;
    }
    assert(items@.take(i as int) =~= items@);
    Ok(out)
}

/// Once a prefix of the account list fails to decode, so does every longer prefix,
/// with the same error.
proof fn lemma_account_list_error_persists(items: Seq<TomlValue>, k: int)
    requires
        0 <= k <= items.len(),
        spec_account_list(items.take(k)) is Err,
    ensures
        spec_account_list(items) == spec_account_list(items.take(k)),
    decreases items.len() - k,
{
    if k < items.len() {
        assert(items.take(k + 1).drop_last() =~= items.take(k));
        lemma_account_list_error_persists(items, k + 1);
    } else {
        assert(items.take(k) =~= items);
    }
}

fn decode_accounts_value(v: &TomlValue) -> (r: std::result::Result<Vec<TomlAccountConfig>, String>)
    ensures
        match (r, spec_accounts_value(*v)) {
            (Ok(x), Ok(s)) => x@ == s,
            (Err(e), Err(m)) => e@ == m,
            _ => false,
        },
{
    match v {
        TomlValue::Array(items) => decode_account_list(items),
        _ => Err(invalid_type_message(v, "a sequence")),
    }
}

// General settings.

fn decode_general_table(g: &Vec<(String, TomlValue)>) -> (r: std::result::Result<GeneralConfig, String>)
    ensures
        agrees(r, spec_general_table(g@)),
{
    if let Some(m) = find_general_error(g) {
        return Err(m);
    }
    let log_level = u32_or(g, "log_level", default_log_level())?;
    let clock_rate = u32_or(g, "clock_rate", default_clock_rate())?;
    let null_audio = bool_or(g, "null_audio", default_true())?;
    Ok(GeneralConfig { log_level, clock_rate, null_audio })
}

fn decode_general_seq(items: &Vec<TomlValue>) -> (r: std::result::Result<GeneralConfig, String>)
    ensures
        agrees(r, spec_general_seq(items@)),
{
    let log_level = item_u32_or(items, 0, default_log_level())?;
    let clock_rate = item_u32_or(items, 1, default_clock_rate())?;
    let null_audio = item_bool_or(items, 2, default_true())?;
    Ok(GeneralConfig { log_level, clock_rate, null_audio })
}

fn decode_general_value(v: &TomlValue) -> (r: std::result::Result<GeneralConfig, String>)
    ensures
        agrees(r, spec_general_value(*v)),
{
    match v {
        TomlValue::Table(g) => decode_general_table(g),
        TomlValue::Array(items) => decode_general_seq(items),
        TomlValue::Datetime => Ok(GeneralConfig::default()),
        _ => Err(invalid_type_message(v, "struct GeneralConfig")),
    }
}

// The document.

fn check_root_key(k: &String, v: &TomlValue) -> (r: Option<String>)
    ensures
        agrees_opt(r, root_key_error(k@, *v)),
{
    if key_is(k, "general") {
        match decode_general_value(v) {
            Ok(_) => None,
            Err(m) => Some(m),
        }
    } else if key_is(k, "accounts") {
        match decode_accounts_value(v) {
            Ok(_) => None,
            Err(m) => Some(m),
        }
    } else {
        None
    }
}

fn find_root_error(e: &Vec<(String, TomlValue)>) -> (r: Option<String>)
    ensures
        agrees_opt(r, first_root_error(e@)),
{
    let mut i: usize = 0;
    assert(e@.skip(0) =~= e@);
    while i < e.len()
        invariant
            i <= e@.len(),
            first_root_error(e@) == first_root_error(e@.skip(i as int)),
        decreases e@.len() - i,
    {
        assert(e@.skip(i as int)[0] == e@[i as int]);
        assert(e@.skip(i as int).drop_first() =~= e@.skip(i + 1));
        let found = check_root_key(&e[i].0, &e[i].1);
        if found.is_some() {
            return found;
        }
        i += 1;
    }
    assert(e@.skip(i as int).len() == 0);
    None
}

fn decode_general(doc: &Vec<(String, TomlValue)>) -> (r: std::result::Result<GeneralConfig, String>)
    ensures
        agrees(r, spec_general(doc@)),
{
    match lookup(doc, "general") {
        None => Ok(GeneralConfig::default()),
        Some(v) => decode_general_value(v),
    }
}

fn decode_accounts(doc: &Vec<(String, TomlValue)>) -> (r: std::result::Result<Vec<TomlAccountConfig>, String>)
    ensures
        match (r, spec_accounts(doc@)) {
            (Ok(v), Ok(s)) => v@ == s,
            (Err(e), Err(m)) => e@ == m,
            _ => false,
        },
{
    match lookup(doc, "accounts") {
        None => Ok(Vec::new()),
        Some(v) => decode_accounts_value(v),
    }
}

fn config_error(detail: String) -> (e: PjError)
    ensures
        e matches PjError::Config(m) && m@ == config_error_text(detail@),
{
    let mut m = String::from_str("TOML parse error: ");
    m.append(detail.as_str());
    PjError::Config(m)
}

// ---------------------------------------------------------------------------
// Conversions and loading
// ---------------------------------------------------------------------------

impl TomlAccountConfig {
    /// Convert to the runtime [`AccountConfig`]: every field of the entry is
    /// carried over, and the settings that the file format has no key for
    /// take their neutral values.
    pub fn to_account_config(&self) -> (c: AccountConfig)
        ensures
            c.name == self.name,
            c.username == self.username,
            c.password == self.password,
            c.server == self.server,
            c.port == self.port,
            c.transport == self.transport,
            c.srtp == self.srtp,
            c.access_code == self.access_code,
            c.display_name == self.display_name,
            c.auth_username == self.auth_username,
            c.realm == self.realm,
            c.reg_timeout == self.reg_timeout,
            c.use_sips == self.use_sips,
            !c.dns_srv,
            c.registrar == self.registrar,
            c.proxy == self.proxy,
            c.reg_retry_interval is None,
            c.rtp_port_start is None,
            c.rtp_port_range is None,
            c.transport_id is None,
            c.require_100rel is None,
            c.srtp_secure_signaling is None,
    {
        AccountConfig {
            name: self.name.clone(),
            username: self.username.clone(),
            password: self.password.clone(),
            server: self.server.clone(),
            port: self.port,
            transport: self.transport,
            srtp: self.srtp,
            access_code: clone_opt(&self.access_code),
            display_name: clone_opt(&self.display_name),
            auth_username: clone_opt(&self.auth_username),
            realm: clone_opt(&self.realm),
            reg_timeout: self.reg_timeout,
            use_sips: self.use_sips,
            dns_srv: false,
            registrar: clone_opt(&self.registrar),
            proxy: clone_opt(&self.proxy),
            reg_retry_interval: None,
            rtp_port_start: None,
            rtp_port_range: None,
            transport_id: None,
            require_100rel: None,
            srtp_secure_signaling: None,
        }
    }
}

impl Config {
    /// Decode a parsed TOML document into a configuration.
    ///
    /// Absent `[general]` keys default to `log_level = 3`,
    /// `clock_rate = 16000`, `null_audio = true`; absent `accounts` gives no
    /// accounts; in an account, `port` defaults to 5060, `transport` to
    /// `udp`, `srtp` to `disabled`, `use_sips` to false, and the optional
    /// keys to `None`. `name`, `username`, `password` and `server` are
    /// required. Keys that the format does not know are ignored. The error
    /// is the first that serde would meet: a value that does not decode, in
    /// document order, before an absent required key; its text is serde's.
    pub fn from_document(doc: &TomlValue) -> (r: Result<Config>)
        ensures
            decodes_to(r, *doc),
    {
        match doc {
            TomlValue::Table(e) => {
                if let Some(m) = find_root_error(e) {
                    return Err(config_error(m));
                }
                let general = match decode_general(e) {
                    Ok(g) => g,
                    Err(m) => return Err(config_error(m)),
                };
                let accounts = match decode_accounts(e) {
                    Ok(a) => a,
                    Err(m) => return Err(config_error(m)),
                };
                Ok(Config { general, accounts })
            },
            _ => Err(config_error(String::from_str("invalid type, expected a table at the document root"))),
        }
    }

    /// Parse configuration from a TOML string.
    ///
    /// A syntax error gives `PjError::Config("TOML parse error: <detail>")`
    /// with the `toml` crate's detail; otherwise the document is decoded by
    /// [`Config::from_document`].
    pub fn from_str(toml_str: &str) -> (r: Result<Config>)
        ensures
            match toml_document(toml_str@) {
                Ok(doc) => decodes_to(r, doc),
                Err(detail) => r matches Err(PjError::Config(m)) && m@ == config_error_text(detail),
            },
    {
        match parse_toml_document(toml_str) {
            Ok(doc) => Config::from_document(&doc),
            Err(detail) => Err(config_error(detail)),
        }
    }

    /// Convert the `[general]` section into a [`PjsuaConfig`]; the settings
    /// that the file has no key for (user agent, nameservers) stay unset.
    pub fn to_pjsua_config(&self) -> (c: PjsuaConfig)
        ensures
            c.log_level == self.general.log_level,
            c.clock_rate == self.general.clock_rate,
            c.null_audio == self.general.null_audio,
            c.user_agent is None,
            c.nameservers@.len() == 0,
    {
        PjsuaConfig {
            log_level: self.general.log_level,
            clock_rate: self.general.clock_rate,
            null_audio: self.general.null_audio,
            user_agent: None,
            nameservers: Vec::new(),
        }
    }

    /// Find the first account whose `name` field equals `name`.
    pub fn find_account(&self, name: &str) -> (r: Option<&TomlAccountConfig>)
        ensures
            match r {
                Some(a) => exists|i: int|
                    0 <= i < self.accounts@.len() && self.accounts@[i] == *a && a.name@ == name@
                    && forall|j: int| 0 <= j < i ==> #[trigger] self.accounts@[j].name@ != name@,
                None => forall|i: int|
                    0 <= i < self.accounts@.len() ==> #[trigger] self.accounts@[i].name@ != name@,
            },
    {
        let wanted = String::from_str(name);
        let mut i: usize = 0;
        while i < self.accounts.len()
            invariant
                i <= self.accounts@.len(),
                wanted@ == name@,
                forall|j: int| 0 <= j < i ==> #[trigger] self.accounts@[j].name@ != name@,
            decreases self.accounts@.len() - i,
        {
            if self.accounts[i].name == wanted {
                return Some(&self.accounts[i]);
            }
            i += 1;
        }
        None
    }
}

impl std::str::FromStr for Config {
    type Err = PjError;

    /// Parse configuration from a TOML string, as [`Config::from_str`].
    fn from_str(s: &str) -> (r: Result<Config>)
        ensures
            match toml_document(s@) {
                Ok(doc) => decodes_to(r, doc),
                Err(detail) => r matches Err(PjError::Config(m)) && m@ == config_error_text(detail),
            },
    {
        Config::from_str(s)
    }
}

} // verus!
