//! SIP event values and how they are built from what PJSIP's callbacks report.
//!
//! The native callbacks read PJSUA's records and hand the plain fields to the
//! constructors here; the resulting [`SipEvent`] goes through an [`EventSink`].

use std::collections::HashMap;
use tokio::sync::mpsc::UnboundedSender;
use vstd::prelude::*;
use vstd::utf8::{decode_utf8, valid_utf8};
use crate::text::{int_decimal, push_decimal_i64};
use crate::types::{
    call_state_of, media_status_of, AccountId, CallId, CallState, ConfPort, MediaStatus,
    SipMessageInfo, TraceDirection, PJSUA_CALL_MEDIA_ACTIVE,
};

verus! {

/// A high-level SIP event produced by the PJSUA callback bridge.
#[derive(Debug, Clone)]
pub enum SipEvent {
    /// Account registration state changed.
    RegistrationState {
        account_id: AccountId,
        code: u16,
        reason: String,
        is_registered: bool,
        /// The last registration error status (`pjsua_acc_info.reg_last_err`),
        /// when there is one.
        reg_last_error: Option<i32>,
    },
    /// An incoming call has arrived.
    IncomingCall {
        account_id: AccountId,
        call_id: CallId,
        /// Remote party URI from the From: header.
        remote_uri: String,
        /// Local party URI from the To: header.
        local_uri: String,
        sip_call_id: String,
    },
    /// The state of a call has changed.
    CallState {
        call_id: CallId,
        account_id: AccountId,
        state: CallState,
        last_code: u16,
        last_reason: String,
    },
    /// The media state of a call has changed.
    CallMediaState {
        call_id: CallId,
        account_id: AccountId,
        media_status: MediaStatus,
        conf_port: Option<ConfPort>,
    },
    /// A DTMF digit was received on a call.
    DtmfDigit { call_id: CallId, digit: char },
    /// Transfer (REFER) status update.
    TransferStatus { call_id: CallId, status_code: u16, status_text: String, is_final: bool },
    /// A SIP message was sent or received for a call (for tracing).
    SipMessageTrace { call_id: CallId, account_id: AccountId, info: SipMessageInfo },
}

/// A registration code counts as registered when it is in the 2xx class.
pub open spec fn registered_code(code: u16) -> bool {
    200 <= code < 300
}

/// An account counts as registered exactly for the 2xx status codes
/// (200 to 299), whatever the status is; a registration event reports the
/// status as its 16-bit code.
pub proof fn law_registered_is_2xx(code: u16)
    ensures
        registered_code(code) <==> 200 <= code && code <= 299,
        registered_code(200),
        !registered_code(199) && !registered_code(300) && !registered_code(401),
{
}

/// The event for a registration state change (`on_reg_state`): the status is
/// carried as a 16-bit SIP code, and a non-zero last registration error is
/// reported.
pub fn registration_event(acc_id: i32, status: u32, reason: String, reg_last_err: i32) -> (e: SipEvent)
    ensures
        e == (SipEvent::RegistrationState {
            account_id: AccountId(acc_id),
            code: status as u16,
            reason,
            is_registered: registered_code(status as u16),
            reg_last_error: if reg_last_err != 0 { Some(reg_last_err) } else { None },
        }),
{
    let code = status as u16;
    SipEvent::RegistrationState {
        account_id: AccountId(acc_id),
        code,
        reason,
        is_registered: 200 <= code && code < 300,
        reg_last_error: if reg_last_err != 0 { Some(reg_last_err) } else { None },
    }
}

/// The event for a new incoming call (`on_incoming_call`).
pub fn incoming_call_event(
    acc_id: i32,
    call_id: i32,
    remote_uri: String,
    local_uri: String,
    sip_call_id: String,
) -> (e: SipEvent)
    ensures
        e == (SipEvent::IncomingCall {
            account_id: AccountId(acc_id),
            call_id: CallId(call_id),
            remote_uri,
            local_uri,
            sip_call_id,
        }),
{
    SipEvent::IncomingCall {
        account_id: AccountId(acc_id),
        call_id: CallId(call_id),
        remote_uri,
        local_uri,
        sip_call_id,
    }
}

/// The event for a call state change (`on_call_state`).
pub fn call_state_event(
    call_id: i32,
    acc_id: i32,
    state: u32,
    last_status: u32,
    last_reason: String,
) -> (e: SipEvent)
    ensures
        e == (SipEvent::CallState {
            call_id: CallId(call_id),
            account_id: AccountId(acc_id),
            state: call_state_of(state),
            last_code: last_status as u16,
            last_reason,
        }),
{
    SipEvent::CallState {
        call_id: CallId(call_id),
        account_id: AccountId(acc_id),
        state: CallState::from_pjsip(state),
        last_code: last_status as u16,
        last_reason,
    }
}

/// The event for a media state change (`on_call_media_state`): the
/// conference port is reported only while the media is active.
pub fn media_state_event(call_id: i32, acc_id: i32, media_status: u32, conf_slot: i32) -> (e: SipEvent)
    ensures
        e == (SipEvent::CallMediaState {
            call_id: CallId(call_id),
            account_id: AccountId(acc_id),
            media_status: media_status_of(media_status),
            conf_port: if media_status == PJSUA_CALL_MEDIA_ACTIVE {
                Some(ConfPort(conf_slot))
            } else {
                None
            },
        }),
{
    let status = MediaStatus::from_pjsip(media_status);
    let conf_port = match status {
        MediaStatus::Active => Some(ConfPort(conf_slot)),
        _ => None,
    };
    SipEvent::CallMediaState {
        call_id: CallId(call_id),
        account_id: AccountId(acc_id),
        media_status: status,
        conf_port,
    }
}

/// The event for a received DTMF digit (`on_dtmf_digit2`): the digit code is
/// taken as a byte and read as a character.
pub fn dtmf_event(call_id: i32, digit: u32) -> (e: SipEvent)
    ensures
        e == (SipEvent::DtmfDigit { call_id: CallId(call_id), digit: ((digit as u8) as u32) as char }),
{
    let byte = digit as u8;
    SipEvent::DtmfDigit { call_id: CallId(call_id), digit: byte as char }
}

/// The event for a transfer status update (`on_call_transfer_status`) and
/// the value written to `*p_cont`: notifications continue (1) until the
/// final one (0).
pub fn transfer_status_event(call_id: i32, st_code: i32, status_text: String, final_flag: i32) -> (r: (SipEvent, i32))
    ensures
        r.0 == (SipEvent::TransferStatus {
            call_id: CallId(call_id),
            status_code: st_code as u16,
            status_text,
            is_final: final_flag != 0,
        }),
        r.1 == (if final_flag != 0 { 0i32 } else { 1i32 }),
{
    let is_final = final_flag != 0;
    (
        SipEvent::TransferStatus {
            call_id: CallId(call_id),
            status_code: st_code as u16,
            status_text,
            is_final,
        },
        if is_final { 0 } else { 1 },
    )
}

// ---------------------------------------------------------------------------
// Text from C buffers
// ---------------------------------------------------------------------------

/// What `String::from_utf8_lossy` makes of a byte sequence.
pub uninterp spec fn utf8_lossy(bytes: Seq<u8>) -> Seq<char>;

/// `String::from_utf8_lossy` (std): the bytes read as UTF-8, each invalid
/// sequence replaced by U+FFFD. The contract claims that the result is
/// `utf8_lossy(bytes)` and, as std documents, that valid UTF-8 is decoded
/// unchanged.
#[verifier::external_body]
fn lossy_string(bytes: &[u8]) -> (s: String)
    ensures
        s@ == utf8_lossy(bytes@),
        valid_utf8(bytes@) ==> s@ == decode_utf8(bytes@),
{
    String::from_utf8_lossy(bytes).into_owned()
}

/// Text from a byte buffer handed over by C: UTF-8, with invalid sequences
/// replaced.
pub fn text_from_bytes(bytes: &[u8]) -> (s: String)
    ensures
        s@ == utf8_lossy(bytes@),
        valid_utf8(bytes@) ==> s@ == decode_utf8(bytes@),
{
    lossy_string(bytes)
}

/// The length of a NUL-terminated string in a buffer: the index of the first
/// zero byte, or the whole buffer when there is none.
pub open spec fn c_string_len(buf: Seq<u8>) -> int
    decreases buf.len(),
{
    if buf.len() == 0 {
        0
    } else if buf[0] == 0 {
        0
    } else {
        1 + c_string_len(buf.drop_first())
    }
}

proof fn lemma_c_string_len_bounds(buf: Seq<u8>)
    ensures
        0 <= c_string_len(buf) <= buf.len(),
        forall|j: int| 0 <= j < c_string_len(buf) ==> buf[j] != 0,
        c_string_len(buf) < buf.len() ==> buf[c_string_len(buf)] == 0,
    decreases buf.len(),
{
    if buf.len() > 0 && buf[0] != 0 {
        let rest = buf.drop_first();
        lemma_c_string_len_bounds(rest);
        assert forall|j: int| 0 <= j < c_string_len(buf) implies buf[j] != 0 by {
            if j > 0 {
                assert(buf[j] == rest[j - 1]);
            }
        }
    }
}

/// Text of a NUL-terminated buffer (as filled by `pj_strerror`): the bytes
/// before the first NUL, read as UTF-8 with invalid sequences replaced.
pub fn text_before_nul(buf: &[u8]) -> (s: String)
    ensures
        s@ == utf8_lossy(buf@.take(c_string_len(buf@))),
{
    proof { lemma_c_string_len_bounds(buf@); }
    let mut bytes: Vec<u8> = Vec::new();
    let mut i: usize = 0;
    while i < buf.len() && buf[i] != 0
        invariant
            i <= buf@.len(),
            i <= c_string_len(buf@),
            bytes@ == buf@.take(i as int),
            0 <= c_string_len(buf@) <= buf@.len(),
            forall|j: int| 0 <= j < c_string_len(buf@) ==> buf@[j] != 0,
            c_string_len(buf@) < buf@.len() ==> buf@[c_string_len(buf@)] == 0,
        decreases buf@.len() - i,
    {
        bytes.push(buf[i]);
        i += 1;
        assert(bytes@ =~= buf@.take(i as int));
    }
    lossy_string(bytes.as_slice())
}

/// `<number> <text>`: the form of a response's status line summary
/// (`200 OK`) and of a `CSeq` header value (`1 INVITE`).
pub open spec fn number_and_text(n: i32, text: Seq<char>) -> Seq<char> {
    int_decimal(n as int) + " "@ + text
}

/// The method-or-status text of a SIP response: its code and reason phrase.
pub fn response_summary(code: i32, reason: &str) -> (s: String)
    ensures
        s@ == number_and_text(code, reason@),
{
    let mut s = String::new();
    push_decimal_i64(&mut s, code as i64);
    s.append(" ");
    s.append(reason);
    s
}

/// The value of a `CSeq` header: sequence number and method name.
pub fn cseq_header_value(cseq: i32, method: &str) -> (s: String)
    ensures
        s@ == number_and_text(cseq, method@),
{
    let mut s = String::new();
    push_decimal_i64(&mut s, cseq as i64);
    s.append(" ");
    s.append(method);
    s
}

/// The text of an optional C buffer: empty when absent.
pub open spec fn trace_text(bytes: Option<Seq<u8>>) -> Seq<char> {
    match bytes {
        Some(b) => utf8_lossy(b),
        None => Seq::empty(),
    }
}

/// The trace event for a SIP message seen by the trace module. Buffers that
/// C passes as null or with a non-positive length arrive as `None`: the
/// method/status line and Call-ID are then empty, and there is no SDP. The
/// PJSUA call and account are unknown to the trace module (`-1`).
pub fn sip_trace_event(
    is_outgoing: i32,
    method_or_status: Option<&[u8]>,
    sip_call_id: Option<&[u8]>,
    sdp_body: Option<&[u8]>,
) -> (e: SipEvent)
    ensures
        e matches SipEvent::SipMessageTrace { call_id, account_id, info } && {
            &&& call_id == CallId(-1i32)
            &&& account_id == AccountId(-1i32)
            &&& info.direction == (if is_outgoing != 0 { TraceDirection::Sent } else { TraceDirection::Received })
            &&& info.method_or_status@ == trace_text(match method_or_status { Some(b) => Some(b@), None => None })
            &&& info.sip_call_id@ == trace_text(match sip_call_id { Some(b) => Some(b@), None => None })
            &&& match sdp_body {
                Some(b) => info.sdp matches Some(t) && t@ == utf8_lossy(b@),
                None => info.sdp is None,
            }
            &&& info.headers@.len() == 0
            &&& info.raw is None
        },
{
    let mos = match method_or_status {
        Some(b) => lossy_string(b),
        None => String::new(),
    };
    let cid = match sip_call_id {
        Some(b) => lossy_string(b),
        None => String::new(),
    };
    let sdp = match sdp_body {
        Some(b) => Some(lossy_string(b)),
        None => None,
    };
    let direction = if is_outgoing != 0 { TraceDirection::Sent } else { TraceDirection::Received };
    SipEvent::SipMessageTrace {
        call_id: CallId(-1),
        account_id: AccountId(-1),
        info: SipMessageInfo {
            direction,
            method_or_status: mos,
            sip_call_id: cid,
            sdp,
            headers: HashMap::new(),
            raw: None,
        },
    }
}

// ---------------------------------------------------------------------------
// Event delivery
// ---------------------------------------------------------------------------

#[verifier::external_type_specification]
#[verifier::external_body]
#[verifier::reject_recursive_types(T)]
pub struct ExUnboundedSender<T>(UnboundedSender<T>);

/// `UnboundedSender::send` (tokio): queues the event unless the receiving
/// half is gone; returns whether it was queued. Whether the receiver is still
/// alive is state that the contract does not see, so nothing is claimed of
/// the result.
#[verifier::external_body]
fn queue_event(tx: &UnboundedSender<SipEvent>, event: SipEvent) -> (queued: bool) {
    tx.send(event).is_ok()
}

/// Where callback events go: the sending half of the application's event
/// channel, once installed. Besides the sender, the sink keeps, as ghost
/// state, the events it handed to a sender and the events a channel accepted,
/// each in the order they were sent.
pub struct EventSink {
    sender: Option<UnboundedSender<SipEvent>>,
    offered: Ghost<Seq<SipEvent>>,
    accepted: Ghost<Seq<SipEvent>>,
}

/// A delivery log after sending `e`: `e` is appended when the channel
/// accepted it, and the log is unchanged otherwise.
pub open spec fn after_send(log: Seq<SipEvent>, e: SipEvent, queued: bool) -> Seq<SipEvent> {
    if queued { log.push(e) } else { log }
}

/// Sending never reorders or removes what was delivered before: the earlier
/// log is a prefix of the later one, which grows by at most the event sent,
/// and by exactly it when the channel accepted it.
pub proof fn law_delivery_in_order(log: Seq<SipEvent>, e: SipEvent, queued: bool)
    ensures
        after_send(log, e, queued).len() == log.len() + (if queued { 1int } else { 0int }),
        after_send(log, e, queued).subrange(0, log.len() as int) == log,
        queued ==> after_send(log, e, queued).last() == e,
{
    assert(after_send(log, e, queued).subrange(0, log.len() as int) =~= log);
}

impl EventSink {
    /// The installed sender, if any.
    pub closed spec fn current_sender(&self) -> Option<UnboundedSender<SipEvent>> {
        self.sender
    }

    /// The events handed to an installed sender, in order.
    pub closed spec fn offered(&self) -> Seq<SipEvent> {
        self.offered@
    }

    /// The events that a channel accepted (queued for its receiver), in order.
    pub closed spec fn accepted(&self) -> Seq<SipEvent> {
        self.accepted@
    }

    /// Whether a sender is installed.
    pub open spec fn is_installed(&self) -> bool {
        self.current_sender() is Some
    }

    /// A sink with no sender installed that has sent nothing.
    pub fn new() -> (s: Self)
        ensures
            s.current_sender() is None,
            s.offered() == Seq::<SipEvent>::empty(),
            s.accepted() == Seq::<SipEvent>::empty(),
    {
        EventSink { sender: None, offered: Ghost(Seq::empty()), accepted: Ghost(Seq::empty()) }
    }

    /// Install the sending half of the event channel (done when PJSUA
    /// starts), replacing any earlier one.
    pub fn set_event_sender(&mut self, tx: UnboundedSender<SipEvent>)
        ensures
            final(self).current_sender() == Some(tx),
            final(self).offered() == old(self).offered(),
            final(self).accepted() == old(self).accepted(),
    {
        self.sender = Some(tx);
    }

    /// Remove the sender (done when PJSUA is torn down); later events are dropped.
    pub fn clear_event_sender(&mut self)
        ensures
            final(self).current_sender() is None,
            final(self).offered() == old(self).offered(),
            final(self).accepted() == old(self).accepted(),
    {
        self.sender = None;
    }

    /// Send an event through the channel. With a sender installed, the event
    /// is handed to it once, after every event sent before; the result is the
    /// channel's answer (whether it queued the event for the receiver, which
    /// it does unless the receiver is gone). Without a sender the event is
    /// dropped silently.
    pub fn send_event(&mut self, event: SipEvent) -> (queued: bool)
        ensures
            final(self).current_sender() == old(self).current_sender(),
            old(self).is_installed() ==> final(self).offered() == old(self).offered().push(event),
            !old(self).is_installed() ==> !queued && final(self).offered() == old(self).offered(),
            final(self).accepted() == after_send(old(self).accepted(), event, queued),
    {
        let ghost e = event;
        match &self.sender {
            Some(tx) => {
                let queued = queue_event(tx, event);
                self.offered = Ghost(self.offered@.push(e));
                if queued {
                    self.accepted = Ghost(self.accepted@.push(e));
                }
                queued
            },
            None => false,
        }
    }
}

} // verus!
