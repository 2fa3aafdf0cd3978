//! The GUI RPC session: command wrapping, the optional `auth1`/`auth2`
//! handshake, and one retry after an unauthorized reply when credentials
//! are present.
//!
//! The session is a state machine. [`BoincRpcClient::start_call`] begins a
//! call and names the first exchange; the front end sends the framed bytes,
//! reads the reply, and hands it back to [`BoincRpcClient::step`], which
//! either names the next exchange or finishes the call. What crosses the
//! wire is decided here; moving the bytes is the front end's part.
use vstd::prelude::*;
use vstd::utf8::encode_utf8;

use crate::boinc::protocol::{
    compute_nonce_hash, frame_request, hex_lower, md5_of, parse_auth_authorized,
    parse_auth_nonce, parse_response_payload, reply_has_unauthorized, request_envelope,
    response_payload_spec, tag_value, EOM,
};
use crate::error::{AppError, ErrorView};
use crate::text::{cat, contains, string_of};

verus! {

/// Stateful BOINC GUI RPC client: the credentials and whether the session
/// has authenticated.
#[derive(Debug)]
pub struct BoincRpcClient {
    password: Option<String>,
    authenticated: bool,
}

/// The mathematical content of a [`BoincRpcClient`].
pub struct ClientView {
    pub password: Option<Seq<char>>,
    pub authenticated: bool,
}

impl View for BoincRpcClient {
    type V = ClientView;

    closed spec fn view(&self) -> ClientView {
        ClientView {
            password: match self.password {
                Some(p) => Some(p@),
                None => None,
            },
            authenticated: self.authenticated,
        }
    }
}

/// Where a call stands: waiting for the `auth1` nonce, for the `auth2`
/// verdict, or for the command's own reply. `retry` marks the second pass
/// after an unauthorized reply.
#[derive(Debug, Clone, Copy, PartialEq, Eq, Structural)]
pub enum CallPhase {
    Nonce { retry: bool },
    Authorize { retry: bool },
    Command { retry: bool },
}

/// One call in progress: the wrapped command and its phase.
#[derive(Debug)]
pub struct RpcCall {
    inner: String,
    phase: CallPhase,
}

/// The mathematical content of an [`RpcCall`].
pub struct CallView {
    pub inner: Seq<char>,
    pub phase: CallPhase,
}

impl View for RpcCall {
    type V = CallView;

    closed spec fn view(&self) -> CallView {
        CallView { inner: self.inner@, phase: self.phase }
    }
}

/// The field a structured decoding of the coming reply should look for.
#[derive(Debug, Clone, Copy, PartialEq, Eq, Structural)]
pub enum ReplyField {
    /// `nonce`, in an `auth1` reply.
    Nonce,
    /// `authorized`, in an `auth2` reply.
    Authorized,
    /// Nothing: a command reply is returned as text.
    Plain,
}

/// What the session asks for next.
#[derive(Debug)]
pub enum RpcStep {
    /// Send `request`, read the reply, and pass it to `step`.
    Exchange { request: Vec<u8>, expect: ReplyField },
    /// The call is over, with the reply text or the error.
    Finished(Result<String, AppError>),
}

/// The mathematical content of an [`RpcStep`].
pub enum StepView {
    Exchange { request: Seq<u8>, expect: ReplyField },
    Finished(Result<Seq<char>, ErrorView>),
}

impl View for RpcStep {
    type V = StepView;

    open spec fn view(&self) -> StepView {
        match self {
            RpcStep::Exchange { request, expect } => StepView::Exchange {
                request: request@,
                expect: *expect,
            },
            RpcStep::Finished(Ok(s)) => StepView::Finished(Ok(s@)),
            RpcStep::Finished(Err(e)) => StepView::Finished(Err(e@)),
        }
    }
}

/// The result of one exchange: the raw reply bytes (or the transport's
/// error) and, for handshake replies, the field that a structured decoding
/// of the reply text found.
#[derive(Debug)]
pub struct Exchanged {
    pub reply: Result<Vec<u8>, AppError>,
    pub decoded: Option<String>,
}

/// The mathematical content of an [`Exchanged`].
pub struct ExchangedView {
    pub reply: Result<Seq<u8>, ErrorView>,
    pub decoded: Option<Seq<char>>,
}

impl View for Exchanged {
    type V = ExchangedView;

    open spec fn view(&self) -> ExchangedView {
        ExchangedView {
            reply: match self.reply {
                Ok(b) => Ok(b@),
                Err(e) => Err(e@),
            },
            decoded: match self.decoded {
                Some(s) => Some(s@),
                None => None,
            },
        }
    }
}

// ---------------------------------------------------------------------------
// The protocol, stated
// ---------------------------------------------------------------------------

/// A command wrapped in its tag: `<command/>` when the payload is empty,
/// else `<command>payload</command>`.
pub open spec fn command_xml(command: Seq<char>, payload: Seq<char>) -> Seq<char> {
    if payload.len() == 0 {
        "<"@ + command + "/>"@
    } else {
        "<"@ + command + ">"@ + payload + "</"@ + command + ">"@
    }
}

/// The bytes sent for an inner command.
pub open spec fn framed(inner: Seq<char>) -> Seq<u8> {
    encode_utf8(request_envelope(inner)).push(EOM)
}

/// The `auth2` command for a nonce hash.
pub open spec fn auth2_xml(hash: Seq<char>) -> Seq<char> {
    "<auth2><nonce_hash>"@ + hash + "</nonce_hash></auth2>"@
}

/// The nonce hash the handshake sends.
pub open spec fn nonce_hash(nonce: Seq<char>, password: Seq<char>) -> Seq<char> {
    hex_lower(md5_of(encode_utf8(nonce + password)))
}

/// The nonce an `auth1` reply gives: the decoded field, else the `<nonce>` tag.
pub open spec fn nonce_of(text: Seq<char>, decoded: Option<Seq<char>>) -> Option<Seq<char>> {
    match decoded {
        Some(n) => Some(n),
        None => tag_value(text, "nonce"@),
    }
}

/// An `auth2` reply grants access: the decoded field, else the
/// `<authorized>` tag, is exactly `1`.
pub open spec fn authorized_of(text: Seq<char>, decoded: Option<Seq<char>>) -> bool {
    match decoded {
        Some(v) => v == "1"@,
        None => tag_value(text, "authorized"@) == Some("1"@),
    }
}

/// A reply that reports an authorization failure.
pub open spec fn unauthorized(text: Seq<char>) -> bool {
    contains(text, "<unauthorized/>"@) || contains(text, "<unauthorized>"@)
}

/// The exchange answered an `auth2` request with a reply that grants access.
pub open spec fn granted(call: CallView, ev: ExchangedView) -> bool {
    &&& call.phase is Authorize
    &&& ev.reply matches Ok(raw)
    &&& response_payload_spec(raw) matches Ok(text)
    &&& authorized_of(text, ev.decoded)
}

/// The session must run the handshake before its next command.
pub open spec fn needs_auth(c: ClientView) -> bool {
    !c.authenticated && c.password is Some
}

/// A call's phase is consistent with the session: the handshake phases
/// happen only when there is a password.
pub open spec fn call_wf(c: ClientView, call: CallView) -> bool {
    (call.phase is Nonce || call.phase is Authorize) ==> c.password is Some
}

/// How a call begins: the handshake's `auth1` when the session needs it,
/// else the command itself.
pub open spec fn started(c: ClientView, inner: Seq<char>) -> (CallView, StepView) {
    if needs_auth(c) {
        (
            CallView { inner, phase: CallPhase::Nonce { retry: false } },
            StepView::Exchange { request: framed("<auth1/>"@), expect: ReplyField::Nonce },
        )
    } else {
        (
            CallView { inner, phase: CallPhase::Command { retry: false } },
            StepView::Exchange { request: framed(inner), expect: ReplyField::Plain },
        )
    }
}

/// How a call goes on after an exchange (see the module documentation).
pub open spec fn stepped(c: ClientView, call: CallView, ev: ExchangedView) -> (
    ClientView,
    CallView,
    StepView,
) {
    match ev.reply {
        Err(e) => (c, call, StepView::Finished(Err(e))),
        Ok(raw) => match response_payload_spec(raw) {
            Err(m) => (c, call, StepView::Finished(Err(ErrorView::InvalidResponse(m)))),
            Ok(text) => match call.phase {
                CallPhase::Nonce { retry } => match nonce_of(text, ev.decoded) {
                    None => (
                        c,
                        call,
                        StepView::Finished(Err(ErrorView::InvalidResponse("missing auth nonce"@))),
                    ),
                    Some(n) => (
                        c,
                        CallView { phase: CallPhase::Authorize { retry }, ..call },
                        StepView::Exchange {
                            request: framed(auth2_xml(nonce_hash(n, c.password->0))),
                            expect: ReplyField::Authorized,
                        },
                    ),
                },
                CallPhase::Authorize { retry } => if authorized_of(text, ev.decoded) {
                    (
                        ClientView { authenticated: true, ..c },
                        CallView { phase: CallPhase::Command { retry }, ..call },
                        StepView::Exchange { request: framed(call.inner), expect: ReplyField::Plain },
                    )
                } else {
                    (c, call, StepView::Finished(Err(ErrorView::AuthenticationFailed)))
                },
                CallPhase::Command { retry } => if !unauthorized(text) {
                    (c, call, StepView::Finished(Ok(text)))
                } else if !retry && c.password is Some {
                    (
                        ClientView { authenticated: false, ..c },
                        CallView { phase: CallPhase::Nonce { retry: true }, ..call },
                        StepView::Exchange { request: framed("<auth1/>"@), expect: ReplyField::Nonce },
                    )
                } else {
                    (c, call, StepView::Finished(Err(ErrorView::AuthenticationFailed)))
                },
            },
        },
    }
}

// ---------------------------------------------------------------------------
// The session
// ---------------------------------------------------------------------------

fn auth1_request() -> (r: Vec<u8>)
    ensures
        r@ == framed("<auth1/>"@),
{
    frame_request("<auth1/>")
}

impl BoincRpcClient {
    /// Creates a session with optional credentials, not yet authenticated.
    pub fn new(password: Option<String>) -> (r: Self)
        ensures
            r@.password == (match password {
                Some(p) => Some(p@),
                None => None,
            }),
            !r@.authenticated,
    {
        BoincRpcClient { password, authenticated: false }
    }

    /// Whether the session has completed the handshake.
    pub fn is_authenticated(&self) -> (r: bool)
        ensures
            r == self@.authenticated,
    {
        self.authenticated
    }

    /// Begins a call of `command` with `payload` (see [`started`]).
    pub fn start_call(&self, command: &str, payload: &str) -> (r: (RpcCall, RpcStep))
        ensures
            (r.0@, r.1@) == started(self@, command_xml(command@, payload@)),
            call_wf(self@, r.0@),
    {
        let inner = if payload.unicode_len() == 0 {
            let s = cat(string_of("<"), command);
            cat(s, "/>")
        } else {
            let s = cat(string_of("<"), command);
            let s = cat(s, ">");
            let s = cat(s, payload);
            let s = cat(s, "</");
            let s = cat(s, command);
            cat(s, ">")
        };
        proof {
            if payload@.len() == 0 {
                assert(inner@ =~= command_xml(command@, payload@));
            } else {
                assert(inner@ =~= command_xml(command@, payload@));
            }
        }
        if !self.authenticated && self.password.is_some() {
            (
                RpcCall { inner, phase: CallPhase::Nonce { retry: false } },
                RpcStep::Exchange { request: auth1_request(), expect: ReplyField::Nonce },
            )
        } else {
            let request = frame_request(inner.as_str());
            (
                RpcCall { inner, phase: CallPhase::Command { retry: false } },
                RpcStep::Exchange { request, expect: ReplyField::Plain },
            )
        }
    }

    /// Continues `call` with the result of its last exchange (see
    /// [`stepped`]).
    ///
    /// Beyond the exact statement: a call never finishes with a reply that
    /// reports an authorization failure; without a password no handshake
    /// request is ever sent; the session becomes authenticated only on an
    /// `auth2` reply that grants access; the credentials never change.
    pub fn step(&mut self, call: &mut RpcCall, ev: Exchanged) -> (r: RpcStep)
        requires
            call_wf(old(self)@, old(call)@),
        ensures
            (final(self)@, final(call)@, r@) == stepped(old(self)@, old(call)@, ev@),
            call_wf(final(self)@, final(call)@),
            r@ matches StepView::Finished(Ok(t)) ==> !unauthorized(t),
            old(self)@.password is None ==> (r@ matches StepView::Exchange { request, .. }
                ==> request == framed(old(call)@.inner)),
            (!old(self)@.authenticated && final(self)@.authenticated) ==> granted(old(call)@, ev@),
            final(self)@.password == old(self)@.password,
    {
        let Exchanged { reply, decoded } = ev;
        let raw = match reply {
            Err(e) => return RpcStep::Finished(Err(e)),
            Ok(b) => b,
        };
        let text = match parse_response_payload(raw.as_slice()) {
            Err(e) => return RpcStep::Finished(Err(e)),
            Ok(t) => t,
        };
        match call.phase {
            CallPhase::Nonce { retry } => {
                let nonce = match parse_auth_nonce(text.as_str(), decoded) {
                    Err(e) => return RpcStep::Finished(Err(e)),
                    Ok(n) => n,
                };
                let hash = match &self.password {
                    Some(p) => compute_nonce_hash(nonce.as_str(), p.as_str()),
                    None => String::new(),
                };
                let xml = cat(string_of("<auth2><nonce_hash>"), hash.as_str());
                let xml = cat(xml, "</nonce_hash></auth2>");
                call.phase = CallPhase::Authorize { retry };
                RpcStep::Exchange { request: frame_request(xml.as_str()), expect: ReplyField::Authorized }
            },
            CallPhase::Authorize { retry } => {
                let authorized = match parse_auth_authorized(text.as_str(), decoded) {
                    Err(e) => return RpcStep::Finished(Err(e)),
                    Ok(a) => a,
                };
                if !authorized {
                    return RpcStep::Finished(Err(AppError::AuthenticationFailed));
                }
                self.authenticated = true;
                call.phase = CallPhase::Command { retry };
                RpcStep::Exchange { request: frame_request(call.inner.as_str()), expect: ReplyField::Plain }
            },
            CallPhase::Command { retry } => {
                if !reply_has_unauthorized(text.as_str()) {
                    return RpcStep::Finished(Ok(text));
                }
                if !retry && self.password.is_some() {
                    self.authenticated = false;
                    call.phase = CallPhase::Nonce { retry: true };
                    RpcStep::Exchange { request: auth1_request(), expect: ReplyField::Nonce }
                } else {
                    RpcStep::Finished(Err(AppError::AuthenticationFailed))
                }
            },
        }
    }
}

} // verus!
