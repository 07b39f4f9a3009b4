//! The order of the authorization handshake: bind, open the browser, wait for
//! the one callback, answer it, exchange the code. The caller performs each
//! action and reports how it went; what follows is decided here.

use vstd::prelude::*;
use vstd::string::*;
use crate::oauth::{code_of_request, extract_code, CALLBACK_PORT};
use crate::text::opt_view;

verus! {

/// Why a handshake failed.
#[derive(Debug, Clone, Copy, PartialEq, Eq, Structural)]
pub enum OAuthError {
    /// The callback port could not be bound.
    Bind,
    /// The browser could not be opened.
    Launch,
    /// No connection could be accepted, or the request could not be read.
    Connection,
    /// The callback carried no authorization code.
    CodeNotFound,
    /// The token endpoint refused the code or could not be reached.
    Exchange,
}

/// Where a handshake stands.
#[derive(Debug, Clone, Copy, PartialEq, Eq, Structural)]
pub enum OAuthState {
    /// Nothing has happened yet.
    Idle,
    /// The callback port is bound.
    ListenerBound,
    /// The browser shows the consent page and the listener waits for its one
    /// connection, for as long as that takes.
    BrowserOpened,
    /// The connection has arrived and its request is being read.
    WaitingForCallback,
    /// The request carried an authorization code.
    CodeReceived,
    /// The code is being exchanged for a token.
    Exchanging,
    /// The token is there.
    Complete,
    /// The flow has ended in failure.
    Failed(OAuthError),
}

/// What the caller reports back.
#[derive(Debug, Clone, Copy, PartialEq, Eq, Structural)]
pub enum OAuthEvent {
    /// The flow is asked to begin.
    Begin,
    /// The last action went through.
    Succeeded,
    /// The last action failed.
    Failed,
    /// The callback request was read and holds a code.
    CodeFound,
    /// The callback request was read and holds no code.
    CodeMissing,
}

/// What the caller does next.
#[derive(Debug, Clone, Copy, PartialEq, Eq, Structural)]
pub enum OAuthAction {
    /// Bind the loopback port.
    Bind(u16),
    /// Open the authorization URL in the default browser.
    OpenBrowser,
    /// Block until one connection arrives; there is no timeout.
    Accept,
    /// Read the request from the connection.
    ReadRequest,
    /// Write the response with this status; a failed write is not an error.
    Respond(u16),
    /// Exchange the code for a token.
    Exchange,
    /// Hand out the token.
    Finish,
    /// Report the failure.
    Abort(OAuthError),
}

/// One step of the handshake.
#[derive(Debug, Clone, Copy, PartialEq, Eq, Structural)]
pub struct OAuthStep {
    pub next: OAuthState,
    pub action: OAuthAction,
}

/// The step that ends the flow with an error.
pub open spec fn abort_step(error: OAuthError) -> OAuthStep {
    OAuthStep { next: OAuthState::Failed(error), action: OAuthAction::Abort(error) }
}

/// The step that follows an event in a state. An event that the state does
/// not expect leaves the state as it is and repeats the action that the state
/// is waiting on.
pub open spec fn oauth_transition(state: OAuthState, event: OAuthEvent) -> OAuthStep {
    match state {
        OAuthState::Idle => match event {
            OAuthEvent::Succeeded => OAuthStep {
                next: OAuthState::ListenerBound,
                action: OAuthAction::OpenBrowser,
            },
            OAuthEvent::Failed => abort_step(OAuthError::Bind),
            _ => OAuthStep { next: OAuthState::Idle, action: OAuthAction::Bind(CALLBACK_PORT) },
        },
        OAuthState::ListenerBound => match event {
            OAuthEvent::Succeeded => OAuthStep {
                next: OAuthState::BrowserOpened,
                action: OAuthAction::Accept,
            },
            OAuthEvent::Failed => abort_step(OAuthError::Launch),
            _ => OAuthStep { next: OAuthState::ListenerBound, action: OAuthAction::OpenBrowser },
        },
        OAuthState::BrowserOpened => match event {
            OAuthEvent::Succeeded => OAuthStep {
                next: OAuthState::WaitingForCallback,
                action: OAuthAction::ReadRequest,
            },
            OAuthEvent::Failed => abort_step(OAuthError::Connection),
            _ => OAuthStep { next: OAuthState::BrowserOpened, action: OAuthAction::Accept },
        },
        OAuthState::WaitingForCallback => match event {
            OAuthEvent::CodeFound => OAuthStep {
                next: OAuthState::CodeReceived,
                action: OAuthAction::Respond(200),
            },
            OAuthEvent::CodeMissing => OAuthStep {
                next: OAuthState::Failed(OAuthError::CodeNotFound),
                action: OAuthAction::Respond(400),
            },
            OAuthEvent::Failed => abort_step(OAuthError::Connection),
            _ => OAuthStep {
                next: OAuthState::WaitingForCallback,
                action: OAuthAction::ReadRequest,
            },
        },
        OAuthState::CodeReceived => OAuthStep {
            next: OAuthState::Exchanging,
            action: OAuthAction::Exchange,
        },
        OAuthState::Exchanging => match event {
            OAuthEvent::Succeeded => OAuthStep { next: OAuthState::Complete, action: OAuthAction::Finish },
            OAuthEvent::Failed => abort_step(OAuthError::Exchange),
            _ => OAuthStep { next: OAuthState::Exchanging, action: OAuthAction::Exchange },
        },
        OAuthState::Complete => OAuthStep { next: OAuthState::Complete, action: OAuthAction::Finish },
        OAuthState::Failed(error) => abort_step(error),
    }
}

/// Takes one step of the handshake.
pub fn oauth_step(state: OAuthState, event: OAuthEvent) -> (step: OAuthStep)
    ensures
        step == oauth_transition(state, event),
{
    match state {
        OAuthState::Idle => match event {
            OAuthEvent::Succeeded => OAuthStep {
                next: OAuthState::ListenerBound,
                action: OAuthAction::OpenBrowser,
            },
            OAuthEvent::Failed => abort(OAuthError::Bind),
            _ => OAuthStep { next: OAuthState::Idle, action: OAuthAction::Bind(CALLBACK_PORT) },
        },
        OAuthState::ListenerBound => match event {
            OAuthEvent::Succeeded => OAuthStep {
                next: OAuthState::BrowserOpened,
                action: OAuthAction::Accept,
            },
            OAuthEvent::Failed => abort(OAuthError::Launch),
            _ => OAuthStep { next: OAuthState::ListenerBound, action: OAuthAction::OpenBrowser },
        },
        OAuthState::BrowserOpened => match event {
            OAuthEvent::Succeeded => OAuthStep {
                next: OAuthState::WaitingForCallback,
                action: OAuthAction::ReadRequest,
            },
            OAuthEvent::Failed => abort(OAuthError::Connection),
            _ => OAuthStep { next: OAuthState::BrowserOpened, action: OAuthAction::Accept },
        },
        OAuthState::WaitingForCallback => match event {
            OAuthEvent::CodeFound => OAuthStep {
                next: OAuthState::CodeReceived,
                action: OAuthAction::Respond(200),
            },
            OAuthEvent::CodeMissing => OAuthStep {
                next: OAuthState::Failed(OAuthError::CodeNotFound),
                action: OAuthAction::Respond(400),
            },
            OAuthEvent::Failed => abort(OAuthError::Connection),
            _ => OAuthStep {
                next: OAuthState::WaitingForCallback,
                action: OAuthAction::ReadRequest,
            },
        },
        OAuthState::CodeReceived => OAuthStep {
            next: OAuthState::Exchanging,
            action: OAuthAction::Exchange,
        },
        OAuthState::Exchanging => match event {
            OAuthEvent::Succeeded => OAuthStep { next: OAuthState::Complete, action: OAuthAction::Finish },
            OAuthEvent::Failed => abort(OAuthError::Exchange),
            _ => OAuthStep { next: OAuthState::Exchanging, action: OAuthAction::Exchange },
        },
        OAuthState::Complete => OAuthStep { next: OAuthState::Complete, action: OAuthAction::Finish },
        OAuthState::Failed(error) => abort(error),
    }
}

/// Ends the flow with an error.
fn abort(error: OAuthError) -> (step: OAuthStep)
    ensures
        step == abort_step(error),
{
    OAuthStep { next: OAuthState::Failed(error), action: OAuthAction::Abort(error) }
}

/// What the listener makes of one callback request.
#[derive(Debug, Clone)]
pub struct CallbackReply {
    /// The authorization code, where the request carried one.
    pub code: Option<String>,
    /// The status of the response: 200 with a code, 400 without.
    pub status: u16,
    /// The whole response, status line first.
    pub response: String,
    /// What to report to the flow.
    pub event: OAuthEvent,
}

/// The response to a callback that carried a code.
pub open spec fn accepted_response() -> Seq<char> {
    "HTTP/1.1 200 OK\r\nContent-Type: text/html; charset=utf-8\r\n\r\n\n        <html>\n        <body style='font-family: sans-serif; text-align: center; padding: 50px;'>\n            <h1 style='color: green;'>✅ 授权成功!</h1>\n            <p>您可以关闭此窗口返回应用。</p>\n            <script>setTimeout(function() { window.close(); }, 2000);</script>\n        </body>\n        </html>"@
}

/// The response to a callback that carried no code.
pub open spec fn rejected_response() -> Seq<char> {
    "HTTP/1.1 400 Bad Request\r\nContent-Type: text/html\r\n\r\n<h1>❌ 授权失败</h1>"@
}

/// The reply that a callback request with this code, or none, is owed.
pub open spec fn is_reply_to(reply: CallbackReply, code: Option<Seq<char>>) -> bool {
    &&& opt_view(reply.code) == code
    &&& reply.status == (if code is Some { 200u16 } else { 400u16 })
    &&& reply.response@ == (if code is Some { accepted_response() } else { rejected_response() })
    &&& reply.event == (if code is Some { OAuthEvent::CodeFound } else { OAuthEvent::CodeMissing })
}

/// Settles the reply for a callback whose code, or lack of one, is known.
pub fn reply_for(code: Option<String>) -> (reply: CallbackReply)
    ensures
        is_reply_to(reply, opt_view(code)),
{
    match code {
        Some(c) => CallbackReply {
            code: Some(c),
            status: 200,
            response: String::from_str(
                "HTTP/1.1 200 OK\r\nContent-Type: text/html; charset=utf-8\r\n\r\n\n        <html>\n        <body style='font-family: sans-serif; text-align: center; padding: 50px;'>\n            <h1 style='color: green;'>✅ 授权成功!</h1>\n            <p>您可以关闭此窗口返回应用。</p>\n            <script>setTimeout(function() { window.close(); }, 2000);</script>\n        </body>\n        </html>",
            ),
            event: OAuthEvent::CodeFound,
        },
        None => CallbackReply {
            code: None,
            status: 400,
            response: String::from_str(
                "HTTP/1.1 400 Bad Request\r\nContent-Type: text/html\r\n\r\n<h1>❌ 授权失败</h1>",
            ),
            event: OAuthEvent::CodeMissing,
        },
    }
}

/// Reads one callback request: extracts the code and settles the response.
pub fn handle_callback(request: &str) -> (reply: CallbackReply)
    ensures
        is_reply_to(reply, code_of_request(request@)),
{
    reply_for(extract_code(request))
}

/// A callback without a code is answered with status 400 and ends the flow
/// in failure; one with a code is answered with status 200 and the flow goes
/// on to the exchange with exactly that code.
pub proof fn callback_decides_the_flow(reply: CallbackReply, code: Option<Seq<char>>)
    requires
        is_reply_to(reply, code),
    ensures
        code is None ==> reply.status == 400 && oauth_transition(
            OAuthState::WaitingForCallback,
            reply.event,
        ) == (OAuthStep {
            next: OAuthState::Failed(OAuthError::CodeNotFound),
            action: OAuthAction::Respond(400),
        }),
        code is Some ==> reply.status == 200 && opt_view(reply.code) == code && oauth_transition(
            OAuthState::WaitingForCallback,
            reply.event,
        ) == (OAuthStep { next: OAuthState::CodeReceived, action: OAuthAction::Respond(200) }),
{
}

/// While the browser has not called back the flow stays where it is: only a
/// report from the caller moves it, and nothing but a completed exchange
/// leads to `Complete`.
pub proof fn completes_only_after_exchange(state: OAuthState, event: OAuthEvent)
    ensures
        oauth_transition(state, event).next == OAuthState::Complete ==> state == OAuthState::Complete
            || (state == OAuthState::Exchanging && event == OAuthEvent::Succeeded),
        oauth_transition(state, event).action == OAuthAction::Finish ==> oauth_transition(
            state,
            event,
        ).next == OAuthState::Complete,
        state == OAuthState::BrowserOpened && event != OAuthEvent::Succeeded && event
            != OAuthEvent::Failed ==> oauth_transition(state, event) == (OAuthStep {
            next: OAuthState::BrowserOpened,
            action: OAuthAction::Accept,
        }),
{
}

} // verus!
