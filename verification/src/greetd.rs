//! The messages of greetd's IPC protocol, as the library's own types, and an
//! in-process stand-in for greetd used by the demo mode.

use vstd::prelude::*;
use vstd::string::*;

verus! {

/// What kind of question greetd is asking.
#[derive(Debug, Clone, Copy, PartialEq, Eq)]
pub enum AuthMessageType {
    Visible,
    Secret,
    Info,
    Error,
}

/// Why greetd refused a request.
#[derive(Debug, Clone, Copy, PartialEq, Eq)]
pub enum ErrorType {
    Error,
    AuthError,
}

/// A request to greetd.
#[derive(Debug)]
pub enum Request {
    CreateSession { username: String },
    PostAuthMessageResponse { response: Option<String> },
    StartSession { cmd: Vec<String>, env: Vec<String> },
    CancelSession,
}

/// greetd's answer to one request.
#[derive(Debug)]
pub enum Response {
    Success,
    Error { error_type: ErrorType, description: String },
    AuthMessage { auth_message_type: AuthMessageType, auth_message: String },
}

/// The mathematical value of a `Request`.
pub enum RequestView {
    CreateSession { username: Seq<char> },
    PostAuthMessageResponse { response: Option<Seq<char>> },
    StartSession { cmd: Seq<Seq<char>>, env: Seq<Seq<char>> },
    CancelSession,
}

/// The mathematical value of a `Response`.
pub enum ResponseView {
    Success,
    Error { error_type: ErrorType, description: Seq<char> },
    AuthMessage { auth_message_type: AuthMessageType, auth_message: Seq<char> },
}

impl View for Request {
    type V = RequestView;

    open spec fn view(&self) -> RequestView {
        match self {
            Request::CreateSession { username } => RequestView::CreateSession { username: username@ },
            Request::PostAuthMessageResponse { response } => RequestView::PostAuthMessageResponse {
                response: response.deep_view(),
            },
            Request::StartSession { cmd, env } => RequestView::StartSession {
                cmd: cmd.deep_view(),
                env: env.deep_view(),
            },
            Request::CancelSession => RequestView::CancelSession,
        }
    }
}

impl View for Response {
    type V = ResponseView;

    open spec fn view(&self) -> ResponseView {
        match self {
            Response::Success => ResponseView::Success,
            Response::Error { error_type, description } => ResponseView::Error {
                error_type: *error_type,
                description: description@,
            },
            Response::AuthMessage { auth_message_type, auth_message } => ResponseView::AuthMessage {
                auth_message_type: *auth_message_type,
                auth_message: auth_message@,
            },
        }
    }
}

/// The password the demo stand-in accepts besides the empty one.
pub open spec fn demo_password() -> Seq<char> {
    "demo"@
}

/// The prompt with which the demo stand-in asks for a password.
pub open spec fn demo_prompt() -> Seq<char> {
    "Password: "@
}

/// The description of the demo stand-in's refusal.
pub open spec fn demo_refusal() -> Seq<char> {
    "authentication failed"@
}

/// What the demo stand-in for greetd answers: a secret password prompt to a
/// new session; success to an answer that is `demo`, empty or absent; an
/// authentication error to any other answer; success to starting or
/// cancelling a session.
pub open spec fn mock_reply_spec(req: RequestView) -> ResponseView {
    match req {
        RequestView::CreateSession { .. } => ResponseView::AuthMessage {
            auth_message_type: AuthMessageType::Secret,
            auth_message: demo_prompt(),
        },
        RequestView::PostAuthMessageResponse { response } => match response {
            None => ResponseView::Success,
            Some(r) => if r == demo_password() || r.len() == 0 {
                ResponseView::Success
            } else {
                ResponseView::Error {
                    error_type: ErrorType::AuthError,
                    description: demo_refusal(),
                }
            },
        },
        RequestView::StartSession { .. } => ResponseView::Success,
        RequestView::CancelSession => ResponseView::Success,
    }
}

/// The demo stand-in's answer to `req`.
pub fn mock_reply(req: &Request) -> (resp: Response)
    ensures
        resp@ == mock_reply_spec(req@),
{
    match req {
        Request::CreateSession { .. } => {
            let prompt = String::from_str("Password: ");
            Response::AuthMessage { auth_message_type: AuthMessageType::Secret, auth_message: prompt }
        },
        Request::PostAuthMessageResponse { response } => {
            let accepted = match response {
                None => true,
                Some(r) => {
                    let demo = String::from_str("demo");
                    r.eq(&demo) || r.as_str().is_empty()
                },
            };
            if accepted {
                Response::Success
            } else {
                let description = String::from_str("authentication failed");
                Response::Error { error_type: ErrorType::AuthError, description }
            }
        },
        Request::StartSession { .. } => Response::Success,
        Request::CancelSession => Response::Success,
    }
}

} // verus!
