//! The wire-level envelope and its payloads, as plain values.
//!
//! An envelope carries exactly one populated variant; an envelope whose
//! variant is absent or unknown to the router is left alone. Envelopes are
//! immutable once built, so cloning one is the only way to fan it out, and
//! each `Clone` impl here proves that the copy equals the cloned value.

use vstd::prelude::*;

verus! {

/// Information about the server, sent inside a welcome message.
#[derive(Debug, PartialEq)]
pub struct ServerInfo {
    pub version: String,
}

/// Greets a freshly accepted connection.
#[derive(Debug, PartialEq)]
pub struct WelcomeResponse {
    pub user_id: String,
    pub server_info: Option<ServerInfo>,
}

/// Asks the server to create a new session with the sender as its host.
#[derive(Debug, PartialEq)]
pub struct CreateSessionRequest {}

/// Answers a create request with the URL that names the new session.
#[derive(Debug, PartialEq)]
pub struct CreateSessionResponse {
    pub accepted: bool,
    pub session_url: String,
}

/// Asks the server to add the sender to the session named by `sid`.
#[derive(Debug, PartialEq)]
pub struct JoinSessionRequest {
    pub sid: String,
}

/// Answers a join request; `accepted` is false when the session is unknown.
#[derive(Debug, PartialEq)]
pub struct JoinSessionResponse {
    pub accepted: bool,
}

/// A parameter update, relayed unmodified to the members of session `sid`.
#[derive(Debug, PartialEq)]
pub struct Params {
    pub size: i32,
    pub speed: i32,
    pub color: String,
    pub sid: String,
}

/// The one populated variant of an envelope.
#[derive(Debug, PartialEq)]
pub enum ProtoMessage {
    WelcomeResponse(WelcomeResponse),
    CreateSessionRequest(CreateSessionRequest),
    CreateSessionResponse(CreateSessionResponse),
    JoinSessionRequest(JoinSessionRequest),
    JoinSessionResponse(JoinSessionResponse),
    Params(Params),
}

/// One wire-level message: at most one populated variant.
#[derive(Debug, PartialEq)]
pub struct WebSocketMessage {
    pub message: Option<ProtoMessage>,
}

/// The envelope that greets a freshly accepted connection, carrying the
/// caller's name for it and the server's version.
pub fn welcome_message(user_id: String) -> (m: WebSocketMessage)
    ensures
        (match m.message {
            Some(ProtoMessage::WelcomeResponse(w)) => {
                &&& w.user_id == user_id
                &&& match w.server_info {
                    Some(info) => info.version@ == "1.0.0"@,
                    None => false,
                }
            },
            _ => false,
        }),
{
    WebSocketMessage {
        message: Some(
            ProtoMessage::WelcomeResponse(
                WelcomeResponse {
                    user_id: user_id,
                    server_info: Some(ServerInfo { version: "1.0.0".to_owned() }),
                },
            ),
        ),
    }
}

impl Clone for ServerInfo {
    fn clone(&self) -> (res: Self)
        ensures
            res == *self,
    {
        ServerInfo { version: self.version.clone() }
    }
}

impl Clone for WelcomeResponse {
    fn clone(&self) -> (res: Self)
        ensures
            res == *self,
    {
        WelcomeResponse {
            user_id: self.user_id.clone(),
            server_info: match &self.server_info {
                Some(info) => Some(info.clone()),
                None => None,
            },
        }
    }
}

impl Clone for CreateSessionRequest {
    fn clone(&self) -> (res: Self)
        ensures
            res == *self,
    {
        CreateSessionRequest {}
    }
}

impl Clone for CreateSessionResponse {
    fn clone(&self) -> (res: Self)
        ensures
            res == *self,
    {
        CreateSessionResponse { accepted: self.accepted, session_url: self.session_url.clone() }
    }
}

impl Clone for JoinSessionRequest {
    fn clone(&self) -> (res: Self)
        ensures
            res == *self,
    {
        JoinSessionRequest { sid: self.sid.clone() }
    }
}

impl Clone for JoinSessionResponse {
    fn clone(&self) -> (res: Self)
        ensures
            res == *self,
    {
        JoinSessionResponse { accepted: self.accepted }
    }
}

impl Clone for Params {
    fn clone(&self) -> (res: Self)
        ensures
            res == *self,
    {
        Params {
            size: self.size,
            speed: self.speed,
            color: self.color.clone(),
            sid: self.sid.clone(),
        }
    }
}

impl Clone for ProtoMessage {
    fn clone(&self) -> (res: Self)
        ensures
            res == *self,
    {
        match self {
            ProtoMessage::WelcomeResponse(m) => ProtoMessage::WelcomeResponse(m.clone()),
            ProtoMessage::CreateSessionRequest(m) => ProtoMessage::CreateSessionRequest(m.clone()),
            ProtoMessage::CreateSessionResponse(m) => ProtoMessage::CreateSessionResponse(m.clone()),
            ProtoMessage::JoinSessionRequest(m) => ProtoMessage::JoinSessionRequest(m.clone()),
            ProtoMessage::JoinSessionResponse(m) => ProtoMessage::JoinSessionResponse(m.clone()),
            ProtoMessage::Params(m) => ProtoMessage::Params(m.clone()),
        }
    }
}

impl Clone for WebSocketMessage {
    fn clone(&self) -> (res: Self)
        ensures
            res == *self,
    {
        WebSocketMessage {
            message: match &self.message {
                Some(m) => Some(m.clone()),
                None => None,
            },
        }
    }
}

} // verus!
