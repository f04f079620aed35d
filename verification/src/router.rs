//! The message router: one inbound envelope in, zero or more outbound
//! envelopes out.
//!
//! The router owns the session registry and dispatches on the envelope's
//! variant: a create request makes a session and answers the sender with its
//! URL, a join request answers the sender with whether the session exists,
//! and a parameter update is fanned out unmodified to every member of its
//! session — and to nobody else. An update naming an unknown session is
//! dropped without a reply, and an envelope with no or an unhandled variant
//! does nothing. Sending the outbound envelopes is the transport's job; the
//! router only names their targets.

use crate::messages::{
    CreateSessionResponse, JoinSessionResponse, ProtoMessage, WebSocketMessage,
};
use crate::sessions::{created, joined, SessionRegistry, SessionView};
use vstd::prelude::*;
use vstd::string::StringExecFns;

verus! {

/// The URL prefix to which a new session's identifier is appended.
pub open spec fn session_url_prefix() -> Seq<char> {
    "http://localhost:5173/client?sid="@
}

/// The URL that names session `sid`.
fn session_url(sid: &String) -> (url: String)
    ensures
        url@ == session_url_prefix() + sid@,
{
    let mut url = "http://localhost:5173/client?sid=".to_owned();
    url.append(sid.as_str());
    url
}

/// A create request was served: the one reply goes back to the sender and
/// accepts, its URL is the prefix followed by a non-empty identifier, and
/// that identifier now names a fresh session hosted by the sender.
pub open spec fn create_step(
    pre: Map<Seq<char>, SessionView>,
    post: Map<Seq<char>, SessionView>,
    conn_id: u32,
    out: Seq<(u32, WebSocketMessage)>,
) -> bool {
    &&& out.len() == 1
    &&& out[0].0 == conn_id
    &&& match out[0].1.message {
        Some(ProtoMessage::CreateSessionResponse(resp)) => {
            let sid = resp.session_url@.skip(session_url_prefix().len() as int);
            &&& resp.accepted == true
            &&& resp.session_url@ == session_url_prefix() + sid
            &&& sid.len() > 0
            &&& created(pre, post, sid, conn_id)
        },
        _ => false,
    }
}

/// A join request was served: the one reply goes back to the sender and
/// accepts exactly when the session exists; an existing session gains the
/// sender as one more member, an unknown one leaves everything unchanged.
pub open spec fn join_step(
    pre: Map<Seq<char>, SessionView>,
    post: Map<Seq<char>, SessionView>,
    conn_id: u32,
    sid: Seq<char>,
    out: Seq<(u32, WebSocketMessage)>,
) -> bool {
    &&& out.len() == 1
    &&& out[0].0 == conn_id
    &&& match out[0].1.message {
        Some(ProtoMessage::JoinSessionResponse(resp)) => resp.accepted == pre.contains_key(sid),
        _ => false,
    }
    &&& if pre.contains_key(sid) {
        joined(pre, post, sid, conn_id)
    } else {
        post == pre
    }
}

/// A parameter update was dispatched: no session changes, and the unmodified
/// envelope goes to each member of its session in order — every member gets
/// it, nobody else does, and an unknown session delivers to nobody.
pub open spec fn params_step(
    pre: Map<Seq<char>, SessionView>,
    post: Map<Seq<char>, SessionView>,
    sid: Seq<char>,
    msg: WebSocketMessage,
    out: Seq<(u32, WebSocketMessage)>,
) -> bool {
    &&& post == pre
    &&& if pre.contains_key(sid) {
        &&& out.len() == pre[sid].members.len()
        &&& forall|i: int| 0 <= i < out.len() ==> out[i] == (pre[sid].members[i], msg)
    } else {
        out.len() == 0
    }
}

/// Whether an envelope asks for a session to be created.
pub open spec fn is_create_request(msg: WebSocketMessage) -> bool {
    match msg.message {
        Some(ProtoMessage::CreateSessionRequest(_)) => true,
        _ => false,
    }
}

/// The session identifier a create reply announces: what its URL holds
/// after the fixed prefix.
pub open spec fn announced_sid(out: Seq<(u32, WebSocketMessage)>) -> Seq<char> {
    match out[0].1.message {
        Some(ProtoMessage::CreateSessionResponse(resp)) => resp.session_url@.skip(
            session_url_prefix().len() as int,
        ),
        _ => Seq::empty(),
    }
}

/// Everything one dispatch may do, by the inbound envelope's variant.
pub open spec fn router_step(
    pre: Map<Seq<char>, SessionView>,
    post: Map<Seq<char>, SessionView>,
    conn_id: u32,
    msg: WebSocketMessage,
    out: Seq<(u32, WebSocketMessage)>,
) -> bool {
    match msg.message {
        Some(ProtoMessage::CreateSessionRequest(_)) => create_step(pre, post, conn_id, out),
        Some(ProtoMessage::JoinSessionRequest(req)) => join_step(pre, post, conn_id, req.sid@, out),
        Some(ProtoMessage::Params(p)) => params_step(pre, post, p.sid@, msg, out),
        _ => post == pre && out.len() == 0,
    }
}

/// Dispatches inbound envelopes; the state lives entirely in the registry.
pub struct MessageRouter {
    sessions: SessionRegistry,
}

impl View for MessageRouter {
    type V = Map<Seq<char>, SessionView>;

    closed spec fn view(&self) -> Map<Seq<char>, SessionView> {
        self.sessions@
    }
}

impl MessageRouter {
    /// The owned registry is in shape.
    pub closed spec fn wf(&self) -> bool {
        self.sessions.wf()
    }

    /// A router with no sessions yet.
    pub fn new() -> (r: Self)
        ensures
            r.wf(),
            r@ == Map::<Seq<char>, SessionView>::empty(),
    {
        MessageRouter { sessions: SessionRegistry::new() }
    }

    /// Whether `sid` names a session.
    pub fn contains_session(&self, sid: &String) -> (b: bool)
        ensures
            b == self@.contains_key(sid@),
    {
        self.sessions.contains_session(sid)
    }

    /// A point-in-time copy of the member list of session `sid`.
    pub fn members(&self, sid: &String) -> (r: Option<Vec<u32>>)
        requires
            self.wf(),
        ensures
            match r {
                Some(v) => self@.contains_key(sid@) && v@ == self@[sid@].members,
                None => !self@.contains_key(sid@),
            },
    {
        self.sessions.members(sid)
    }

    /// Serve one inbound envelope from connection `conn_id` and return the
    /// outbound envelopes with the connections they are meant for.
    pub fn handle_message(&mut self, conn_id: u32, msg: WebSocketMessage) -> (out: Vec<
        (u32, WebSocketMessage),
    >)
        requires
            old(self).wf(),
        ensures
            final(self).wf(),
            router_step(old(self)@, final(self)@, conn_id, msg, out@),
    {
        let mut out: Vec<(u32, WebSocketMessage)> = Vec::new();
        match &msg.message {
            Some(ProtoMessage::CreateSessionRequest(_)) => {
                let sid = self.sessions.create_session(conn_id);
                let ghost sid_view = sid@;
                let url = session_url(&sid);
                proof {
                    assert(url@.skip(session_url_prefix().len() as int) =~= sid_view);
                }
                let resp = WebSocketMessage {
                    message: Some(
                        ProtoMessage::CreateSessionResponse(
                            CreateSessionResponse { accepted: true, session_url: url },
                        ),
                    ),
                };
                out.push((conn_id, resp));
            },
            Some(ProtoMessage::JoinSessionRequest(req)) => {
                let accepted = match self.sessions.join_session(conn_id, &req.sid) {
                    Ok(()) => true,
                    Err(_) => false,
                };
                let resp = WebSocketMessage {
                    message: Some(
                        ProtoMessage::JoinSessionResponse(JoinSessionResponse { accepted }),
                    ),
                };
                out.push((conn_id, resp));
            },
            Some(ProtoMessage::Params(p)) => {
                match self.sessions.members(&p.sid) {
                    Some(member_ids) => {
                        let n = member_ids.len();
                        let mut k: usize = 0;
                        while k < n
                            invariant
                                n == member_ids@.len(),
                                k <= n,
                                out@.len() == k,
                                forall|i: int| 0 <= i < k ==> out@[i] == (member_ids@[i], msg),
                            decreases n - k,
                        {
                            out.push((member_ids[k], msg.clone()));
                            k = k + 1;
                        }
                    },
                    None => {
                        // Unknown session: the update is dropped, nobody is told.
                    },
                }
            },
            _ => {
                // No variant, or one the router does not handle: leave it alone.
            },
        }
        out
    }
}

} // verus!
