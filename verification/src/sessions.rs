//! The session registry: creates sessions, looks them up, joins clients.
//!
//! A session groups connections. It remembers the connection that created it
//! (the host) and the connections that joined it (the members). The host is
//! not itself a member: fan-out reaches joined members only. Joins are
//! cumulative, not idempotent: a connection that joins twice is listed twice
//! and will receive every fan-out twice. Sessions are never destroyed, and a
//! session identifier handed out once is never handed out again.

use crate::assoc::{
    distinct_keys, lemma_pairs_to_map_contains, lemma_pairs_to_map_index, lemma_pairs_to_map_push,
    lemma_pairs_to_map_update, pairs_to_map,
};
use vstd::prelude::*;

verus! {

/// One session: the host that created it and the members that joined it.
pub struct Session {
    client_ids: Vec<u32>,
    host_id: u32,
}

/// What a session is mathematically.
pub ghost struct SessionView {
    pub host: u32,
    pub members: Seq<u32>,
}

impl View for Session {
    type V = SessionView;

    closed spec fn view(&self) -> SessionView {
        SessionView { host: self.host_id, members: self.client_ids@ }
    }
}

impl Session {
    /// A fresh session hosted by `host_id`, with no members yet.
    pub fn new(host_id: u32) -> (s: Self)
        ensures
            s@ == (SessionView { host: host_id, members: Seq::<u32>::empty() }),
    {
        Self { client_ids: Vec::new(), host_id: host_id }
    }
}

/// Why a session operation failed.
#[derive(Clone, Copy, Debug, PartialEq, Eq, Structural)]
pub enum SessionError {
    /// The named session was never created.
    SessionNotFound,
}

/// The pairs a registry's entries denote, keyed by the identifier's characters.
spec fn entry_views(s: Seq<(String, Session)>) -> Seq<(Seq<char>, SessionView)> {
    s.map_values(|p: (String, Session)| (p.0@, p.1@))
}

/// The session registry: a map from session identifier to session state.
pub struct SessionRegistry {
    entries: Vec<(String, Session)>,
}

impl View for SessionRegistry {
    type V = Map<Seq<char>, SessionView>;

    closed spec fn view(&self) -> Map<Seq<char>, SessionView> {
        pairs_to_map(entry_views(self.entries@))
    }
}

/// One create-session step: `sid` was never a session before, and afterwards
/// it names a session hosted by `host` with no members.
pub open spec fn created(
    pre: Map<Seq<char>, SessionView>,
    post: Map<Seq<char>, SessionView>,
    sid: Seq<char>,
    host: u32,
) -> bool {
    &&& !pre.contains_key(sid)
    &&& post == pre.insert(sid, (SessionView { host: host, members: Seq::<u32>::empty() }))
}

/// One successful join step: `sid` already names a session, and afterwards
/// that session lists `client` once more, everything else unchanged.
pub open spec fn joined(
    pre: Map<Seq<char>, SessionView>,
    post: Map<Seq<char>, SessionView>,
    sid: Seq<char>,
    client: u32,
) -> bool {
    &&& pre.contains_key(sid)
    &&& post == pre.insert(
        sid,
        (SessionView { host: pre[sid].host, members: pre[sid].members.push(client) }),
    )
}

impl SessionRegistry {
    /// Identifiers of distinct entries differ, so the entry vector and the
    /// map it denotes carry the same information.
    pub closed spec fn wf(&self) -> bool {
        distinct_keys(entry_views(self.entries@))
    }

    /// An empty registry: no session exists.
    pub fn new() -> (r: Self)
        ensures
            r.wf(),
            r@ == Map::<Seq<char>, SessionView>::empty(),
    {
        let r = SessionRegistry { entries: Vec::new() };
        proof {
            assert(entry_views(r.entries@).len() == 0);
        }
        r
    }

    /// The index of the entry named `sid`, if one exists.
    fn index_of(&self, sid: &String) -> (r: Option<usize>)
        ensures
            match r {
                Some(i) => i < self.entries@.len() && self.entries@[i as int].0@ == sid@,
                None => forall|j: int|
                    0 <= j < self.entries@.len() ==> self.entries@[j].0@ != sid@,
            },
    {
        let n = self.entries.len();
        let mut i: usize = 0;
        while i < n
            invariant
                n == self.entries@.len(),
                i <= n,
                forall|j: int| 0 <= j < i ==> self.entries@[j].0@ != sid@,
            decreases n - i,
        {
            if self.entries[i].0 == *sid {
                return Some(i);
            }
            i = i + 1;
        }
        None
    }

    /// Whether `sid` names a session.
    pub fn contains_session(&self, sid: &String) -> (b: bool)
        ensures
            b == self@.contains_key(sid@),
    {
        proof {
            lemma_pairs_to_map_contains(entry_views(self.entries@), sid@);
        }
        match self.index_of(sid) {
            Some(i) => {
                proof {
                    assert(entry_views(self.entries@)[i as int].0 == sid@);
                }
                true
            },
            None => {
                proof {
                    assert(forall|j: int|
                        0 <= j < entry_views(self.entries@).len() ==> entry_views(
                            self.entries@,
                        )[j].0 != sid@);
                }
                false
            },
        }
    }

    /// An identifier that names no session yet. The generated candidate is
    /// taken when it is free; freshness is owed unconditionally, so on a
    /// collision the fallback builds a name longer than every stored one.
    fn fresh_session_id(&self) -> (sid: String)
        ensures
            !self@.contains_key(sid@),
            sid@.len() > 0,
    {
        let candidate = random_session_id();
        if !self.contains_session(&candidate) {
            return candidate;
        }
        let n = self.entries.len();
        let mut t = String::new();
        let mut i: usize = 0;
        while i < n
            invariant
                n == self.entries@.len(),
                i <= n,
                forall|j: int| 0 <= j < i ==> self.entries@[j].0@.len() <= t@.len(),
            decreases n - i,
        {
            let ghost before = t@;
            t.append(self.entries[i].0.as_str());
            proof {
                assert(t@.len() >= before.len());
            }
            i = i + 1;
        }
        t.append("x");
        proof {
            reveal_strlit("x");
            assert(forall|j: int| 0 <= j < self.entries@.len() ==> self.entries@[j].0@.len() < t@.len());
            lemma_pairs_to_map_contains(entry_views(self.entries@), t@);
        }
        t
    }

    /// Create a session hosted by `host_id` and return its fresh identifier.
    pub fn create_session(&mut self, host_id: u32) -> (sid: String)
        requires
            old(self).wf(),
        ensures
            final(self).wf(),
            created(old(self)@, final(self)@, sid@, host_id),
            sid@.len() > 0,
    {
        let sid = self.fresh_session_id();
        let ghost pre = entry_views(self.entries@);
        let sess = Session::new(host_id);
        let key = sid.clone();
        self.entries.push((key, sess));
        proof {
            assert(entry_views(self.entries@) =~= pre.push((sid@, sess@)));
            lemma_pairs_to_map_push(pre, sid@, sess@);
            lemma_pairs_to_map_contains(pre, sid@);
        }
        sid
    }

    /// Add `client_id` to the members of session `sid`; fail when no such
    /// session exists, leaving every session untouched.
    pub fn join_session(&mut self, client_id: u32, sid: &String) -> (r: Result<(), SessionError>)
        requires
            old(self).wf(),
        ensures
            final(self).wf(),
            match r {
                Ok(()) => joined(old(self)@, final(self)@, sid@, client_id),
                Err(e) => {
                    &&& e == SessionError::SessionNotFound
                    &&& !old(self)@.contains_key(sid@)
                    &&& final(self)@ == old(self)@
                },
            },
    {
        proof {
            lemma_pairs_to_map_contains(entry_views(self.entries@), sid@);
        }
        match self.index_of(sid) {
            None => Err(SessionError::SessionNotFound),
            Some(i) => {
                let ghost pre = entry_views(self.entries@);
                let ghost old_entries = self.entries@;
                let mut pair = self.entries.remove(i);
                pair.1.client_ids.push(client_id);
                self.entries.insert(i, pair);
                proof {
                    assert(self.entries@ =~= old_entries.update(i as int, pair));
                    assert(entry_views(self.entries@) =~= pre.update(
                        i as int,
                        (pre[i as int].0, pair.1@),
                    ));
                    lemma_pairs_to_map_index(pre, i as int);
                    lemma_pairs_to_map_update(pre, i as int, pair.1@);
                }
                Ok(())
            },
        }
    }

    /// A point-in-time copy of the member list of session `sid`.
    pub fn members(&self, sid: &String) -> (r: Option<Vec<u32>>)
        requires
            self.wf(),
        ensures
            match r {
                Some(v) => self@.contains_key(sid@) && v@ == self@[sid@].members,
                None => !self@.contains_key(sid@),
            },
    {
        proof {
            lemma_pairs_to_map_contains(entry_views(self.entries@), sid@);
        }
        match self.index_of(sid) {
            None => None,
            Some(i) => {
                proof {
                    lemma_pairs_to_map_index(entry_views(self.entries@), i as int);
                }
                let list = &self.entries[i].1.client_ids;
                let n = list.len();
                let mut out: Vec<u32> = Vec::new();
                let mut j: usize = 0;
                while j < n
                    invariant
                        n == list@.len(),
                        j <= n,
                        out@ == list@.subrange(0, j as int),
                    decreases n - j,
                {
                    out.push(list[j]);
                    proof {
                        assert(out@ =~= list@.subrange(0, j + 1 as int));
                    }
                    j = j + 1;
                }
                proof {
                    assert(out@ =~= list@);
                }
                Some(out)
            },
        }
    }
}

/// Relies on `uuid::Uuid::new_v4` and the `uuid` crate's `Display` rendering:
/// a random 128-bit identifier rendered as 36 hyphenated ASCII characters.
#[verifier::external_body]
fn random_session_id() -> (r: String)
    ensures
        r@.len() == 36,
{
    uuid::Uuid::new_v4().to_string()
}

} // verus!
