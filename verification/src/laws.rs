//! The guarantees the relay gives across operations, written down and proved.
//!
//! Each law is stated over the spec-level step relations that the registry
//! and router functions promise in their contracts, so it holds of any run
//! composed of those steps, in whatever order connections take them.

use crate::messages::{ProtoMessage, WebSocketMessage};
use crate::router::{announced_sid, is_create_request, join_step, params_step, router_step};
use crate::sessions::{created, joined, SessionView};
use vstd::prelude::*;

verus! {

/// A run of the router: one state more than steps, and each consecutive
/// state pair is related by the dispatch of that step's inbound envelope.
/// The steps may come from any connections in any interleaving.
pub open spec fn router_run(
    states: Seq<Map<Seq<char>, SessionView>>,
    steps: Seq<(u32, WebSocketMessage, Seq<(u32, WebSocketMessage)>)>,
) -> bool {
    &&& states.len() == steps.len() + 1
    &&& forall|i: int|
        0 <= i < steps.len() ==> router_step(
            states[i],
            states[i + 1],
            steps[i].0,
            steps[i].1,
            steps[i].2,
        )
}

/// Law: no dispatch step ever removes a session — the session map only grows.
pub proof fn lemma_router_step_monotone(
    pre: Map<Seq<char>, SessionView>,
    post: Map<Seq<char>, SessionView>,
    conn_id: u32,
    msg: WebSocketMessage,
    out: Seq<(u32, WebSocketMessage)>,
)
    requires
        router_step(pre, post, conn_id, msg, out),
    ensures
        pre.dom().subset_of(post.dom()),
{
    match msg.message {
        Some(ProtoMessage::CreateSessionRequest(_)) => {
            assert(forall|k: Seq<char>| pre.contains_key(k) ==> post.contains_key(k));
        },
        Some(ProtoMessage::JoinSessionRequest(req)) => {
            assert(forall|k: Seq<char>| pre.contains_key(k) ==> post.contains_key(k));
        },
        _ => {},
    }
}

/// Law: across a run, no later state has lost a session an earlier one had.
pub proof fn lemma_run_monotone(
    states: Seq<Map<Seq<char>, SessionView>>,
    steps: Seq<(u32, WebSocketMessage, Seq<(u32, WebSocketMessage)>)>,
    i: int,
    j: int,
)
    requires
        router_run(states, steps),
        0 <= i <= j < states.len(),
    ensures
        states[i].dom().subset_of(states[j].dom()),
    decreases j - i,
{
    if i < j {
        lemma_run_monotone(states, steps, i, j - 1);
        lemma_router_step_monotone(
            states[j - 1],
            states[j],
            steps[j - 1].0,
            steps[j - 1].1,
            steps[j - 1].2,
        );
    }
}

/// Law: over any sequence of create requests in a run — from whatever
/// connections, with whatever other traffic between them — the announced
/// session identifiers are pairwise distinct.
pub proof fn lemma_run_created_ids_distinct(
    states: Seq<Map<Seq<char>, SessionView>>,
    steps: Seq<(u32, WebSocketMessage, Seq<(u32, WebSocketMessage)>)>,
    i: int,
    j: int,
)
    requires
        router_run(states, steps),
        0 <= i < j < steps.len(),
        is_create_request(steps[i].1),
        is_create_request(steps[j].1),
    ensures
        announced_sid(steps[i].2) != announced_sid(steps[j].2),
{
    let sid_i = announced_sid(steps[i].2);
    let sid_j = announced_sid(steps[j].2);
    assert(router_step(states[i], states[i + 1], steps[i].0, steps[i].1, steps[i].2));
    assert(router_step(states[j], states[j + 1], steps[j].0, steps[j].1, steps[j].2));
    assert(created(states[i], states[i + 1], sid_i, steps[i].0));
    assert(created(states[j], states[j + 1], sid_j, steps[j].0));
    assert(states[i + 1].contains_key(sid_i));
    lemma_run_monotone(states, steps, i + 1, j);
    assert(states[j].contains_key(sid_i));
    assert(!states[j].contains_key(sid_j));
}

/// Law: create always hands out an unused identifier, so the identifiers of
/// any two create steps differ, no matter which steps come between them —
/// in particular they differ for creates made from different connections.
pub proof fn lemma_created_ids_distinct(
    pre1: Map<Seq<char>, SessionView>,
    post1: Map<Seq<char>, SessionView>,
    sid1: Seq<char>,
    host1: u32,
    pre2: Map<Seq<char>, SessionView>,
    post2: Map<Seq<char>, SessionView>,
    sid2: Seq<char>,
    host2: u32,
)
    requires
        created(pre1, post1, sid1, host1),
        created(pre2, post2, sid2, host2),
        post1.dom().subset_of(pre2.dom()),
    ensures
        sid1 != sid2,
{
    assert(post1.contains_key(sid1));
    assert(pre2.contains_key(sid1));
}

/// Law: one successful join adds exactly one occurrence of the joining
/// connection to the addressed session's members — joining twice yields two
/// entries — and every other session keeps its state.
pub proof fn lemma_join_adds_one_occurrence(
    pre: Map<Seq<char>, SessionView>,
    post: Map<Seq<char>, SessionView>,
    sid: Seq<char>,
    client: u32,
)
    requires
        joined(pre, post, sid, client),
    ensures
        post[sid].members.to_multiset().count(client) == pre[sid].members.to_multiset().count(
            client,
        ) + 1,
        post[sid].host == pre[sid].host,
        forall|other: Seq<char>|
            pre.contains_key(other) && other != sid ==> post[other] == pre[other],
{
    pre[sid].members.to_multiset_ensures();
    assert(pre[sid].members.push(client).to_multiset() =~= pre[sid].members.to_multiset().insert(
        client,
    ));
}

/// Law: a join that names a session that was never created is answered with
/// a refusal to the requester alone and alters no session's member collection.
pub proof fn lemma_join_unknown_refused(
    pre: Map<Seq<char>, SessionView>,
    post: Map<Seq<char>, SessionView>,
    conn_id: u32,
    sid: Seq<char>,
    out: Seq<(u32, WebSocketMessage)>,
)
    requires
        join_step(pre, post, conn_id, sid, out),
        !pre.contains_key(sid),
    ensures
        post == pre,
        out.len() == 1,
        out[0].0 == conn_id,
        (match out[0].1.message {
            Some(ProtoMessage::JoinSessionResponse(resp)) => resp.accepted == false,
            _ => false,
        }),
{
}

/// Law: a fan-out delivers the unmodified envelope to every member of the
/// addressed session, one send per membership entry and in member order, and
/// to no connection outside that member collection.
pub proof fn lemma_fanout_exact(
    pre: Map<Seq<char>, SessionView>,
    post: Map<Seq<char>, SessionView>,
    sid: Seq<char>,
    msg: WebSocketMessage,
    out: Seq<(u32, WebSocketMessage)>,
)
    requires
        params_step(pre, post, sid, msg, out),
        pre.contains_key(sid),
    ensures
        post == pre,
        out.len() == pre[sid].members.len(),
        forall|i: int| 0 <= i < out.len() ==> out[i].1 == msg,
        forall|i: int| 0 <= i < out.len() ==> pre[sid].members.contains(#[trigger] out[i].0),
        forall|c: u32|
            pre[sid].members.contains(c) ==> exists|i: int| 0 <= i < out.len() && out[i] == (c, msg),
{
    assert forall|i: int| 0 <= i < out.len() implies pre[sid].members.contains(
        #[trigger] out[i].0,
    ) by {
        assert(out[i] == (pre[sid].members[i], msg));
        assert(pre[sid].members[i] == out[i].0);
    }
    assert forall|c: u32| pre[sid].members.contains(c) implies exists|i: int|
        0 <= i < out.len() && out[i] == (c, msg) by {
        let j = choose|j: int| 0 <= j < pre[sid].members.len() && pre[sid].members[j] == c;
        assert(out[j] == (c, msg));
    }
}

/// Law: an update that names an unknown session is delivered to nobody and
/// changes no session.
pub proof fn lemma_unknown_session_drops(
    pre: Map<Seq<char>, SessionView>,
    post: Map<Seq<char>, SessionView>,
    sid: Seq<char>,
    msg: WebSocketMessage,
    out: Seq<(u32, WebSocketMessage)>,
)
    requires
        params_step(pre, post, sid, msg, out),
        !pre.contains_key(sid),
    ensures
        post == pre,
        out.len() == 0,
{
}

} // verus!
