//! What holds of the adapter as a whole, stated over the models that the
//! contracts of its operations use.
use vstd::prelude::*;
use crate::client::{auth_request, connection};
use crate::encoding::{c_encoded, has_nul};
use crate::error::AdapterError;
use crate::event::{CallView, ClientEventView, RealtimeEventView};
use crate::game::{send_request, MatchView};
use crate::realtime::{
    connect_request, connection_news, phase_after, phase_after_all, phase_is_connected, reaction,
    reactions, Phase,
};
use crate::store::{
    client_store_after, client_store_after_all, empty_store, realtime_store_after,
    realtime_store_after_all, StoreView,
};

verus! {

/// The data messages among the callbacks `evs`, in the order they fired.
pub open spec fn data_messages(evs: Seq<RealtimeEventView>) -> Seq<(i64, Seq<u8>)>
    decreases evs.len(),
{
    if evs.len() == 0 {
        Seq::empty()
    } else {
        match evs.last() {
            RealtimeEventView::MatchData { opcode, payload } => data_messages(
                evs.drop_last(),
            ).push((opcode, payload)),
            _ => data_messages(evs.drop_last()),
        }
    }
}

/// The failure messages among the callbacks `evs`, in the order they fired.
pub open spec fn failure_messages(evs: Seq<RealtimeEventView>) -> Seq<Seq<u8>>
    decreases evs.len(),
{
    if evs.len() == 0 {
        Seq::empty()
    } else {
        match evs.last() {
            RealtimeEventView::Failed { message } => failure_messages(evs.drop_last()).push(
                message,
            ),
            _ => failure_messages(evs.drop_last()),
        }
    }
}

/// A transport that hands every sent payload straight back: the callback
/// that a request makes fire at the paired endpoint.
pub open spec fn loopback(call: CallView) -> Option<RealtimeEventView> {
    match call {
        CallView::SendMatchData { match_id, opcode, payload, presences } => Some(
            RealtimeEventView::MatchData { opcode: opcode, payload: payload },
        ),
        _ => None,
    }
}

/// Parameters without an embedded terminator always make a handle, and it
/// holds exactly what was given, each string null-terminated.
pub proof fn lemma_valid_parameters_make_a_handle(
    server_key: Seq<u8>,
    host: Seq<u8>,
    port: u16,
    ssl: bool,
)
    requires
        !has_nul(server_key),
        !has_nul(host),
    ensures
        connection(server_key, host, port, ssl) matches Ok(c) && c.server_key == c_encoded(
            server_key,
        ) && c.host == c_encoded(host) && c.port == port && c.ssl == ssl,
{
}

/// A tick that delivers nothing leaves the store and the phase as they were
/// and calls for no request, however often it is repeated.
pub proof fn lemma_idle_tick_changes_nothing(s: StoreView, p: Phase)
    ensures
        client_store_after_all(s, Seq::empty()) == s,
        realtime_store_after_all(s, Seq::empty()) == s,
        phase_after_all(p, Seq::empty()) == p,
        reactions(Seq::empty()) == Seq::<CallView>::empty(),
{
}

/// Once an authentication has completed, the store holds its session, and a
/// connect builds the request for that session: it cannot fail for want of
/// one.
pub proof fn lemma_authentication_enables_connect(s: StoreView, session: Seq<u8>)
    ensures
        client_store_after(s, ClientEventView::Authenticated { session }).session == Some(
            session,
        ),
        connect_request(client_store_after(s, ClientEventView::Authenticated { session })) == Ok::<
            CallView,
            AdapterError,
        >(CallView::Connect { session }),
{
}

/// No callback takes a session away: a store that holds one still holds one
/// after any callbacks of a connection.
pub proof fn lemma_client_events_keep_a_session(s: StoreView, evs: Seq<ClientEventView>)
    requires
        s.session is Some,
    ensures
        client_store_after_all(s, evs).session is Some,
        connect_request(client_store_after_all(s, evs)) is Ok,
    decreases evs.len(),
{
    if evs.len() > 0 {
        lemma_client_events_keep_a_session(s, evs.drop_last());
    }
}

/// The callbacks of a realtime handle leave the session slot alone.
pub proof fn lemma_realtime_events_keep_the_session(s: StoreView, evs: Seq<RealtimeEventView>)
    ensures
        realtime_store_after_all(s, evs).session == s.session,
    decreases evs.len(),
{
    if evs.len() > 0 {
        lemma_realtime_events_keep_the_session(s, evs.drop_last());
    }
}

/// Before any authentication has completed, whatever the realtime handle
/// has delivered, a connect fails with `NotAuthenticated` and builds no
/// request.
pub proof fn lemma_connect_needs_a_session(evs: Seq<RealtimeEventView>)
    ensures
        connect_request(realtime_store_after_all(empty_store(), evs)) == Err::<
            CallView,
            AdapterError,
        >(AdapterError::NotAuthenticated),
{
    lemma_realtime_events_keep_the_session(empty_store(), evs);
}

/// A payload sent into a match comes out of a loopback transport unchanged:
/// the request is built for every payload, the empty one too, as long as the
/// match identifier can be null-terminated, and the callback that it makes
/// fire appends exactly that operation code and payload to the receiver's
/// queue.
pub proof fn lemma_round_trip(joined: MatchView, opcode: i64, payload: Seq<u8>, receiver: StoreView)
    ensures
        send_request(joined, opcode, payload) is Ok <==> !has_nul(joined.match_id),
        send_request(joined, opcode, payload) matches Ok(call) ==> loopback(call) == Some(
            RealtimeEventView::MatchData { opcode, payload },
        ),
        send_request(joined, opcode, payload) matches Ok(call) ==> realtime_store_after(
            receiver,
            loopback(call).unwrap(),
        ).inbound == receiver.inbound.push((opcode, payload)),
{
}

/// Messages reach the queue in the order their callbacks fired: after the
/// callbacks `evs` the queue is what it was, followed by the data messages
/// of `evs` in their own order.
pub proof fn lemma_inbound_order(s: StoreView, evs: Seq<RealtimeEventView>)
    ensures
        realtime_store_after_all(s, evs).inbound == s.inbound + data_messages(evs),
    decreases evs.len(),
{
    if evs.len() == 0 {
        assert(s.inbound + data_messages(evs) =~= s.inbound);
    } else {
        lemma_inbound_order(s, evs.drop_last());
        let before = realtime_store_after_all(s, evs.drop_last());
        match evs.last() {
            RealtimeEventView::MatchData { opcode, payload } => {
                assert((s.inbound + data_messages(evs.drop_last())).push((opcode, payload))
                    =~= s.inbound + data_messages(evs));
            },
            _ => {},
        }
    }
}

/// Of two deliveries one after the other, the messages of the first stand
/// before those of the second.
pub proof fn lemma_ticks_append_in_turn(
    s: StoreView,
    first: Seq<RealtimeEventView>,
    second: Seq<RealtimeEventView>,
)
    ensures
        realtime_store_after_all(realtime_store_after_all(s, first), second).inbound == s.inbound
            + data_messages(first) + data_messages(second),
{
    lemma_inbound_order(s, first);
    lemma_inbound_order(realtime_store_after_all(s, first), second);
}

/// Failures reach the error queue in the order their callbacks fired, and
/// none is dropped.
pub proof fn lemma_error_order(s: StoreView, evs: Seq<RealtimeEventView>)
    ensures
        realtime_store_after_all(s, evs).errors == s.errors + failure_messages(evs),
    decreases evs.len(),
{
    if evs.len() == 0 {
        assert(s.errors + failure_messages(evs) =~= s.errors);
    } else {
        lemma_error_order(s, evs.drop_last());
        match evs.last() {
            RealtimeEventView::Failed { message } => {
                assert((s.errors + failure_messages(evs.drop_last())).push(message) =~= s.errors
                    + failure_messages(evs));
            },
            _ => {},
        }
    }
}

/// Delivering in two ticks what could have come in one makes no difference
/// to the store, to the phase, or to the requests called for.
pub proof fn lemma_ticks_compose(
    s: StoreView,
    p: Phase,
    first: Seq<RealtimeEventView>,
    second: Seq<RealtimeEventView>,
)
    ensures
        realtime_store_after_all(realtime_store_after_all(s, first), second)
            == realtime_store_after_all(s, first + second),
        phase_after_all(phase_after_all(p, first), second) == phase_after_all(p, first + second),
        reactions(first) + reactions(second) == reactions(first + second),
    decreases second.len(),
{
    if second.len() == 0 {
        assert(first + second =~= first);
        assert(reactions(first) + reactions(second) =~= reactions(first));
    } else {
        lemma_ticks_compose(s, p, first, second.drop_last());
        assert((first + second).drop_last() =~= first + second.drop_last());
        assert((first + second).last() == second.last());
        match reaction(second.last()) {
            Some(c) => {
                assert((reactions(first) + reactions(second.drop_last())).push(c) =~= reactions(
                    first,
                ) + reactions(second));
            },
            None => {},
        }
    }
}

/// Of several authentications the last one holds: whatever came before, a
/// delivery that ends in a completed authentication leaves its session.
pub proof fn lemma_last_authentication_wins(
    s: StoreView,
    evs: Seq<ClientEventView>,
    session: Seq<u8>,
)
    ensures
        client_store_after_all(s, evs.push(ClientEventView::Authenticated { session })).session
            == Some(session),
{
    let all = evs.push(ClientEventView::Authenticated { session });
    assert(all.drop_last() =~= evs);
    assert(all.last() == ClientEventView::Authenticated { session });
}

/// A string with an embedded terminator is refused before any request is
/// built: the handle is not made, and the authentication request is not
/// made, and in both cases the error is `InvalidParameter`.
pub proof fn lemma_embedded_terminator_is_refused(
    a: Seq<u8>,
    b: Seq<u8>,
    c: Seq<u8>,
    port: u16,
    ssl: bool,
)
    ensures
        (has_nul(a) || has_nul(b)) <==> connection(a, b, port, ssl) is Err,
        (has_nul(a) || has_nul(b) || has_nul(c)) <==> auth_request(a, b, c) is Err,
        connection(a, b, port, ssl) is Err ==> connection(a, b, port, ssl) == Err::<
            crate::client::ClientView,
            AdapterError,
        >(AdapterError::InvalidParameter),
        auth_request(a, b, c) is Err ==> auth_request(a, b, c) == Err::<CallView, AdapterError>(
            AdapterError::InvalidParameter,
        ),
{
}

/// A matched ticket is answered at once by a join with the ticket's own
/// token, and the join is the only request that a callback calls for.
pub proof fn lemma_matched_ticket_is_joined(e: RealtimeEventView)
    ensures
        e matches RealtimeEventView::MatchmakerMatched { token } ==> reaction(e) == Some(
            CallView::JoinMatchByToken { token },
        ),
        !(e is MatchmakerMatched) <==> reaction(e) is None,
{
}

/// A completed join replaces the match descriptor whole, whatever the store
/// held before, and touches nothing else.
pub proof fn lemma_join_replaces_the_match(s: StoreView, joined: MatchView)
    ensures
        realtime_store_after(s, RealtimeEventView::MatchJoined { joined }) == (StoreView {
            current_match: Some(joined),
            ..s
        }),
{
}

/// The transport comes up only through a callback: a handle that is not
/// connected stays so over any callbacks that hold no `Connected`.
pub proof fn lemma_only_a_callback_connects(p: Phase, evs: Seq<RealtimeEventView>)
    requires
        !phase_is_connected(p),
        forall|i: int| 0 <= i < evs.len() ==> !(evs[i] is Connected),
    ensures
        !phase_is_connected(phase_after_all(p, evs)),
    decreases evs.len(),
{
    if evs.len() > 0 {
        lemma_only_a_callback_connects(p, evs.drop_last());
    }
}

/// An observation of the transport is news only where delivering it moves
/// the phase, and it moves the phase along the handle's life: from
/// connecting to connected, or from any connected phase to disconnected.
pub proof fn lemma_connection_news_moves_the_phase(p: Phase, up: bool)
    ensures
        connection_news(p, up) matches Some(e) ==> phase_after(p, e) != p && phase_is_connected(
            phase_after(p, e),
        ) == up,
        connection_news(p, up) is None ==> (up ==> p != Phase::Connecting) && (!up
            ==> !phase_is_connected(p)),
{
}

/// A match counts as joined only through a callback: a handle that has not
/// joined stays so over any callbacks that hold no completed join.
pub proof fn lemma_only_a_callback_joins(p: Phase, evs: Seq<RealtimeEventView>)
    requires
        p != Phase::MatchJoined,
        forall|i: int| 0 <= i < evs.len() ==> !(evs[i] is MatchJoined),
    ensures
        phase_after_all(p, evs) != Phase::MatchJoined,
    decreases evs.len(),
{
    if evs.len() > 0 {
        lemma_only_a_callback_joins(p, evs.drop_last());
    }
}

} // verus!
