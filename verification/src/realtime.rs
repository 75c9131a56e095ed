use vstd::prelude::*;
use vstd::string::StringSliceAdditionalSpecFns;
use crate::client::NakamaClient;
use crate::encoding::{copy_bytes, encode_c_bytes, encode_c_string, encoded};
use crate::error::AdapterError;
use crate::event::{
    call_option_view, calls, event_option_view, outcome_view, outcomes_view, realtime_events,
    CallView, ForeignCall, RealtimeEvent, RealtimeEventView,
};
use crate::laws::{
    data_messages, failure_messages, lemma_error_order, lemma_inbound_order,
    lemma_realtime_events_keep_the_session,
};
use crate::store::{realtime_store_after, realtime_store_after_all, SharedState, StoreView};

verus! {

/// Where a realtime handle stands in its life.
#[derive(Debug, Clone, Copy, PartialEq, Eq, Structural)]
pub enum Phase {
    Created,
    Connecting,
    Connected,
    Matchmaking,
    MatchJoined,
    Disconnected,
}

/// A realtime handle, derived from a connection handle. It cannot be
/// duplicated.
#[derive(Debug)]
pub struct NakamaRealtimeClient {
    port: u16,
    phase: Phase,
}

/// The mathematical value of a `NakamaRealtimeClient`.
pub struct RealtimeView {
    pub port: u16,
    pub phase: Phase,
}

impl View for NakamaRealtimeClient {
    type V = RealtimeView;

    closed spec fn view(&self) -> RealtimeView {
        RealtimeView { port: self.port, phase: self.phase }
    }
}

/// The query that matches any opponent.
pub open spec fn any_query() -> Seq<u8> {
    seq![42u8]
}

/// Whether the transport is up in this phase.
pub open spec fn phase_is_connected(p: Phase) -> bool {
    p == Phase::Connected || p == Phase::Matchmaking || p == Phase::MatchJoined
}

/// The callback that an observation of the transport amounts to: a
/// connecting handle whose transport is seen up has connected, a handle that
/// counts as connected and whose transport is seen down has lost its
/// connection, and any other observation is no news.
pub open spec fn connection_news(p: Phase, up: bool) -> Option<RealtimeEventView> {
    if up && p == Phase::Connecting {
        Some(RealtimeEventView::Connected)
    } else if !up && phase_is_connected(p) {
        Some(RealtimeEventView::Disconnected)
    } else {
        None
    }
}

/// The phase after one callback. Only a callback moves a connecting handle
/// to connected, and a matchmaking handle to joined.
pub open spec fn phase_after(p: Phase, e: RealtimeEventView) -> Phase {
    match e {
        RealtimeEventView::Connected => if p == Phase::Connecting {
            Phase::Connected
        } else {
            p
        },
        RealtimeEventView::Disconnected => Phase::Disconnected,
        RealtimeEventView::MatchJoined { joined } => if p == Phase::Matchmaking {
            Phase::MatchJoined
        } else {
            p
        },
        _ => p,
    }
}

/// The request that a callback calls for at once: a matched ticket is
/// answered by joining with its token, unchanged. No other callback is
/// answered.
pub open spec fn reaction(e: RealtimeEventView) -> Option<CallView> {
    match e {
        RealtimeEventView::MatchmakerMatched { token } => Some(
            CallView::JoinMatchByToken { token: token },
        ),
        _ => None,
    }
}

/// The phase after the callbacks `evs`, taken in the order they fired.
pub open spec fn phase_after_all(p: Phase, evs: Seq<RealtimeEventView>) -> Phase
    decreases evs.len(),
{
    if evs.len() == 0 {
        p
    } else {
        phase_after(phase_after_all(p, evs.drop_last()), evs.last())
    }
}

/// The requests that the callbacks `evs` call for, in the order they fired.
pub open spec fn reactions(evs: Seq<RealtimeEventView>) -> Seq<CallView>
    decreases evs.len(),
{
    if evs.len() == 0 {
        Seq::empty()
    } else {
        match reaction(evs.last()) {
            Some(c) => reactions(evs.drop_last()).push(c),
            None => reactions(evs.drop_last()),
        }
    }
}

/// The connect request for the session in the store, or `NotAuthenticated`
/// where the store holds none.
pub open spec fn connect_request(s: StoreView) -> Result<CallView, AdapterError> {
    match s.session {
        Some(session) => Ok(CallView::Connect { session: session }),
        None => Err(AdapterError::NotAuthenticated),
    }
}

/// The requests that start matchmaking: both callbacks are registered, then
/// the request is submitted with the query null-terminated. Without a query
/// the one that matches anyone is sent. `InvalidParameter` where the query
/// holds a zero byte.
pub open spec fn matchmaking_requests(min_count: u32, max_count: u32, query: Option<Seq<u8>>) -> Result<
    Seq<CallView>,
    AdapterError,
> {
    let q = match query {
        Some(q) => q,
        None => any_query(),
    };
    match encoded(q) {
        Ok(bytes) => Ok(
            seq![
                CallView::RegisterMatchmakerMatched,
                CallView::RegisterMatchData,
                CallView::AddMatchmaker { min_count: min_count, max_count: max_count, query: bytes },
            ],
        ),
        Err(e) => Err(e),
    }
}

/// The phase after a matchmaking request: a connected handle whose request
/// was built is matchmaking, and nothing else moves.
pub open spec fn phase_after_request(p: Phase, built: bool) -> Phase {
    if built && p == Phase::Connected {
        Phase::Matchmaking
    } else {
        p
    }
}

/// The bytes of an optional query.
pub open spec fn query_bytes(query: Option<&str>) -> Option<Seq<u8>> {
    match query {
        Some(q) => Some(q.spec_bytes()),
        None => None,
    }
}

impl NakamaRealtimeClient {
    /// Derives a realtime handle from a connection handle. The connection is
    /// left as it was, and has to outlive the handle made here.
    pub fn new(client: &mut NakamaClient, port: u16) -> (r: NakamaRealtimeClient)
        ensures
            final(client)@ == old(client)@,
            r@.port == port,
            r@.phase == Phase::Created,
    {
        NakamaRealtimeClient { port, phase: Phase::Created }
    }

    /// The port that the handle was made with.
    pub fn port(&self) -> (r: u16)
        ensures
            r == self@.port,
    {
        self.port
    }

    /// The phase that the handle is in.
    pub fn phase(&self) -> (r: Phase)
        ensures
            r == self@.phase,
    {
        self.phase
    }

    /// Turns what the transport reports of itself after a pump round into
    /// the callback to deliver, if it is news to this handle. The handle is
    /// not changed: the phase moves when the callback is delivered.
    pub fn connection_event(&self, up: bool) -> (r: Option<RealtimeEvent>)
        ensures
            event_option_view(r) == connection_news(self@.phase, up),
    {
        if up && self.phase == Phase::Connecting {
            Some(RealtimeEvent::Connected)
        } else if !up && self.is_connected() {
            Some(RealtimeEvent::Disconnected)
        } else {
            None
        }
    }

    /// Takes one callback: records it in `store`, moves the phase, and hands
    /// back the request that the callback calls for, if any.
    pub fn deliver(&mut self, event: &RealtimeEvent, store: &mut SharedState) -> (r: Option<
        ForeignCall,
    >)
        ensures
            final(store)@ == realtime_store_after(old(store)@, event@),
            final(self)@.port == old(self)@.port,
            final(self)@.phase == phase_after(old(self)@.phase, event@),
            call_option_view(r) == reaction(event@),
    {
        store.record_realtime_event(event);
        match event {
            RealtimeEvent::Connected => {
                if self.phase == Phase::Connecting {
                    self.phase = Phase::Connected;
                }
                None
            },
            RealtimeEvent::Disconnected => {
                self.phase = Phase::Disconnected;
                None
            },
            RealtimeEvent::MatchJoined { .. } => {
                if self.phase == Phase::Matchmaking {
                    self.phase = Phase::MatchJoined;
                }
                None
            },
            RealtimeEvent::MatchmakerMatched { token } => Some(
                ForeignCall::JoinMatchByToken { token: copy_bytes(token.as_slice()) },
            ),
            _ => None,
        }
    }

    /// Takes the callbacks that one pump round of the realtime loop
    /// delivered, in the order they fired. Each is recorded in `store` and
    /// moves the phase; the requests they call for come back in the same
    /// order. With nothing delivered, nothing changes and nothing comes back.
    pub fn tick(&mut self, delivered: &Vec<RealtimeEvent>, store: &mut SharedState) -> (r: Vec<
        ForeignCall,
    >)
        ensures
            final(store)@ == realtime_store_after_all(old(store)@, realtime_events(delivered@)),
            final(self)@.port == old(self)@.port,
            final(self)@.phase == phase_after_all(old(self)@.phase, realtime_events(delivered@)),
            calls(r@) == reactions(realtime_events(delivered@)),
            final(store)@.inbound == old(store)@.inbound + data_messages(
                realtime_events(delivered@),
            ),
            final(store)@.errors == old(store)@.errors + failure_messages(
                realtime_events(delivered@),
            ),
            final(store)@.session == old(store)@.session,
    {
        proof {
            lemma_inbound_order(old(store)@, realtime_events(delivered@));
            lemma_error_order(old(store)@, realtime_events(delivered@));
            lemma_realtime_events_keep_the_session(old(store)@, realtime_events(delivered@));
        }
        let mut out: Vec<ForeignCall> = Vec::new();
        let mut i: usize = 0;
        proof {
            assert(calls(out@) =~= Seq::empty());
        }
        while i < delivered.len()
            invariant
                i <= delivered.len(),
                store@ == realtime_store_after_all(
                    old(store)@,
                    realtime_events(delivered@).take(i as int),
                ),
                self@.port == old(self)@.port,
                self@.phase == phase_after_all(
                    old(self)@.phase,
                    realtime_events(delivered@).take(i as int),
                ),
                calls(out@) == reactions(realtime_events(delivered@).take(i as int)),
            decreases delivered.len() - i,
        {
            let ghost before = calls(out@);
            let answer = self.deliver(&delivered[i], store);
            proof {
                let evs = realtime_events(delivered@);
                assert(evs.take(i + 1).drop_last() =~= evs.take(i as int));
                assert(evs.take(i + 1).last() == delivered@[i as int]@);
            }
            match answer {
                Some(call) => {
                    out.push(call);
                    proof {
                        assert(calls(out@) =~= before.push(call@));
                    }
                },
                None => {},
            }
            i += 1;
        }
        proof {
            let evs = realtime_events(delivered@);
            assert(evs.take(evs.len() as int) =~= evs);
        }
        out
    }

    /// Builds the connect request for the session in `store` and moves the
    /// handle to `Connecting`. Without a session it fails with
    /// `NotAuthenticated`, builds nothing and leaves the handle as it was.
    pub fn connect(&mut self, store: &SharedState) -> (r: Result<ForeignCall, AdapterError>)
        ensures
            outcome_view(r) == connect_request(store@),
            final(self)@.port == old(self)@.port,
            r is Ok ==> final(self)@.phase == Phase::Connecting,
            r is Err ==> final(self)@.phase == old(self)@.phase,
    {
        match &store.current_session {
            Some(session) => {
                self.phase = Phase::Connecting;
                Ok(ForeignCall::Connect { session: session.duplicate() })
            },
            None => Err(AdapterError::NotAuthenticated),
        }
    }

    /// Whether the transport is up, as far as the callbacks delivered so far
    /// tell. Takes no callback itself.
    pub fn is_connected(&self) -> (r: bool)
        ensures
            r == phase_is_connected(self@.phase),
    {
        match self.phase {
            Phase::Connected | Phase::Matchmaking | Phase::MatchJoined => true,
            _ => false,
        }
    }

    /// Builds the requests that start matchmaking for `min_count` to
    /// `max_count` players. A connected handle moves to `Matchmaking`; in
    /// any other phase, and on failure, the handle stays as it was.
    pub fn match_make(&mut self, min_count: u32, max_count: u32, query: Option<&str>) -> (r: Result<
        Vec<ForeignCall>,
        AdapterError,
    >)
        ensures
            outcomes_view(r) == matchmaking_requests(min_count, max_count, query_bytes(query)),
            final(self)@.port == old(self)@.port,
            final(self)@.phase == phase_after_request(old(self)@.phase, r is Ok),
    {
        let encoded_query = match query {
            Some(q) => encode_c_string(q),
            None => {
                let any: [u8; 1] = [42u8];
                proof {
                    assert(any@ =~= any_query());
                }
                encode_c_bytes(any.as_slice())
            },
        };
        match encoded_query {
            Ok(bytes) => {
                let mut out: Vec<ForeignCall> = Vec::new();
                out.push(ForeignCall::RegisterMatchmakerMatched);
                out.push(ForeignCall::RegisterMatchData);
                out.push(ForeignCall::AddMatchmaker { min_count, max_count, query: bytes });
                if self.phase == Phase::Connected {
                    self.phase = Phase::Matchmaking;
                }
                proof {
                    assert(calls(out@) =~= seq![
                        CallView::RegisterMatchmakerMatched,
                        CallView::RegisterMatchData,
                        CallView::AddMatchmaker {
                            min_count: min_count,
                            max_count: max_count,
                            query: bytes@,
                        },
                    ]);
                }
                Ok(out)
            },
            Err(e) => Err(e),
        }
    }
}

} // verus!
