use vstd::prelude::*;
use crate::encoding::{bytes_list, copy_bytes};
use crate::error::AdapterError;
use crate::event::{
    ClientEvent, ClientEventView, InboundMessage, NakamaSession, RealtimeEvent, RealtimeEventView,
};
use crate::game::{MatchView, NakamaMatch};

verus! {

/// What the callbacks leave behind for the application: the latest session,
/// the match joined last, the messages and the transport errors that wait to
/// be polled, and the logging toggle.
///
/// The store does no locking of its own: a caller that shares it between
/// threads keeps it behind one guard and enters every method through it.
#[derive(Debug)]
pub struct SharedState {
    pub current_session: Option<NakamaSession>,
    pub current_match: Option<NakamaMatch>,
    pub inbound_queue: Vec<InboundMessage>,
    pub errors: Vec<Vec<u8>>,
    pub debug_logs: bool,
}

/// The mathematical value of a `SharedState`.
pub struct StoreView {
    pub session: Option<Seq<u8>>,
    pub current_match: Option<MatchView>,
    pub inbound: Seq<(i64, Seq<u8>)>,
    pub errors: Seq<Seq<u8>>,
    pub debug_logs: bool,
}

/// The store before any callback fired.
pub open spec fn empty_store() -> StoreView {
    StoreView {
        session: None,
        current_match: None,
        inbound: Seq::empty(),
        errors: Seq::empty(),
        debug_logs: false,
    }
}

/// The values of a queue of messages, in order.
pub open spec fn messages(v: Seq<InboundMessage>) -> Seq<(i64, Seq<u8>)> {
    v.map_values(|m: InboundMessage| m@)
}

/// The messages of a list of polled transport errors, in order.
pub open spec fn error_messages(v: Seq<AdapterError>) -> Seq<Seq<u8>> {
    v.map_values(|e: AdapterError| e.message_view())
}

/// The view of an optional session.
pub open spec fn session_view(s: Option<NakamaSession>) -> Option<Seq<u8>> {
    match s {
        Some(s) => Some(s@),
        None => None,
    }
}

/// The view of an optional match.
pub open spec fn match_view(m: Option<NakamaMatch>) -> Option<MatchView> {
    match m {
        Some(m) => Some(m@),
        None => None,
    }
}

impl View for SharedState {
    type V = StoreView;

    open spec fn view(&self) -> StoreView {
        StoreView {
            session: session_view(self.current_session),
            current_match: match_view(self.current_match),
            inbound: messages(self.inbound_queue@),
            errors: bytes_list(self.errors@),
            debug_logs: self.debug_logs,
        }
    }
}

/// The store after one callback of a connection handle: a completed
/// authentication replaces the session, a failure joins the error queue.
pub open spec fn client_store_after(s: StoreView, e: ClientEventView) -> StoreView {
    match e {
        ClientEventView::Authenticated { session } => StoreView { session: Some(session), ..s },
        ClientEventView::Failed { message } => StoreView { errors: s.errors.push(message), ..s },
    }
}

/// The store after one callback of a realtime handle: a completed join
/// replaces the match, data joins the inbound queue, a failure joins the
/// error queue, and the others leave the store as it is.
pub open spec fn realtime_store_after(s: StoreView, e: RealtimeEventView) -> StoreView {
    match e {
        RealtimeEventView::MatchJoined { joined } => StoreView { current_match: Some(joined), ..s },
        RealtimeEventView::MatchData { opcode, payload } => StoreView {
            inbound: s.inbound.push((opcode, payload)),
            ..s
        },
        RealtimeEventView::Failed { message } => StoreView { errors: s.errors.push(message), ..s },
        _ => s,
    }
}

/// The store after the callbacks `evs`, taken in the order they fired.
pub open spec fn client_store_after_all(s: StoreView, evs: Seq<ClientEventView>) -> StoreView
    decreases evs.len(),
{
    if evs.len() == 0 {
        s
    } else {
        client_store_after(client_store_after_all(s, evs.drop_last()), evs.last())
    }
}

/// The store after the callbacks `evs`, taken in the order they fired.
pub open spec fn realtime_store_after_all(s: StoreView, evs: Seq<RealtimeEventView>) -> StoreView
    decreases evs.len(),
{
    if evs.len() == 0 {
        s
    } else {
        realtime_store_after(realtime_store_after_all(s, evs.drop_last()), evs.last())
    }
}

impl SharedState {
    /// A store with nothing in it.
    pub fn new() -> (r: SharedState)
        ensures
            r@ == empty_store(),
    {
        let r = SharedState {
            current_session: None,
            current_match: None,
            inbound_queue: Vec::new(),
            errors: Vec::new(),
            debug_logs: false,
        };
        proof {
            assert(r@.inbound =~= Seq::empty());
            assert(r@.errors =~= Seq::empty());
        }
        r
    }

    /// Whether a session is present.
    pub fn has_session(&self) -> (r: bool)
        ensures
            r == (self@.session is Some),
    {
        self.current_session.is_some()
    }

    /// Whether a match descriptor is present.
    pub fn has_match(&self) -> (r: bool)
        ensures
            r == (self@.current_match is Some),
    {
        self.current_match.is_some()
    }

    /// Records one callback of a connection handle. What the event holds is
    /// copied: nothing of the event is kept.
    pub fn record_client_event(&mut self, event: &ClientEvent)
        ensures
            final(self)@ == client_store_after(old(self)@, event@),
    {
        match event {
            ClientEvent::Authenticated { session } => {
                self.current_session = Some(session.duplicate());
            },
            ClientEvent::Failed { message } => {
                let copy = copy_bytes(message.as_slice());
                self.errors.push(copy);
                proof {
                    assert(bytes_list(self.errors@) =~= bytes_list(old(self).errors@).push(
                        message@,
                    ));
                }
            },
        }
    }

    /// Records one callback of a realtime handle. What the event holds is
    /// copied: nothing of the event is kept.
    pub fn record_realtime_event(&mut self, event: &RealtimeEvent)
        ensures
            final(self)@ == realtime_store_after(old(self)@, event@),
    {
        match event {
            RealtimeEvent::MatchJoined { joined } => {
                self.current_match = Some(joined.duplicate());
            },
            RealtimeEvent::MatchData { opcode, payload } => {
                let message = InboundMessage {
                    opcode: *opcode,
                    payload: copy_bytes(payload.as_slice()),
                };
                self.inbound_queue.push(message);
                proof {
                    assert(messages(self.inbound_queue@) =~= messages(
                        old(self).inbound_queue@,
                    ).push((*opcode, payload@)));
                }
            },
            RealtimeEvent::Failed { message } => {
                let copy = copy_bytes(message.as_slice());
                self.errors.push(copy);
                proof {
                    assert(bytes_list(self.errors@) =~= bytes_list(old(self).errors@).push(
                        message@,
                    ));
                }
            },
            _ => {},
        }
    }

    /// Hands out every waiting message, oldest first, and leaves the queue
    /// empty.
    pub fn poll_inbound_messages(&mut self) -> (r: Vec<InboundMessage>)
        ensures
            messages(r@) == old(self)@.inbound,
            final(self)@ == (StoreView { inbound: Seq::empty(), ..old(self)@ }),
    {
        let mut out: Vec<InboundMessage> = Vec::new();
        core::mem::swap(&mut self.inbound_queue, &mut out);
        proof {
            assert(self@.inbound =~= Seq::empty());
        }
        out
    }

    /// Hands out every waiting transport error, oldest first, and leaves the
    /// error queue empty.
    pub fn poll_errors(&mut self) -> (r: Vec<AdapterError>)
        ensures
            error_messages(r@) == old(self)@.errors,
            forall|i: int| 0 <= i < r@.len() ==> r@[i] is TransportError,
            final(self)@ == (StoreView { errors: Seq::empty(), ..old(self)@ }),
    {
        let mut taken: Vec<Vec<u8>> = Vec::new();
        core::mem::swap(&mut self.errors, &mut taken);
        proof {
            assert(self@.errors =~= Seq::empty());
        }
        let mut out: Vec<AdapterError> = Vec::new();
        let mut i: usize = 0;
        while i < taken.len()
            invariant
                i <= taken.len(),
                error_messages(out@) == bytes_list(taken@).take(i as int),
                forall|j: int| 0 <= j < out@.len() ==> out@[j] is TransportError,
            decreases taken.len() - i,
        {
            let ghost before = out@;
            let message = copy_bytes(taken[i].as_slice());
            out.push(AdapterError::TransportError { message });
            proof {
                assert(error_messages(out@) =~= error_messages(before).push(taken@[i as int]@));
                assert(bytes_list(taken@).take(i + 1) =~= bytes_list(taken@).take(i as int).push(
                    taken@[i as int]@,
                ));
            }
            i += 1;
        }
        proof {
            assert(bytes_list(taken@).take(taken@.len() as int) =~= bytes_list(taken@));
        }
        out
    }
}

} // verus!
