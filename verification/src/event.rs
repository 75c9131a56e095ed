use vstd::prelude::*;
use crate::encoding::{bytes_list, copy_bytes};
use crate::game::{MatchView, NakamaMatch};

verus! {

/// The credential that the backend issued: an opaque token.
#[derive(Debug, Clone, PartialEq, Eq)]
pub struct NakamaSession {
    pub session: Vec<u8>,
}

impl View for NakamaSession {
    type V = Seq<u8>;

    open spec fn view(&self) -> Seq<u8> {
        self.session@
    }
}

impl NakamaSession {
    /// An owned copy of this session.
    pub fn duplicate(&self) -> (r: NakamaSession)
        ensures
            r@ == self@,
    {
        NakamaSession { session: copy_bytes(self.session.as_slice()) }
    }
}

/// One message received from a match: its operation code and its payload.
#[derive(Debug, Clone, PartialEq, Eq)]
pub struct InboundMessage {
    pub opcode: i64,
    pub payload: Vec<u8>,
}

impl View for InboundMessage {
    type V = (i64, Seq<u8>);

    open spec fn view(&self) -> (i64, Seq<u8>) {
        (self.opcode, self.payload@)
    }
}

/// A callback that the engine fires while a connection handle is pumped.
#[derive(Debug, Clone, PartialEq, Eq)]
pub enum ClientEvent {
    /// Authentication completed with this session.
    Authenticated { session: NakamaSession },
    /// A request on the connection failed.
    Failed { message: Vec<u8> },
}

/// The mathematical value of a `ClientEvent`.
pub enum ClientEventView {
    Authenticated { session: Seq<u8> },
    Failed { message: Seq<u8> },
}

impl View for ClientEvent {
    type V = ClientEventView;

    open spec fn view(&self) -> ClientEventView {
        match self {
            ClientEvent::Authenticated { session } => ClientEventView::Authenticated {
                session: session@,
            },
            ClientEvent::Failed { message } => ClientEventView::Failed { message: message@ },
        }
    }
}

/// A callback that the engine fires while a realtime handle is pumped.
#[derive(Debug, Clone, PartialEq, Eq)]
pub enum RealtimeEvent {
    /// The transport finished connecting.
    Connected,
    /// The transport lost or closed its connection.
    Disconnected,
    /// A realtime request failed (connection, matchmaking or join).
    Failed { message: Vec<u8> },
    /// A matchmaking ticket was matched; `token` admits to the match.
    MatchmakerMatched { token: Vec<u8> },
    /// A join request completed.
    MatchJoined { joined: NakamaMatch },
    /// Another participant sent data.
    MatchData { opcode: i64, payload: Vec<u8> },
}

/// The mathematical value of a `RealtimeEvent`.
pub enum RealtimeEventView {
    Connected,
    Disconnected,
    Failed { message: Seq<u8> },
    MatchmakerMatched { token: Seq<u8> },
    MatchJoined { joined: MatchView },
    MatchData { opcode: i64, payload: Seq<u8> },
}

impl View for RealtimeEvent {
    type V = RealtimeEventView;

    open spec fn view(&self) -> RealtimeEventView {
        match self {
            RealtimeEvent::Connected => RealtimeEventView::Connected,
            RealtimeEvent::Disconnected => RealtimeEventView::Disconnected,
            RealtimeEvent::Failed { message } => RealtimeEventView::Failed { message: message@ },
            RealtimeEvent::MatchmakerMatched { token } => RealtimeEventView::MatchmakerMatched {
                token: token@,
            },
            RealtimeEvent::MatchJoined { joined } => RealtimeEventView::MatchJoined {
                joined: joined@,
            },
            RealtimeEvent::MatchData { opcode, payload } => RealtimeEventView::MatchData {
                opcode: *opcode,
                payload: payload@,
            },
        }
    }
}

/// The values of a list of connection events, in order.
pub open spec fn client_events(v: Seq<ClientEvent>) -> Seq<ClientEventView> {
    v.map_values(|e: ClientEvent| e@)
}

/// The values of a list of realtime events, in order.
pub open spec fn realtime_events(v: Seq<RealtimeEvent>) -> Seq<RealtimeEventView> {
    v.map_values(|e: RealtimeEvent| e@)
}

/// A request that the caller is to hand to the engine. Every byte string in
/// it that stands for text is null-terminated, but for `token` and `session`,
/// which go back to the engine as they came from it.
#[derive(Debug, Clone, PartialEq, Eq)]
pub enum ForeignCall {
    /// Switch the engine's console logging to debug level.
    EnableDebugLogs,
    /// Authenticate by email, creating the account where it is missing.
    AuthenticateEmail { email: Vec<u8>, password: Vec<u8>, username: Vec<u8> },
    /// Open the realtime transport with this session.
    Connect { session: NakamaSession },
    /// Register the callback for matched tickets.
    RegisterMatchmakerMatched,
    /// Register the callback for inbound match data.
    RegisterMatchData,
    /// Submit a matchmaking request, with no property filters.
    AddMatchmaker { min_count: u32, max_count: u32, query: Vec<u8> },
    /// Join the match that a matched ticket admits to.
    JoinMatchByToken { token: Vec<u8> },
    /// Send `payload` to the participants in `presences`; to all of the
    /// match where that list is empty.
    SendMatchData { match_id: Vec<u8>, opcode: i64, payload: Vec<u8>, presences: Vec<Vec<u8>> },
}

/// The mathematical value of a `ForeignCall`.
pub enum CallView {
    EnableDebugLogs,
    AuthenticateEmail { email: Seq<u8>, password: Seq<u8>, username: Seq<u8> },
    Connect { session: Seq<u8> },
    RegisterMatchmakerMatched,
    RegisterMatchData,
    AddMatchmaker { min_count: u32, max_count: u32, query: Seq<u8> },
    JoinMatchByToken { token: Seq<u8> },
    SendMatchData { match_id: Seq<u8>, opcode: i64, payload: Seq<u8>, presences: Seq<Seq<u8>> },
}

impl View for ForeignCall {
    type V = CallView;

    open spec fn view(&self) -> CallView {
        match self {
            ForeignCall::EnableDebugLogs => CallView::EnableDebugLogs,
            ForeignCall::AuthenticateEmail { email, password, username } => {
                CallView::AuthenticateEmail {
                    email: email@,
                    password: password@,
                    username: username@,
                }
            },
            ForeignCall::Connect { session } => CallView::Connect { session: session@ },
            ForeignCall::RegisterMatchmakerMatched => CallView::RegisterMatchmakerMatched,
            ForeignCall::RegisterMatchData => CallView::RegisterMatchData,
            ForeignCall::AddMatchmaker { min_count, max_count, query } => CallView::AddMatchmaker {
                min_count: *min_count,
                max_count: *max_count,
                query: query@,
            },
            ForeignCall::JoinMatchByToken { token } => CallView::JoinMatchByToken {
                token: token@,
            },
            ForeignCall::SendMatchData { match_id, opcode, payload, presences } => {
                CallView::SendMatchData {
                    match_id: match_id@,
                    opcode: *opcode,
                    payload: payload@,
                    presences: bytes_list(presences@),
                }
            },
        }
    }
}

/// The values of a list of calls, in order.
pub open spec fn calls(v: Seq<ForeignCall>) -> Seq<CallView> {
    v.map_values(|c: ForeignCall| c@)
}

/// The view of an optional call.
pub open spec fn call_option_view(r: Option<ForeignCall>) -> Option<CallView> {
    match r {
        Some(c) => Some(c@),
        None => None,
    }
}

/// The view of an optional realtime event.
pub open spec fn event_option_view(r: Option<RealtimeEvent>) -> Option<RealtimeEventView> {
    match r {
        Some(e) => Some(e@),
        None => None,
    }
}

/// The view of a call or an error.
pub open spec fn outcome_view<E>(r: Result<ForeignCall, E>) -> Result<CallView, E> {
    match r {
        Ok(c) => Ok(c@),
        Err(e) => Err(e),
    }
}

/// The view of a list of calls or an error.
pub open spec fn outcomes_view<E>(r: Result<Vec<ForeignCall>, E>) -> Result<Seq<CallView>, E> {
    match r {
        Ok(v) => Ok(calls(v@)),
        Err(e) => Err(e),
    }
}

} // verus!
