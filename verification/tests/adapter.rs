use nakama_adapter::{
    auth_email, contains_nul, copy_bytes, copy_bytes_list, enable_debug_logs, encode_c_bytes,
    encode_c_string, AdapterError, ClientEvent, ForeignCall, InboundMessage, NakamaClient,
    NakamaMatch, NakamaRealtimeClient, NakamaSession, Phase, RealtimeEvent, SharedState,
};

fn session(token: &str) -> NakamaSession {
    NakamaSession { session: token.as_bytes().to_vec() }
}

fn descriptor(id: &str, count: u16) -> NakamaMatch {
    let mut presences = Vec::new();
    for i in 0..count {
        presences.push(format!("user-{}", i).into_bytes());
    }
    NakamaMatch { match_id: id.as_bytes().to_vec(), presences, presences_count: count }
}

fn data(opcode: i64, payload: &[u8]) -> RealtimeEvent {
    RealtimeEvent::MatchData { opcode, payload: payload.to_vec() }
}

fn connected_pair() -> (NakamaClient, NakamaRealtimeClient, SharedState) {
    let mut store = SharedState::new();
    let mut client = NakamaClient::new("defaultkey", "127.0.0.1", 7350, false).unwrap();
    client.tick(&vec![ClientEvent::Authenticated { session: session("s") }], &mut store);
    let mut rt = NakamaRealtimeClient::new(&mut client, 7351);
    rt.connect(&store).unwrap();
    rt.tick(&vec![RealtimeEvent::Connected], &mut store);
    (client, rt, store)
}

#[test]
fn it_works() {
    let mut store = SharedState::new();
    assert_eq!(enable_debug_logs(&mut store), ForeignCall::EnableDebugLogs);
    let mut client = NakamaClient::new("defaultkey", "127.0.0.1", 7350, false).unwrap();
    let idle: Vec<ClientEvent> = Vec::new();
    for _ in 0..7 {
        client.tick(&idle, &mut store);
    }
    assert!(store.current_session.is_none());
    let request =
        auth_email(&mut client, "email@example.com", "3bc8f72e95a9aaa", "mycustomusername")
            .unwrap();
    assert_eq!(
        request,
        ForeignCall::AuthenticateEmail {
            email: b"email@example.com\0".to_vec(),
            password: b"3bc8f72e95a9aaa\0".to_vec(),
            username: b"mycustomusername\0".to_vec(),
        }
    );
    client.tick(&idle, &mut store);
    client.tick(&idle, &mut store);
    client.tick(&vec![ClientEvent::Authenticated { session: session("issued") }], &mut store);
    client.tick(&idle, &mut store);
    client.tick(&idle, &mut store);
    assert!(store.current_session.is_some());
    assert_eq!(2 + 2, 4);
}

#[test]
fn valid_parameters_make_a_handle() {
    for (key, host, port, tls) in [
        ("defaultkey", "127.0.0.1", 7350u16, false),
        ("", "", 0u16, true),
        ("k\u{e9}y", "h\u{f6}st.example", 65535u16, true),
    ] {
        let client = NakamaClient::new(key, host, port, tls).unwrap();
        let mut expected_key = key.as_bytes().to_vec();
        expected_key.push(0);
        let mut expected_host = host.as_bytes().to_vec();
        expected_host.push(0);
        assert_eq!(client.server_key(), &expected_key);
        assert_eq!(client.host(), &expected_host);
        assert_eq!(client.port(), port);
        assert_eq!(client.ssl(), tls);
    }
}

#[test]
fn three_idle_ticks_leave_everything_as_it_was() {
    let mut store = SharedState::new();
    let mut client = NakamaClient::new("key1", "example.org", 7350, false).unwrap();
    let idle: Vec<ClientEvent> = Vec::new();
    for _ in 0..3 {
        client.tick(&idle, &mut store);
    }
    assert!(store.current_session.is_none());
    assert!(store.current_match.is_none());
    assert!(store.inbound_queue.is_empty());
    assert!(store.errors.is_empty());
    assert!(!store.debug_logs);
    assert_eq!(client.server_key(), &b"key1\0".to_vec());
    assert_eq!(client.host(), &b"example.org\0".to_vec());
    assert_eq!(client.port(), 7350);
    assert!(!client.ssl());
}

#[test]
fn idle_realtime_ticks_call_for_nothing() {
    let mut store = SharedState::new();
    let mut client = NakamaClient::new("key1", "example.org", 7350, false).unwrap();
    let mut rt = NakamaRealtimeClient::new(&mut client, 7351);
    assert_eq!(rt.port(), 7351);
    let idle: Vec<RealtimeEvent> = Vec::new();
    for _ in 0..5 {
        assert!(rt.tick(&idle, &mut store).is_empty());
    }
    assert_eq!(rt.phase(), Phase::Created);
    assert!(!rt.is_connected());
    assert!(store.inbound_queue.is_empty());
}

#[test]
fn authentication_fills_the_session_and_connect_succeeds() {
    let mut store = SharedState::new();
    let mut client = NakamaClient::new("defaultkey", "127.0.0.1", 7350, false).unwrap();
    let mut rt = NakamaRealtimeClient::new(&mut client, 7351);
    assert!(!store.has_session());
    client.tick(&vec![ClientEvent::Authenticated { session: session("token-1") }], &mut store);
    assert!(store.has_session());
    assert_eq!(store.current_session, Some(session("token-1")));
    let call = rt.connect(&store);
    assert_eq!(call, Ok(ForeignCall::Connect { session: session("token-1") }));
    assert_eq!(rt.phase(), Phase::Connecting);
}

#[test]
fn a_later_authentication_replaces_the_session() {
    let mut store = SharedState::new();
    let mut client = NakamaClient::new("defaultkey", "127.0.0.1", 7350, false).unwrap();
    client.tick(
        &vec![
            ClientEvent::Authenticated { session: session("first") },
            ClientEvent::Authenticated { session: session("second") },
        ],
        &mut store,
    );
    assert_eq!(store.current_session, Some(session("second")));
    let mut rt = NakamaRealtimeClient::new(&mut client, 7351);
    assert_eq!(rt.connect(&store), Ok(ForeignCall::Connect { session: session("second") }));
}

#[test]
fn connect_without_a_session_is_refused() {
    let mut store = SharedState::new();
    let mut client = NakamaClient::new("defaultkey", "127.0.0.1", 7350, false).unwrap();
    let mut rt = NakamaRealtimeClient::new(&mut client, 7351);
    assert_eq!(rt.connect(&store), Err(AdapterError::NotAuthenticated));
    assert_eq!(rt.phase(), Phase::Created);
    rt.tick(&vec![data(1, b"x"), RealtimeEvent::Failed { message: b"boom".to_vec() }], &mut store);
    assert_eq!(rt.connect(&store), Err(AdapterError::NotAuthenticated));
    assert_eq!(rt.phase(), Phase::Created);
    assert!(!rt.is_connected());
}

#[test]
fn payloads_survive_a_loopback_round_trip() {
    let payloads: Vec<Vec<u8>> = vec![
        Vec::new(),
        vec![0],
        vec![0, 0, 0],
        b"hello".to_vec(),
        (0..=255u8).collect(),
        vec![7; 5000],
    ];
    let opcodes: [i64; 5] = [0, 1, -1, i64::MAX, i64::MIN];
    let mut sender = descriptor("match-abc", 2);
    let (_client, mut rt, mut store) = connected_pair();
    for payload in payloads.iter() {
        for opcode in opcodes.iter() {
            let call = sender.send_data(*opcode, payload.clone()).unwrap();
            let echoed = match call {
                ForeignCall::SendMatchData { match_id, opcode, payload, presences } => {
                    assert_eq!(match_id, b"match-abc\0".to_vec());
                    assert!(presences.is_empty());
                    RealtimeEvent::MatchData { opcode, payload }
                }
                other => panic!("unexpected request {:?}", other),
            };
            let answers = rt.tick(&vec![echoed], &mut store);
            assert!(answers.is_empty());
            let polled = store.poll_inbound_messages();
            assert_eq!(polled, vec![InboundMessage { opcode: *opcode, payload: payload.clone() }]);
        }
    }
    assert_eq!(sender, descriptor("match-abc", 2));
}

#[test]
fn inbound_messages_keep_their_order() {
    let (_client, mut rt, mut store) = connected_pair();
    rt.tick(
        &vec![
            data(3, b"c"),
            RealtimeEvent::Failed { message: b"lost".to_vec() },
            data(1, b"a"),
            RealtimeEvent::MatchmakerMatched { token: b"t".to_vec() },
            data(2, b"b"),
        ],
        &mut store,
    );
    rt.tick(&Vec::new(), &mut store);
    rt.tick(&vec![data(1, b"a"), data(9, b"")], &mut store);
    let polled = store.poll_inbound_messages();
    let expected = vec![
        InboundMessage { opcode: 3, payload: b"c".to_vec() },
        InboundMessage { opcode: 1, payload: b"a".to_vec() },
        InboundMessage { opcode: 2, payload: b"b".to_vec() },
        InboundMessage { opcode: 1, payload: b"a".to_vec() },
        InboundMessage { opcode: 9, payload: Vec::new() },
    ];
    assert_eq!(polled, expected);
}

#[test]
fn polling_drains_the_queue() {
    let (_client, mut rt, mut store) = connected_pair();
    rt.tick(&vec![data(5, b"one"), data(6, b"two")], &mut store);
    assert_eq!(store.poll_inbound_messages().len(), 2);
    assert!(store.poll_inbound_messages().is_empty());
    assert!(store.inbound_queue.is_empty());
    assert!(store.has_session());
    rt.tick(&vec![data(7, b"three")], &mut store);
    assert_eq!(
        store.poll_inbound_messages(),
        vec![InboundMessage { opcode: 7, payload: b"three".to_vec() }]
    );
}

#[test]
fn an_embedded_terminator_is_refused_at_creation() {
    assert_eq!(
        NakamaClient::new("key\0one", "example.org", 7350, false).err(),
        Some(AdapterError::InvalidParameter)
    );
    assert_eq!(
        NakamaClient::new("key1", "exa\0mple.org", 7350, false).err(),
        Some(AdapterError::InvalidParameter)
    );
    assert_eq!(
        NakamaClient::new("\0", "\0", 7350, true).err(),
        Some(AdapterError::InvalidParameter)
    );
    assert_eq!(
        NakamaClient::new("key1", "example.org\0", 7350, false).err(),
        Some(AdapterError::InvalidParameter)
    );
}

#[test]
fn an_embedded_terminator_is_refused_at_authentication() {
    let mut client = NakamaClient::new("key1", "example.org", 7350, false).unwrap();
    assert_eq!(
        auth_email(&mut client, "a\0b@example.com", "pw", "name"),
        Err(AdapterError::InvalidParameter)
    );
    assert_eq!(
        auth_email(&mut client, "a@example.com", "p\0w", "name"),
        Err(AdapterError::InvalidParameter)
    );
    assert_eq!(
        auth_email(&mut client, "a@example.com", "pw", "na\0me"),
        Err(AdapterError::InvalidParameter)
    );
    assert_eq!(
        auth_email(&mut client, "a@example.com", "pw", "name"),
        Ok(ForeignCall::AuthenticateEmail {
            email: b"a@example.com\0".to_vec(),
            password: b"pw\0".to_vec(),
            username: b"name\0".to_vec(),
        })
    );
    assert_eq!(client.server_key(), &b"key1\0".to_vec());
}

#[test]
fn a_matched_ticket_is_joined_with_its_token() {
    let (_client, mut rt, mut store) = connected_pair();
    rt.match_make(2, 2, None).unwrap();
    let event = RealtimeEvent::MatchmakerMatched { token: b"tok-123".to_vec() };
    let answer = rt.deliver(&event, &mut store);
    assert_eq!(answer, Some(ForeignCall::JoinMatchByToken { token: b"tok-123".to_vec() }));
    assert_eq!(rt.phase(), Phase::Matchmaking);
    assert!(store.current_match.is_none());
    let answers = rt.tick(
        &vec![
            data(1, b"x"),
            RealtimeEvent::MatchmakerMatched { token: b"tok-123".to_vec() },
            RealtimeEvent::MatchmakerMatched { token: b"tok-456".to_vec() },
        ],
        &mut store,
    );
    assert_eq!(
        answers,
        vec![
            ForeignCall::JoinMatchByToken { token: b"tok-123".to_vec() },
            ForeignCall::JoinMatchByToken { token: b"tok-456".to_vec() },
        ]
    );
}

#[test]
fn a_completed_join_replaces_the_match() {
    let (_client, mut rt, mut store) = connected_pair();
    rt.match_make(2, 4, None).unwrap();
    rt.tick(&vec![RealtimeEvent::MatchJoined { joined: descriptor("match-old", 2) }], &mut store);
    assert_eq!(store.current_match, Some(descriptor("match-old", 2)));
    assert!(store.has_match());
    let answers = rt.tick(
        &vec![RealtimeEvent::MatchJoined { joined: descriptor("match-abc", 4) }],
        &mut store,
    );
    assert!(answers.is_empty());
    let current = store.current_match.clone().unwrap();
    assert_eq!(current.match_id, b"match-abc".to_vec());
    assert_eq!(current.presences_count, 4);
    assert_eq!(current.presences.len(), 4);
    assert_eq!(current, descriptor("match-abc", 4));
    assert_eq!(rt.phase(), Phase::MatchJoined);
}

#[test]
fn the_handle_walks_through_its_phases() {
    let mut store = SharedState::new();
    let mut client = NakamaClient::new("defaultkey", "127.0.0.1", 7350, false).unwrap();
    let mut rt = NakamaRealtimeClient::new(&mut client, 7351);
    assert_eq!(rt.phase(), Phase::Created);
    rt.tick(&vec![RealtimeEvent::Connected], &mut store);
    assert_eq!(rt.phase(), Phase::Created);
    client.tick(&vec![ClientEvent::Authenticated { session: session("s") }], &mut store);
    rt.connect(&store).unwrap();
    assert_eq!(rt.phase(), Phase::Connecting);
    assert!(!rt.is_connected());
    rt.tick(&Vec::new(), &mut store);
    assert_eq!(rt.phase(), Phase::Connecting);
    rt.tick(&vec![RealtimeEvent::MatchJoined { joined: descriptor("early", 1) }], &mut store);
    assert_eq!(rt.phase(), Phase::Connecting);
    rt.tick(&vec![RealtimeEvent::Connected], &mut store);
    assert_eq!(rt.phase(), Phase::Connected);
    assert!(rt.is_connected());
    rt.match_make(2, 2, Some("*")).unwrap();
    assert_eq!(rt.phase(), Phase::Matchmaking);
    assert!(rt.is_connected());
    rt.tick(&vec![RealtimeEvent::MatchmakerMatched { token: b"t".to_vec() }], &mut store);
    assert_eq!(rt.phase(), Phase::Matchmaking);
    rt.tick(&vec![RealtimeEvent::MatchJoined { joined: descriptor("m", 2) }], &mut store);
    assert_eq!(rt.phase(), Phase::MatchJoined);
    assert!(rt.is_connected());
    rt.tick(&vec![data(1, b"x"), RealtimeEvent::Failed { message: b"e".to_vec() }], &mut store);
    assert_eq!(rt.phase(), Phase::MatchJoined);
    rt.tick(&vec![RealtimeEvent::Disconnected], &mut store);
    assert_eq!(rt.phase(), Phase::Disconnected);
    assert!(!rt.is_connected());
    assert_eq!(rt.port(), 7351);
}

#[test]
fn matchmaking_builds_its_three_requests() {
    let (_client, mut rt, _store) = connected_pair();
    assert_eq!(
        rt.match_make(2, 2, None),
        Ok(vec![
            ForeignCall::RegisterMatchmakerMatched,
            ForeignCall::RegisterMatchData,
            ForeignCall::AddMatchmaker { min_count: 2, max_count: 2, query: b"*\0".to_vec() },
        ])
    );
    assert_eq!(
        rt.match_make(3, 8, Some("+region:eu")),
        Ok(vec![
            ForeignCall::RegisterMatchmakerMatched,
            ForeignCall::RegisterMatchData,
            ForeignCall::AddMatchmaker {
                min_count: 3,
                max_count: 8,
                query: b"+region:eu\0".to_vec(),
            },
        ])
    );
}

#[test]
fn matchmaking_refuses_a_query_with_a_terminator() {
    let (_client, mut rt, _store) = connected_pair();
    assert_eq!(rt.match_make(2, 2, Some("a\0b")), Err(AdapterError::InvalidParameter));
    assert_eq!(rt.phase(), Phase::Connected);
}

#[test]
fn matchmaking_before_connecting_keeps_the_phase() {
    let mut client = NakamaClient::new("defaultkey", "127.0.0.1", 7350, false).unwrap();
    let mut rt = NakamaRealtimeClient::new(&mut client, 7351);
    assert!(rt.match_make(2, 2, None).is_ok());
    assert_eq!(rt.phase(), Phase::Created);
    assert!(!rt.is_connected());
}

#[test]
fn transport_errors_wait_to_be_polled() {
    let mut store = SharedState::new();
    let mut client = NakamaClient::new("defaultkey", "127.0.0.1", 7350, false).unwrap();
    client.tick(&vec![ClientEvent::Failed { message: b"bad password".to_vec() }], &mut store);
    assert!(!store.has_session());
    let mut rt = NakamaRealtimeClient::new(&mut client, 7351);
    rt.tick(
        &vec![
            RealtimeEvent::Failed { message: b"socket closed".to_vec() },
            RealtimeEvent::Failed { message: Vec::new() },
        ],
        &mut store,
    );
    let errors = store.poll_errors();
    assert_eq!(
        errors,
        vec![
            AdapterError::TransportError { message: b"bad password".to_vec() },
            AdapterError::TransportError { message: b"socket closed".to_vec() },
            AdapterError::TransportError { message: Vec::new() },
        ]
    );
    assert!(errors.iter().all(|e| e.is_transport()));
    assert!(!AdapterError::InvalidParameter.is_transport());
    assert!(!AdapterError::NotAuthenticated.is_transport());
    assert!(!AdapterError::ResourceExhausted.is_transport());
    assert!(store.poll_errors().is_empty());
}

#[test]
fn debug_logging_is_switched_on_once_and_for_all() {
    let mut store = SharedState::new();
    assert!(!store.debug_logs);
    assert_eq!(enable_debug_logs(&mut store), ForeignCall::EnableDebugLogs);
    assert!(store.debug_logs);
    assert_eq!(enable_debug_logs(&mut store), ForeignCall::EnableDebugLogs);
    assert!(store.debug_logs);
    assert!(store.current_session.is_none());
    assert!(store.inbound_queue.is_empty());
}

#[test]
fn sending_refuses_a_match_id_with_a_terminator() {
    let mut broken = NakamaMatch {
        match_id: b"match\0abc".to_vec(),
        presences: Vec::new(),
        presences_count: 0,
    };
    assert_eq!(broken.send_data(1, b"x".to_vec()), Err(AdapterError::InvalidParameter));
    assert_eq!(broken.match_id, b"match\0abc".to_vec());
}

#[test]
fn encoding_appends_one_terminator() {
    assert_eq!(encode_c_bytes(b""), Ok(vec![0]));
    assert_eq!(encode_c_bytes(b"abc"), Ok(vec![97, 98, 99, 0]));
    assert_eq!(encode_c_bytes(&[255, 1]), Ok(vec![255, 1, 0]));
    assert_eq!(encode_c_bytes(&[0]), Err(AdapterError::InvalidParameter));
    assert_eq!(encode_c_bytes(&[1, 2, 0]), Err(AdapterError::InvalidParameter));
    assert_eq!(encode_c_string("key1"), Ok(b"key1\0".to_vec()));
    assert_eq!(encode_c_string("\u{e9}"), Ok(vec![0xc3, 0xa9, 0]));
    assert_eq!(encode_c_string("a\0"), Err(AdapterError::InvalidParameter));
}

#[test]
fn zero_bytes_are_found_wherever_they_stand() {
    assert!(!contains_nul(b""));
    assert!(!contains_nul(b"abc"));
    assert!(contains_nul(&[0]));
    assert!(contains_nul(&[0, 1, 2]));
    assert!(contains_nul(&[1, 0, 2]));
    assert!(contains_nul(&[1, 2, 0]));
}

#[test]
fn copies_hold_the_same_bytes() {
    assert_eq!(copy_bytes(b""), Vec::<u8>::new());
    assert_eq!(copy_bytes(&[3, 0, 255]), vec![3, 0, 255]);
    let list = vec![b"a".to_vec(), Vec::new(), b"bcd".to_vec()];
    assert_eq!(copy_bytes_list(&list), list);
    assert_eq!(copy_bytes_list(&Vec::new()), Vec::<Vec<u8>>::new());
    assert_eq!(session("abc").duplicate(), session("abc"));
    assert_eq!(descriptor("m", 3).duplicate(), descriptor("m", 3));
}

#[test]
fn events_are_copied_not_kept() {
    let (_client, mut rt, mut store) = connected_pair();
    let events = vec![data(4, b"payload"), RealtimeEvent::MatchJoined { joined: descriptor("m", 1) }];
    rt.tick(&events, &mut store);
    assert_eq!(events[0], data(4, b"payload"));
    assert_eq!(events[1], RealtimeEvent::MatchJoined { joined: descriptor("m", 1) });
    assert_eq!(store.inbound_queue, vec![InboundMessage { opcode: 4, payload: b"payload".to_vec() }]);
}

#[test]
fn the_transport_is_news_only_when_it_changes() {
    let mut store = SharedState::new();
    let mut client = NakamaClient::new("defaultkey", "127.0.0.1", 7350, false).unwrap();
    let mut rt = NakamaRealtimeClient::new(&mut client, 7351);
    assert_eq!(rt.connection_event(false), None);
    assert_eq!(rt.connection_event(true), None);
    client.tick(&vec![ClientEvent::Authenticated { session: session("s") }], &mut store);
    rt.connect(&store).unwrap();
    assert_eq!(rt.connection_event(false), None);
    assert_eq!(rt.connection_event(true), Some(RealtimeEvent::Connected));
    assert_eq!(rt.phase(), Phase::Connecting);
    rt.tick(&vec![RealtimeEvent::Connected], &mut store);
    assert_eq!(rt.connection_event(true), None);
    assert_eq!(rt.connection_event(false), Some(RealtimeEvent::Disconnected));
    rt.match_make(2, 2, None).unwrap();
    assert_eq!(rt.connection_event(true), None);
    assert_eq!(rt.connection_event(false), Some(RealtimeEvent::Disconnected));
    rt.tick(&vec![RealtimeEvent::Disconnected], &mut store);
    assert_eq!(rt.connection_event(false), None);
    assert_eq!(rt.connection_event(true), None);
}
