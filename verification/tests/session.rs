use stratum_relay::message::Classification;
use stratum_relay::session::{
    Direction, Endpoint, RelayPump, Session, SessionAction, SessionEvent, TerminationCause,
};

#[test]
fn forwarding_is_byte_exact() {
    let mut p = RelayPump::new(1024);
    let cases: Vec<Vec<u8>> = vec![
        b"{\"method\":\"mining.subscribe\",\"params\":[]}\n".to_vec(),
        b"half a fra".to_vec(),
        vec![0xff, 0x00, 0xfe, 0x0a, 0x80],
        vec![],
    ];
    for chunk in cases {
        let out = p.on_read(chunk.clone());
        assert_eq!(out.forward, chunk);
        assert!(!out.overflow);
    }
}

#[test]
fn pump_classifies_completed_frames() {
    let mut p = RelayPump::new(1024);
    let out = p.on_read(b"{\"method\":\"mining.ping\"}\n{\"method\":\"mining.set_difficulty\",\"params\":[2]}\npartial".to_vec());
    assert_eq!(out.events.len(), 2);
    assert_eq!(out.events[0].frame, b"{\"method\":\"mining.ping\"}".to_vec());
    assert_eq!(
        out.events[0].classified,
        Classification::Unparsed { method: Some("mining.ping".to_string()) }
    );
    assert!(matches!(out.events[1].classified, Classification::Decoded(_)));
    // an unrecognized method never halts classification of later frames
    let out = p.on_read(b" tail\n".to_vec());
    assert_eq!(out.events.len(), 1);
    assert_eq!(out.events[0].frame, b"partial tail".to_vec());
}

#[test]
fn fragmentation_invariance_of_classification() {
    let stream: &[u8] =
        b"{\"id\":1,\"method\":\"mining.submit\",\"params\":[\"bob\",\"job7\",\"0011\",\"5f5e1000\",\"1a2b3c4d\"]}\n";
    let mut whole = RelayPump::new(1024);
    let expect: Vec<Classification> =
        whole.on_read(stream.to_vec()).events.into_iter().map(|e| e.classified).collect();
    for cut in 0..=stream.len() {
        let mut p = RelayPump::new(1024);
        let mut got: Vec<Classification> = Vec::new();
        let a = p.on_read(stream[..cut].to_vec());
        got.extend(a.events.into_iter().map(|e| e.classified));
        let b = p.on_read(stream[cut..].to_vec());
        got.extend(b.events.into_iter().map(|e| e.classified));
        assert_eq!(got, expect);
    }
}

#[test]
fn overflow_ends_only_the_offending_pump() {
    let mut noisy = RelayPump::new(8);
    let mut quiet = RelayPump::new(8);
    let chunk = b"0123456789abcdef".to_vec();
    let out = noisy.on_read(chunk.clone());
    assert!(out.overflow);
    // the bytes were still forwarded before the decode failure
    assert_eq!(out.forward, chunk);
    // an independent pump with the same bound keeps decoding normally
    let out = quiet.on_read(b"ok\n".to_vec());
    assert!(!out.overflow);
    assert_eq!(out.events.len(), 1);
    assert_eq!(out.events[0].frame, b"ok".to_vec());
}

#[test]
fn session_lifecycle_happy_path() {
    let mut s = Session::new();
    assert_eq!(s.on_event(SessionEvent::UpstreamConnected), vec![SessionAction::StartPumps]);
    let acts = s.on_event(SessionEvent::DirectionEnded {
        dir: Direction::ClientToUpstream,
        cause: TerminationCause::CleanEof,
    });
    assert_eq!(
        acts,
        vec![
            SessionAction::HalfCloseWrite { peer: Endpoint::Upstream },
            SessionAction::CloseBoth,
        ]
    );
    // the second pump ending after teardown orders nothing further
    let acts = s.on_event(SessionEvent::DirectionEnded {
        dir: Direction::UpstreamToClient,
        cause: TerminationCause::TransportError,
    });
    assert_eq!(acts, Vec::<SessionAction>::new());
}

#[test]
fn shutdown_propagates_both_ways() {
    let mut s = Session::new();
    s.on_event(SessionEvent::UpstreamConnected);
    let acts = s.on_event(SessionEvent::DirectionEnded {
        dir: Direction::UpstreamToClient,
        cause: TerminationCause::CleanEof,
    });
    assert_eq!(
        acts,
        vec![
            SessionAction::HalfCloseWrite { peer: Endpoint::Client },
            SessionAction::CloseBoth,
        ]
    );
}

#[test]
fn unreachable_upstream_closes_only_that_session() {
    let mut failing = Session::new();
    let mut healthy = Session::new();
    assert_eq!(
        failing.on_event(SessionEvent::UpstreamUnreachable),
        vec![SessionAction::CloseClient]
    );
    // a concurrent session still connects and relays
    assert_eq!(
        healthy.on_event(SessionEvent::UpstreamConnected),
        vec![SessionAction::StartPumps]
    );
    // and the failed session orders nothing more
    assert_eq!(
        failing.on_event(SessionEvent::DirectionEnded {
            dir: Direction::ClientToUpstream,
            cause: TerminationCause::CleanEof,
        }),
        Vec::<SessionAction>::new()
    );
}

#[test]
fn frame_too_large_tears_down_one_session_only() {
    let mut s1 = Session::new();
    let mut s2 = Session::new();
    s1.on_event(SessionEvent::UpstreamConnected);
    s2.on_event(SessionEvent::UpstreamConnected);
    let acts = s1.on_event(SessionEvent::DirectionEnded {
        dir: Direction::ClientToUpstream,
        cause: TerminationCause::FrameTooLarge,
    });
    assert_eq!(
        acts,
        vec![
            SessionAction::HalfCloseWrite { peer: Endpoint::Upstream },
            SessionAction::CloseBoth,
        ]
    );
    // the second session keeps relaying
    let acts = s2.on_event(SessionEvent::DirectionEnded {
        dir: Direction::ClientToUpstream,
        cause: TerminationCause::CleanEof,
    });
    assert_eq!(
        acts,
        vec![
            SessionAction::HalfCloseWrite { peer: Endpoint::Upstream },
            SessionAction::CloseBoth,
        ]
    );
}
