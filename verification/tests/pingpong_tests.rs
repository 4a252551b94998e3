use fast_version::pingpong::PingPongProtocol;
use fast_version::pingpong::PingPongRequest;
use fast_version::pingpong::PingPongResponse;
use fast_version::pingpong::PingPongRoundtripResponse;

#[test]
fn calculate_duration_subtracts_the_request_instant() {
    let response = PingPongRoundtripResponse { request_instant: 10, instant: 25 };
    assert_eq!(response.calculate_duration(), 15);
}

#[test]
fn calculate_duration_saturates_at_zero() {
    let response = PingPongRoundtripResponse { request_instant: 25, instant: 10 };
    assert_eq!(response.calculate_duration(), 0);
}

#[test]
fn counter_requests_return_the_running_count() {
    let mut protocol = PingPongProtocol::new();
    for expected in 0..3usize {
        let r = protocol.process_request(PingPongProtocol::counter_request(), 0).unwrap();
        assert!(matches!(r, PingPongResponse::Counter(c) if c == expected));
    }
}

#[test]
fn roundtrip_requests_echo_both_instants_and_advance_the_counter() {
    let mut protocol = PingPongProtocol::new();
    let request = PingPongProtocol::roundtrip_request_at(111);
    let r = protocol.process_request(request, 222).unwrap();
    match r {
        PingPongResponse::Roundtrip(b) => {
            assert_eq!(b.request_instant, 111);
            assert_eq!(b.instant, 222);
            assert_eq!(b.calculate_duration(), 111);
        },
        PingPongResponse::Counter(_) => panic!("expected a round-trip response"),
    }
    let r = protocol.process_request(PingPongProtocol::counter_request(), 0).unwrap();
    assert!(matches!(r, PingPongResponse::Counter(1)));
}

#[test]
fn roundtrip_request_builds_a_roundtrip_variant() {
    assert!(matches!(PingPongProtocol::roundtrip_request(), PingPongRequest::Roundtrip(_)));
    assert!(matches!(PingPongProtocol::counter_request(), PingPongRequest::Counter));
}
