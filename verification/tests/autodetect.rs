use rdpkit::autodetect::{
    response_for_request, AutoDetectRequest, AutoDetectResponse, ConnectTimeAutoDetectRsp, BW_RESULTS_CONNECT_TIME,
    BW_STOP_CONNECT_TIME,
};
use rdpkit::autodetect::{route_unrouted_channel, UnexpectedChannel};

#[test]
fn bandwidth_start_needs_no_response() {
    let start = AutoDetectRequest::bw_start_connect_time(3);
    assert!(response_for_request(&start).is_none());
}

#[test]
fn bandwidth_stop_produces_results_with_payload_byte_count() {
    let stop = AutoDetectRequest::BandwidthMeasureStop {
        sequence_number: 9,
        request_type: BW_STOP_CONNECT_TIME,
        payload: Some(vec![0u8; 1600]),
    };
    let response = response_for_request(&stop).expect("connect-time BW stop must be answered");
    assert_eq!(
        response,
        AutoDetectResponse::BandwidthMeasureResults {
            sequence_number: 9,
            response_type: BW_RESULTS_CONNECT_TIME,
            time_delta_ms: 1,
            byte_count: 1600,
        }
    );
}

#[test]
fn rtt_request_is_answered_with_same_sequence_number() {
    let request = AutoDetectRequest::rtt_connect_time(7);
    assert_eq!(response_for_request(&request), Some(AutoDetectResponse::RttResponse { sequence_number: 7 }));
}

#[test]
fn stop_without_payload_reports_zero_bytes() {
    let stop = AutoDetectRequest::BandwidthMeasureStop { sequence_number: 2, request_type: 0x0429, payload: None };
    assert!(matches!(
        response_for_request(&stop),
        Some(AutoDetectResponse::BandwidthMeasureResults { byte_count: 0, sequence_number: 2, .. })
    ));
    let payload = AutoDetectRequest::BandwidthMeasurePayload { sequence_number: 1, payload: vec![1, 2] };
    assert!(response_for_request(&payload).is_none());
}

#[test]
fn response_roundtrips_with_autodetect_rsp_flag() {
    let pdu = ConnectTimeAutoDetectRsp::new(AutoDetectResponse::RttResponse { sequence_number: 42 });
    let mut buf = Vec::new();
    pdu.encode(&mut buf);
    assert_eq!(buf.len(), pdu.size());
    let flags = u16::from_le_bytes([buf[0], buf[1]]);
    assert_eq!(flags, 0x2000);
    assert_eq!(buf, vec![0x00, 0x20, 0x00, 0x00, 0x06, 0x01, 42, 0, 0, 0]);
}

#[test]
fn bandwidth_results_wire_form() {
    let rsp = AutoDetectResponse::BandwidthMeasureResults {
        sequence_number: 9,
        response_type: BW_RESULTS_CONNECT_TIME,
        time_delta_ms: 1,
        byte_count: 1600,
    };
    let mut buf = Vec::new();
    rsp.encode(&mut buf);
    assert_eq!(buf, vec![14, 1, 9, 0, 3, 0, 1, 0, 0, 0, 0x40, 0x06, 0, 0]);
}

use rdpkit::autodetect::{
    classify_connect_time_pdu, encode_rtt_request, in_session_autodetect_response, BasicSecurityHeader,
    ConnectTimePdu, AUTODETECT_REQ, SEC_LICENSE_PKT,
};

/// Encodes a connect-time RTT request the way a server would.
fn encode_server_rtt_request(sequence_number: u16) -> Vec<u8> {
    let mut buf = Vec::new();
    BasicSecurityHeader { flags: AUTODETECT_REQ }.encode(&mut buf);
    encode_rtt_request(sequence_number, 0x1001, &mut buf);
    buf
}

fn license_pdu() -> Vec<u8> {
    let mut bytes = Vec::new();
    BasicSecurityHeader { flags: SEC_LICENSE_PKT }.encode(&mut bytes);
    bytes.extend_from_slice(&[0x01, 0x02, 0x03, 0x04]);
    bytes
}

#[test]
fn classifies_rtt_request_and_builds_matching_response() {
    let bytes = encode_server_rtt_request(7);

    let classified = classify_connect_time_pdu(&bytes).expect("classify");
    let ConnectTimePdu::AutoDetectRequest(decoded) = classified else {
        panic!("expected auto-detect request");
    };

    let response = response_for_request(&decoded).expect("rtt requires a response");
    assert_eq!(response, AutoDetectResponse::RttResponse { sequence_number: 7 });
}

#[test]
fn non_autodetect_security_header_is_other() {
    let classified = classify_connect_time_pdu(&license_pdu()).expect("classify");
    assert!(matches!(classified, ConnectTimePdu::Other));
}

#[test]
fn in_session_rtt_request_is_answered() {
    let bytes = encode_server_rtt_request(11);

    let rsp = in_session_autodetect_response(&bytes).expect("classify").expect("rtt requires a response");
    assert_eq!(rsp.response, AutoDetectResponse::RttResponse { sequence_number: 11 });
}

#[test]
fn in_session_non_autodetect_is_none() {
    assert!(in_session_autodetect_response(&license_pdu()).expect("classify").is_none());
}

#[test]
fn request_decoding_covers_every_kind() {
    // Connect-time bandwidth stop carrying a 3-byte payload.
    let stop = [8, 0, 4, 0, 0x2B, 0, 3, 0, 9, 9, 9];
    let (req, n) = AutoDetectRequest::decode(&stop).expect("stop");
    assert_eq!(n, 11);
    assert!(matches!(
        response_for_request(&req),
        Some(AutoDetectResponse::BandwidthMeasureResults { sequence_number: 4, byte_count: 3, .. })
    ));
    // Truncated payload.
    assert!(AutoDetectRequest::decode(&stop[..10]).is_err());
    // Network characteristics with all three values.
    let nc = [18, 0, 1, 0, 0xC0, 0x08, 10, 0, 0, 0, 20, 0, 0, 0, 30, 0, 0, 0];
    let (req, n) = AutoDetectRequest::decode(&nc).expect("netchar");
    assert_eq!(n, 18);
    assert!(matches!(
        req,
        AutoDetectRequest::NetworkCharacteristicsResult {
            base_rtt_ms: Some(10),
            bandwidth_kbps: Some(20),
            average_rtt_ms: Some(30),
            ..
        }
    ));
    assert!(response_for_request(&req).is_none());
    // Unknown request type and wrong type id.
    assert!(AutoDetectRequest::decode(&[6, 0, 1, 0, 0x77, 0x77]).is_err());
    assert!(AutoDetectRequest::decode(&[6, 1, 1, 0, 0x01, 0x10]).is_err());
    // Header too short.
    assert!(classify_connect_time_pdu(&[0x00, 0x10]).is_err());
}

#[test]
fn unrouted_autodetect_request_is_answered_on_any_channel() {
    let bytes = encode_server_rtt_request(5);
    let rsp = route_unrouted_channel(0, &bytes).expect("message channel").expect("answered");
    assert_eq!(rsp.response, AutoDetectResponse::RttResponse { sequence_number: 5 });
    assert!(route_unrouted_channel(1007, &bytes).expect("answered anywhere").is_some());
}

#[test]
fn unrouted_other_traffic_is_dropped_only_on_message_channel() {
    assert_eq!(route_unrouted_channel(0, &license_pdu()), Ok(None));
    assert_eq!(route_unrouted_channel(0, &[1]), Ok(None));
    assert_eq!(route_unrouted_channel(1007, &license_pdu()), Err(UnexpectedChannel { channel_id: 1007 }));
    assert_eq!(route_unrouted_channel(9, &[1]), Err(UnexpectedChannel { channel_id: 9 }));
}
