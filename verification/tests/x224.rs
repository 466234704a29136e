use rdpkit::autodetect::{AutoDetectRequest, AutoDetectResponse};
use rdpkit::logon::ServerAutoReconnect;
use rdpkit::x224::{
    DisconnectDescription, DisconnectReason, IoChannelPdu, IoChannelProcessor, ProcessorOutput, UnhandledPdu,
};

#[test]
fn save_session_info_keeps_latest_cookie() {
    let mut p = IoChannelProcessor::new();
    assert!(p.reconnect_cookie().is_none());
    let cookie = ServerAutoReconnect { logon_id: 7, random_bits: [3; 16] };
    let out = p.process_io_channel(IoChannelPdu::SaveSessionInfo { auto_reconnect: Some(cookie) }).unwrap();
    assert!(out.is_empty());
    assert_eq!(p.reconnect_cookie().map(|c| c.logon_id), Some(7));
    let out = p.process_io_channel(IoChannelPdu::SaveSessionInfo { auto_reconnect: None }).unwrap();
    assert!(out.is_empty());
    assert_eq!(p.reconnect_cookie().map(|c| c.logon_id), Some(7));
}

#[test]
fn error_info_closes_unless_none() {
    let mut p = IoChannelProcessor::new();
    assert_eq!(p.process_io_channel(IoChannelPdu::ServerSetErrorInfo(0)), Ok(vec![]));
    assert_eq!(
        p.process_io_channel(IoChannelPdu::ServerSetErrorInfo(0x0000_000C)),
        Ok(vec![ProcessorOutput::Disconnect(DisconnectDescription::ErrorInfo(0x0000_000C))])
    );
}

#[test]
fn shutdown_denied_sends_ultimatum_then_disconnects() {
    let mut p = IoChannelProcessor::new();
    assert_eq!(
        p.process_io_channel(IoChannelPdu::ShutdownDenied),
        Ok(vec![
            ProcessorOutput::SendDisconnectUltimatum,
            ProcessorOutput::Disconnect(DisconnectDescription::McsDisconnect(DisconnectReason::UserRequested)),
        ])
    );
}

#[test]
fn only_rtt_requests_are_answered_on_io_channel() {
    let mut p = IoChannelProcessor::new();
    let rtt = AutoDetectRequest::RttRequest { sequence_number: 9, request_type: 0x0001 };
    assert_eq!(
        p.process_io_channel(IoChannelPdu::AutoDetectRequest(rtt)),
        Ok(vec![ProcessorOutput::SendAutoDetectResponse(AutoDetectResponse::RttResponse { sequence_number: 9 })])
    );
    let stop = AutoDetectRequest::BandwidthMeasureStop { sequence_number: 2, request_type: 0x0429, payload: None };
    assert_eq!(p.process_io_channel(IoChannelPdu::AutoDetectRequest(stop)), Ok(vec![]));
}

#[test]
fn other_io_channel_pdus() {
    let mut p = IoChannelProcessor::new();
    assert_eq!(p.process_io_channel(IoChannelPdu::SetKeyboardIndicators), Ok(vec![]));
    assert_eq!(p.process_io_channel(IoChannelPdu::OtherShareData), Err(UnhandledPdu));
    assert_eq!(p.process_io_channel(IoChannelPdu::DeactivateAll), Ok(vec![ProcessorOutput::DeactivateAll]));
    assert_eq!(
        p.process_io_channel(IoChannelPdu::MultitransportRequest),
        Ok(vec![ProcessorOutput::MultitransportRequest])
    );
    assert_eq!(p.process_io_channel(IoChannelPdu::Redirection), Ok(vec![ProcessorOutput::Redirect]));
}
