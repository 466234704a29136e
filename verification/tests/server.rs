use rdpkit::server::{
    io_channel_action, negotiate_client_caps, plan_server_events, route_mcs_message, CapsError, ClientCapability,
    ClientCodec, CodecProperty, EventDecision, IoChannelAction, IoChannelData, McsMessageKind, McsRoute,
    ServerCodecOptions, ServerEventKind,
};
use rdpkit::x224::DisconnectReason;

fn all_codecs() -> ServerCodecOptions {
    ServerCodecOptions { remote_fx: true, image_remote_fx: true, qoi: true, qoiz: true }
}

#[test]
fn client_without_fastpath_output_is_refused() {
    let caps = vec![
        ClientCapability::Bitmap { desktop_resize: true, desktop_width: 800, desktop_height: 600 },
        ClientCapability::General { fastpath_output_supported: false },
    ];
    assert_eq!(negotiate_client_caps(&caps, &all_codecs()).err(), Some(CapsError::FastpathOutputNotSupported));
}

#[test]
fn negotiation_takes_flags_sizes_and_last_codecs() {
    let caps = vec![
        ClientCapability::General { fastpath_output_supported: true },
        ClientCapability::Bitmap { desktop_resize: false, desktop_width: 1, desktop_height: 1 },
        ClientCapability::Bitmap { desktop_resize: true, desktop_width: 1280, desktop_height: 720 },
        ClientCapability::SurfaceCommands { flags: 0x52 },
        ClientCapability::BitmapCodecs(vec![
            ClientCodec { id: 3, property: CodecProperty::RemoteFx(vec![1, 4]) },
            ClientCodec { id: 5, property: CodecProperty::Qoi },
            ClientCodec { id: 6, property: CodecProperty::ImageRemoteFx(vec![]) },
            ClientCodec { id: 7, property: CodecProperty::NsCodec },
        ]),
        ClientCapability::Other,
    ];
    let n = negotiate_client_caps(&caps, &all_codecs()).expect("accepted");
    assert_eq!(n.surface_flags, 0x52);
    assert_eq!(n.remotefx, Some((4, 3)));
    assert_eq!(n.qoi, Some(5));
    assert_eq!(n.qoiz, None);
    assert_eq!(n.size_requests, vec![(1280, 720)]);
}

#[test]
fn negotiation_ignores_codecs_the_server_does_not_use() {
    let caps = vec![ClientCapability::BitmapCodecs(vec![
        ClientCodec { id: 3, property: CodecProperty::RemoteFx(vec![1]) },
        ClientCodec { id: 9, property: CodecProperty::QoiZ },
    ])];
    let opts = ServerCodecOptions { remote_fx: false, image_remote_fx: false, qoi: false, qoiz: true };
    let n = negotiate_client_caps(&caps, &opts).expect("accepted");
    assert_eq!(n.remotefx, None);
    assert_eq!(n.qoiz, Some(9));
    assert_eq!(n.surface_flags, 0);
}

#[test]
fn mcs_messages_are_routed() {
    let statics = vec![1004, 1005];
    assert_eq!(route_mcs_message(McsMessageKind::SendDataRequest { channel_id: 1003 }, 1003, &statics), McsRoute::IoChannel);
    assert_eq!(
        route_mcs_message(McsMessageKind::SendDataRequest { channel_id: 1005 }, 1003, &statics),
        McsRoute::StaticChannel(1005)
    );
    assert_eq!(
        route_mcs_message(McsMessageKind::SendDataRequest { channel_id: 1009 }, 1003, &statics),
        McsRoute::UnexpectedChannel(1009)
    );
    assert_eq!(
        route_mcs_message(McsMessageKind::DisconnectProviderUltimatum(DisconnectReason::UserRequested), 1003, &statics),
        McsRoute::Disconnect
    );
    assert_eq!(
        route_mcs_message(McsMessageKind::DisconnectProviderUltimatum(DisconnectReason::DomainDisconnected), 1003, &statics),
        McsRoute::Ignore
    );
    assert_eq!(route_mcs_message(McsMessageKind::Other, 1003, &statics), McsRoute::Ignore);
    assert_eq!(io_channel_action(IoChannelData::Input), IoChannelAction::HandleInput);
    assert_eq!(io_channel_action(IoChannelData::ShutdownRequest), IoChannelAction::Disconnect);
    assert_eq!(io_channel_action(IoChannelData::Other), IoChannelAction::Ignore);
}

#[test]
fn batch_sends_at_most_four_waves() {
    let events = vec![ServerEventKind::RdpsndWave; 6];
    let d = plan_server_events(&events, true);
    assert_eq!(d.iter().filter(|x| **x == EventDecision::Dispatch).count(), 4);
    assert_eq!(d[4], EventDecision::DropWave);
    assert_eq!(d[5], EventDecision::DropWave);
}

#[test]
fn waves_without_audio_channel_are_dropped_and_quit_ends_batch() {
    let events = vec![
        ServerEventKind::RdpsndWave,
        ServerEventKind::Clipboard,
        ServerEventKind::Quit,
        ServerEventKind::Echo,
    ];
    assert_eq!(
        plan_server_events(&events, false),
        vec![EventDecision::DropWave, EventDecision::Dispatch, EventDecision::Disconnect]
    );
}
