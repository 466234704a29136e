use rdpkit::rdpeusb::caps::{Capability, RimExchangeCapabilityRequest, RimExchangeCapabilityResponse};
use rdpkit::rdpeusb::dev_sink::{
    AddVirtualChannel, DeviceSpeed, NoAckIsochWriteJitterBufSizeInMs, SupportedUsbVer, UsbBusIfaceVer,
    UsbDeviceCaps, UsbdiVer,
};
use rdpkit::rdpeusb::header::{InterfaceId, Mask, SharedMsgHeader};
use rdpkit::rdpeusb::ts_urb::{TsUrbHeader, UrbFunction};
use rdpkit::rdpeusb::usb_dev::{
    CancelRequest, InternalIoCtl, IoCtl, QueryDeviceText, RegisterRequestCallback, UsbIoctlCode,
};
use rdpkit::rdpeusb::utils::RequestIdTsUrb;
use rdpkit::rdpeusb::UrbdrcServerPdu;

fn request_header(iface: u32, function_id: u32) -> SharedMsgHeader {
    SharedMsgHeader {
        interface_id: InterfaceId::from_u32(iface),
        mask: Mask::StreamIdProxy,
        message_id: 5,
        function_id: Some(function_id),
    }
}

#[test]
fn shared_header_round_trip_and_layout() {
    let h = request_header(0x1234, 0x100);
    let mut buf = Vec::new();
    h.encode(&mut buf);
    assert_eq!(buf, vec![0x34, 0x12, 0x00, 0x40, 5, 0, 0, 0, 0, 1, 0, 0]);
    let (d, n) = SharedMsgHeader::decode(&buf).expect("decode");
    assert_eq!(n, 12);
    assert_eq!(d.interface_id.value(), 0x1234);
    assert_eq!(d.mask, Mask::StreamIdProxy);
    assert_eq!(d.function_id, Some(0x100));

    let rsp = SharedMsgHeader {
        interface_id: InterfaceId::from_u32(3),
        mask: Mask::StreamIdStub,
        message_id: 9,
        function_id: None,
    };
    let mut buf = Vec::new();
    rsp.encode(&mut buf);
    assert_eq!(buf.len(), 8);
    let (d, n) = SharedMsgHeader::decode(&buf).expect("decode");
    assert_eq!((n, d.function_id, d.message_id), (8, None, 9));
}

#[test]
fn shared_header_rejects_reserved_mask_and_short_input() {
    assert!(SharedMsgHeader::decode(&[0, 0, 0, 0xC0, 0, 0, 0, 0, 0, 0, 0, 0]).is_err());
    assert!(SharedMsgHeader::decode(&[0, 0, 0, 0x40, 0, 0, 0, 0]).is_err());
    assert!(InterfaceId::from_u32(0xFFFF_FFFF).value() == 0x3FFF_FFFF);
}

#[test]
fn capability_exchange_round_trip() {
    let req = RimExchangeCapabilityRequest {
        header: request_header(0, 0x100),
        capability: Capability::RimCapabilityVersion01,
    };
    let mut buf = Vec::new();
    req.encode(&mut buf);
    assert_eq!(buf.len(), req.size());
    let (h, n) = SharedMsgHeader::decode(&buf).expect("header");
    let (d, m) = RimExchangeCapabilityRequest::decode(&buf[n..], h).expect("payload");
    assert_eq!(m, 4);
    assert_eq!(d.capability, Capability::RimCapabilityVersion01);
    assert!(RimExchangeCapabilityRequest::decode(&[2, 0, 0, 0], h).is_err());

    let rsp = RimExchangeCapabilityResponse {
        header: SharedMsgHeader {
            interface_id: InterfaceId::from_u32(0),
            mask: Mask::StreamIdStub,
            message_id: 1,
            function_id: None,
        },
        capability: Capability::RimCapabilityVersion01,
        result: 0x8000_4005,
    };
    let mut buf = Vec::new();
    rsp.encode(&mut buf);
    assert_eq!(buf.len(), rsp.size());
    let (h, n) = SharedMsgHeader::decode(&buf).expect("header");
    let (d, _) = RimExchangeCapabilityResponse::decode(&buf[n..], h).expect("payload");
    assert_eq!(d.result, 0x8000_4005);
}

#[test]
fn usb_device_messages_round_trip() {
    let cancel = CancelRequest { header: request_header(7, 0x100), request_id: 99 };
    let mut buf = Vec::new();
    cancel.encode(&mut buf);
    assert_eq!(buf.len(), cancel.size());
    let (d, _) = CancelRequest::decode(&buf[12..], cancel.header).expect("cancel");
    assert_eq!(d.request_id, 99);

    let reg = RegisterRequestCallback { header: request_header(7, 0x101), request_completion: Some(InterfaceId(12)) };
    let mut buf = Vec::new();
    reg.encode(&mut buf);
    assert_eq!(buf.len(), reg.size());
    let (d, n) = RegisterRequestCallback::decode(&buf[12..], reg.header).expect("register");
    assert_eq!((n, d.request_completion), (8, Some(InterfaceId(12))));
    let unreg = RegisterRequestCallback { header: request_header(7, 0x101), request_completion: None };
    assert_eq!(unreg.size(), 16);

    let ioctl = IoCtl {
        header: request_header(7, 0x104),
        ioctl_code: UsbIoctlCode::GetPortStatus,
        output_buffer_size: 4,
        request_id: 3,
    };
    let mut buf = Vec::new();
    ioctl.encode(&mut buf);
    assert_eq!(buf.len(), 28);
    let (d, _) = IoCtl::decode(&buf[12..], ioctl.header).expect("ioctl");
    assert_eq!((d.ioctl_code, d.output_buffer_size, d.request_id), (UsbIoctlCode::GetPortStatus, 4, 3));

    let internal = InternalIoCtl { header: request_header(7, 0x105), request_id: 8 };
    let mut buf = Vec::new();
    internal.encode(&mut buf);
    assert_eq!(&buf[12..16], &[0x00, 0x40, 0x22, 0x00]);
    let (d, _) = InternalIoCtl::decode(&buf[12..], internal.header).expect("internal");
    assert_eq!(d.request_id, 8);

    let query = QueryDeviceText { header: request_header(7, 0x106), text_type: 1, locale_id: 0x409 };
    let mut buf = Vec::new();
    query.encode(&mut buf);
    let (d, _) = QueryDeviceText::decode(&buf[12..], query.header).expect("query");
    assert_eq!((d.text_type, d.locale_id), (1, 0x409));
}

#[test]
fn ioctl_output_size_must_suit_code() {
    let h = request_header(7, 0x104);
    // RESET_PORT with a non-zero output buffer.
    let payload = [0x07, 0x00, 0x22, 0x00, 0, 0, 0, 0, 4, 0, 0, 0, 1, 0, 0, 0];
    assert!(IoCtl::decode(&payload, h).is_err());
    // Non-zero input buffer.
    let payload = [0x20, 0x00, 0x22, 0x00, 1, 0, 0, 0, 4, 0, 0, 0, 1, 0, 0, 0];
    assert!(IoCtl::decode(&payload, h).is_err());
    // GET_HUB_NAME accepts any output size.
    let payload = [0x20, 0x00, 0x22, 0x00, 0, 0, 0, 0, 0x40, 0, 0, 0, 1, 0, 0, 0];
    assert_eq!(IoCtl::decode(&payload, h).expect("hub name").0.output_buffer_size, 0x40);
    assert!(UsbIoctlCode::try_from_u32(0x1234).is_err());
}

#[test]
fn device_caps_round_trip_and_validation() {
    let caps = UsbDeviceCaps {
        usb_bus_iface_ver: UsbBusIfaceVer::V2,
        usbdi_ver: UsbdiVer::V0x600,
        supported_usb_ver: SupportedUsbVer::Usb20,
        device_speed: DeviceSpeed::HighSpeed,
        no_ack_isoch_write_jitter_buf_size: NoAckIsochWriteJitterBufSizeInMs::try_from_u32(100).unwrap(),
    };
    let mut buf = Vec::new();
    caps.encode(&mut buf);
    assert_eq!(buf.len(), 28);
    let (d, n) = UsbDeviceCaps::decode(&buf).expect("caps");
    assert_eq!(n, 28);
    assert_eq!(d.no_ack_isoch_write_jitter_buf_size.outstanding_isoch_data(), Some(100));
    assert_eq!(d.usbdi_ver, UsbdiVer::V0x600);

    let mut bad = buf.clone();
    bad[24] = 5;
    assert!(UsbDeviceCaps::decode(&bad).is_err());
    let mut bad = buf.clone();
    bad[16] = 1;
    assert!(UsbDeviceCaps::decode(&bad).is_err());
    assert!(UsbDeviceCaps::decode(&buf[..27]).is_err());
    assert_eq!(NoAckIsochWriteJitterBufSizeInMs::not_supported().outstanding_isoch_data(), None);
    assert!(NoAckIsochWriteJitterBufSizeInMs::try_from_u32(513).is_err());
}

#[test]
fn ts_urb_header_round_trip() {
    let h = TsUrbHeader {
        size: 0x20,
        urb_function: UrbFunction::IsochTransfer,
        request_id: RequestIdTsUrb::from_u32(0x8000_0005),
        no_ack: true,
    };
    assert_eq!(h.request_id.value(), 5);
    let mut buf = Vec::new();
    h.encode(&mut buf);
    assert_eq!(buf, vec![0x20, 0, 10, 0, 5, 0, 0, 0x80]);
    let (d, n) = TsUrbHeader::decode(&buf).expect("urb header");
    assert_eq!(n, 8);
    assert_eq!(d.urb_function, UrbFunction::IsochTransfer);
    assert_eq!(d.request_id.value(), 5);
    assert!(d.no_ack);
    assert!(TsUrbHeader::decode(&[0, 0, 3, 0, 0, 0, 0, 0]).is_err());
    assert_eq!(u32::from(RequestIdTsUrb::from(0xFFFF_FFFF)), 0x7FFF_FFFF);
}

#[test]
fn server_pdu_dispatches_to_message() {
    let pdu = UrbdrcServerPdu::CancelReq(CancelRequest { header: request_header(7, 0x100), request_id: 1 });
    let mut buf = Vec::new();
    pdu.encode(&mut buf);
    assert_eq!(buf.len(), pdu.size());
    assert_eq!(pdu.name(), "CANCEL_REQUEST");
    let chan = AddVirtualChannel { header: request_header(1, 0x100) };
    let mut buf = Vec::new();
    chan.encode(&mut buf);
    assert_eq!(buf.len(), chan.size());
}
