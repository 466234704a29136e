//! Messages of the USB Device interface, sent by the server to the client:
//! cancelling a request, registering the request completion interface, I/O
//! control requests and device text queries.

use vstd::prelude::*;

use crate::bytes::{get_le32, le32, lemma_read_le32_in, push_u32_le, read_u32_le};
use crate::error::PduError;
use crate::rdpeusb::header::{InterfaceId, SharedMsgHeader, header_bytes};
use crate::rdpeusb::utils::{RequestId, RequestIdIoctl};

verus! {

// ---------------------------------------------------------------------------
// CANCEL_REQUEST
// ---------------------------------------------------------------------------

/// Cancels an outstanding I/O request.
#[derive(Debug, Clone, Copy)]
pub struct CancelRequest {
    pub header: SharedMsgHeader,
    /// Id of the request to cancel.
    pub request_id: RequestId,
}

/// Wire form of a cancel request.
pub open spec fn cancel_request_bytes(p: CancelRequest) -> Seq<u8> {
    header_bytes(p.header) + le32(p.request_id)
}

/// The payload at the start of `s`, decoded under `header`.
pub open spec fn parse_cancel_request(s: Seq<u8>, header: SharedMsgHeader) -> Option<CancelRequest> {
    if s.len() < 4 {
        None
    } else {
        Some(CancelRequest { header, request_id: get_le32(s, 0) })
    }
}

impl CancelRequest {
    const PAYLOAD_SIZE: usize = 4;
    const FIXED_PART_SIZE: usize = 16;

    pub fn name(&self) -> (r: &'static str)
        ensures
            r@ == "CANCEL_REQUEST"@,
    {
        "CANCEL_REQUEST"
    }

    pub fn size(&self) -> (r: usize)
        ensures
            self.header.function_id is Some ==> r == cancel_request_bytes(*self).len(),
            r == 16,
    {
        Self::FIXED_PART_SIZE
    }

    /// Decodes the payload at the start of `src` under an already decoded
    /// `header`; returns it with the number of payload bytes consumed.
    pub fn decode(src: &[u8], header: SharedMsgHeader) -> (r: Result<(CancelRequest, usize), PduError>)
        ensures
            match parse_cancel_request(src@, header) {
                Some(v) => r matches Ok((w, n)) && w == v && n == 4,
                None => r matches Err(PduError::NotEnoughBytes { .. }),
            },
    {
        if src.len() < Self::PAYLOAD_SIZE {
            return Err(PduError::NotEnoughBytes { name: "CANCEL_REQUEST", received: src.len(), expected: 4 });
        }
        let request_id = read_u32_le(src, 0);
        Ok((CancelRequest { header, request_id }, 4))
    }

    /// Appends the header and the request id.
    pub fn encode(&self, dst: &mut Vec<u8>)
        ensures
            final(dst)@ == old(dst)@ + cancel_request_bytes(*self),
    {
        self.header.encode(dst);
        push_u32_le(dst, self.request_id);
        assert(final(dst)@ =~= old(dst)@ + cancel_request_bytes(*self));
    }
}

// ---------------------------------------------------------------------------
// REGISTER_REQUEST_CALLBACK
// ---------------------------------------------------------------------------

/// Assigns (or withdraws) the interface id of the Request Completion
/// interface.
#[derive(Debug, Clone, Copy)]
pub struct RegisterRequestCallback {
    pub header: SharedMsgHeader,
    /// `None` when the server unregisters the callback
    /// (`NumRequestCompletion == 0`).
    pub request_completion: Option<InterfaceId>,
}

/// Payload: `NumRequestCompletion`, then the interface id when it is 1.
pub open spec fn register_callback_payload(p: RegisterRequestCallback) -> Seq<u8> {
    match p.request_completion {
        Some(id) => le32(1) + le32(id.0),
        None => le32(0),
    }
}

/// Wire form of a register request callback message.
pub open spec fn register_callback_bytes(p: RegisterRequestCallback) -> Seq<u8> {
    header_bytes(p.header) + register_callback_payload(p)
}

/// The payload at the start of `s`, decoded under `header`, with its size.
/// Any non-zero count announces one interface id.
pub open spec fn parse_register_callback(s: Seq<u8>, header: SharedMsgHeader) -> Option<(RegisterRequestCallback, int)> {
    if s.len() < 4 {
        None
    } else if get_le32(s, 0) == 0 {
        Some((RegisterRequestCallback { header, request_completion: None }, 4))
    } else if s.len() < 8 {
        None
    } else {
        Some(
            (
                RegisterRequestCallback {
                    header,
                    request_completion: Some(InterfaceId(get_le32(s, 4) % 0x4000_0000)),
                },
                8,
            ),
        )
    }
}

impl RegisterRequestCallback {
    pub fn name(&self) -> (r: &'static str)
        ensures
            r@ == "REGISTER_REQUEST_CALLBACK"@,
    {
        "REGISTER_REQUEST_CALLBACK"
    }

    /// 16 bytes, or 20 when an interface id is announced.
    pub fn size(&self) -> (r: usize)
        ensures
            self.header.function_id is Some ==> r == register_callback_bytes(*self).len(),
            r == 12 + register_callback_payload(*self).len(),
    {
        match self.request_completion {
            Some(_) => 20,
            None => 16,
        }
    }

    /// Decodes the payload at the start of `src` under an already decoded
    /// `header`; returns it with the number of payload bytes consumed.
    pub fn decode(src: &[u8], header: SharedMsgHeader) -> (r: Result<(RegisterRequestCallback, usize), PduError>)
        ensures
            match parse_register_callback(src@, header) {
                Some((v, n)) => r matches Ok((w, m)) && w == v && m == n,
                None => r matches Err(PduError::NotEnoughBytes { .. }),
            },
    {
        if src.len() < 4 {
            return Err(
                PduError::NotEnoughBytes { name: "REGISTER_REQUEST_CALLBACK", received: src.len(), expected: 4 },
            );
        }
        if read_u32_le(src, 0) == 0 {
            Ok((RegisterRequestCallback { header, request_completion: None }, 4))
        } else {
            if src.len() < 8 {
                return Err(
                    PduError::NotEnoughBytes { name: "REGISTER_REQUEST_CALLBACK", received: src.len(), expected: 8 },
                );
            }
            let id = InterfaceId::from_u32(read_u32_le(src, 4));
            Ok((RegisterRequestCallback { header, request_completion: Some(id) }, 8))
        }
    }

    /// Appends the header and the payload.
    pub fn encode(&self, dst: &mut Vec<u8>)
        ensures
            final(dst)@ == old(dst)@ + register_callback_bytes(*self),
    {
        self.header.encode(dst);
        match self.request_completion {
            Some(id) => {
                push_u32_le(dst, 1);
                push_u32_le(dst, id.value());
            },
            None => {
                push_u32_le(dst, 0);
            },
        }
        assert(final(dst)@ =~= old(dst)@ + register_callback_bytes(*self));
    }
}

// ---------------------------------------------------------------------------
// USB I/O control codes
// ---------------------------------------------------------------------------

/// The I/O control codes that IO_CONTROL may carry.
#[derive(Debug, PartialEq, Eq, Clone, Copy, Structural)]
pub enum UsbIoctlCode {
    /// `IOCTL_INTERNAL_USB_RESET_PORT` (0x00220007).
    ResetPort,
    /// `IOCTL_INTERNAL_USB_GET_PORT_STATUS` (0x00220013).
    GetPortStatus,
    /// `IOCTL_INTERNAL_USB_GET_HUB_COUNT` (0x0022001B).
    GetHubCount,
    /// `IOCTL_INTERNAL_USB_CYCLE_PORT` (0x0022001F).
    CyclePort,
    /// `IOCTL_INTERNAL_USB_GET_HUB_NAME` (0x00220020).
    GetHubName,
    /// `IOCTL_INTERNAL_USB_GET_BUS_INFO` (0x00220420).
    GetBusInfo,
    /// `IOCTL_INTERNAL_USB_GET_CONTROLLER_NAME` (0x00220424).
    GetControllerName,
}

/// Wire value of an I/O control code.
pub open spec fn ioctl_code_value(c: UsbIoctlCode) -> u32 {
    match c {
        UsbIoctlCode::ResetPort => 0x220007,
        UsbIoctlCode::GetPortStatus => 0x220013,
        UsbIoctlCode::GetHubCount => 0x22001B,
        UsbIoctlCode::CyclePort => 0x22001F,
        UsbIoctlCode::GetHubName => 0x220020,
        UsbIoctlCode::GetBusInfo => 0x220420,
        UsbIoctlCode::GetControllerName => 0x220424,
    }
}

/// The I/O control code whose wire value is `v`, if any.
pub open spec fn ioctl_code_of(v: u32) -> Option<UsbIoctlCode> {
    if v == 0x220007 {
        Some(UsbIoctlCode::ResetPort)
    } else if v == 0x220013 {
        Some(UsbIoctlCode::GetPortStatus)
    } else if v == 0x22001B {
        Some(UsbIoctlCode::GetHubCount)
    } else if v == 0x22001F {
        Some(UsbIoctlCode::CyclePort)
    } else if v == 0x220020 {
        Some(UsbIoctlCode::GetHubName)
    } else if v == 0x220420 {
        Some(UsbIoctlCode::GetBusInfo)
    } else if v == 0x220424 {
        Some(UsbIoctlCode::GetControllerName)
    } else {
        None
    }
}

impl UsbIoctlCode {
    /// Wire size of an I/O control code.
    pub const FIXED_PART_SIZE: usize = 4;

    pub fn as_u32(&self) -> (r: u32)
        ensures
            r == ioctl_code_value(*self),
    {
        match self {
            UsbIoctlCode::ResetPort => 0x220007,
            UsbIoctlCode::GetPortStatus => 0x220013,
            UsbIoctlCode::GetHubCount => 0x22001B,
            UsbIoctlCode::CyclePort => 0x22001F,
            UsbIoctlCode::GetHubName => 0x220020,
            UsbIoctlCode::GetBusInfo => 0x220420,
            UsbIoctlCode::GetControllerName => 0x220424,
        }
    }

    /// The code whose wire value is `value`; any other value is refused.
    pub fn try_from_u32(value: u32) -> (r: Result<UsbIoctlCode, PduError>)
        ensures
            match ioctl_code_of(value) {
                Some(c) => r == Ok::<UsbIoctlCode, PduError>(c),
                None => r == Err::<UsbIoctlCode, PduError>(PduError::UnsupportedValue { field: "IoControlCode", value }),
            },
    {
        if value == 0x220007 {
            Ok(UsbIoctlCode::ResetPort)
        } else if value == 0x220013 {
            Ok(UsbIoctlCode::GetPortStatus)
        } else if value == 0x22001B {
            Ok(UsbIoctlCode::GetHubCount)
        } else if value == 0x22001F {
            Ok(UsbIoctlCode::CyclePort)
        } else if value == 0x220020 {
            Ok(UsbIoctlCode::GetHubName)
        } else if value == 0x220420 {
            Ok(UsbIoctlCode::GetBusInfo)
        } else if value == 0x220424 {
            Ok(UsbIoctlCode::GetControllerName)
        } else {
            Err(PduError::UnsupportedValue { field: "IoControlCode", value })
        }
    }
}

/// Every code reads back from its wire value.
pub proof fn lemma_ioctl_code_roundtrip(c: UsbIoctlCode)
    ensures
        ioctl_code_of(ioctl_code_value(c)) == Some(c),
{
}

// ---------------------------------------------------------------------------
// IO_CONTROL
// ---------------------------------------------------------------------------

/// A USB I/O control request. Every defined code has an empty input buffer.
#[derive(Debug, Clone, Copy)]
pub struct IoCtl {
    pub header: SharedMsgHeader,
    pub ioctl_code: UsbIoctlCode,
    pub output_buffer_size: u32,
    pub request_id: RequestIdIoctl,
}

/// Payload: code, input buffer size (0), output buffer size, request id.
pub open spec fn ioctl_payload(p: IoCtl) -> Seq<u8> {
    le32(ioctl_code_value(p.ioctl_code)) + le32(0) + le32(p.output_buffer_size) + le32(p.request_id)
}

/// Wire form of an I/O control request.
pub open spec fn ioctl_bytes(p: IoCtl) -> Seq<u8> {
    header_bytes(p.header) + ioctl_payload(p)
}

/// The output buffer size that a code demands, if it demands one: none for
/// reset and cycle port, 4 bytes for port status and hub count.
pub open spec fn required_output_size(c: UsbIoctlCode) -> Option<u32> {
    match c {
        UsbIoctlCode::ResetPort | UsbIoctlCode::CyclePort => Some(0),
        UsbIoctlCode::GetPortStatus | UsbIoctlCode::GetHubCount => Some(4),
        _ => None,
    }
}

/// An I/O control request whose output buffer size suits its code.
pub open spec fn ioctl_wf(p: IoCtl) -> bool {
    match required_output_size(p.ioctl_code) {
        Some(n) => p.output_buffer_size == n,
        None => true,
    }
}

/// The payload at the start of `s`, decoded under `header`.
pub open spec fn parse_ioctl(s: Seq<u8>, header: SharedMsgHeader) -> Option<IoCtl> {
    if s.len() < 16 {
        None
    } else {
        match ioctl_code_of(get_le32(s, 0)) {
            None => None,
            Some(code) => {
                let v = IoCtl {
                    header,
                    ioctl_code: code,
                    output_buffer_size: get_le32(s, 8),
                    request_id: get_le32(s, 12),
                };
                if get_le32(s, 4) != 0 || !ioctl_wf(v) {
                    None
                } else {
                    Some(v)
                }
            },
        }
    }
}

impl IoCtl {
    /// Size of the payload that follows the header.
    pub const PAYLOAD_SIZE: usize = 16;
    /// Size of the whole message.
    pub const FIXED_PART_SIZE: usize = 28;

    pub fn name(&self) -> (r: &'static str)
        ensures
            r@ == "IO_CONTROL"@,
    {
        "IO_CONTROL"
    }

    pub fn size(&self) -> (r: usize)
        ensures
            self.header.function_id is Some ==> r == ioctl_bytes(*self).len(),
            r == 28,
    {
        Self::FIXED_PART_SIZE
    }

    /// Decodes the payload at the start of `src` under an already decoded
    /// `header`; returns it with the number of payload bytes consumed.
    /// Refuses an unknown code, a non-empty input buffer, and an output
    /// buffer size that the code does not allow.
    pub fn decode(src: &[u8], header: SharedMsgHeader) -> (r: Result<(IoCtl, usize), PduError>)
        ensures
            match parse_ioctl(src@, header) {
                Some(v) => r matches Ok((w, n)) && w == v && n == 16,
                None => r is Err,
            },
            src@.len() < 16 ==> r matches Err(PduError::NotEnoughBytes { .. }),
    {
        if src.len() < Self::PAYLOAD_SIZE {
            return Err(PduError::NotEnoughBytes { name: "IO_CONTROL", received: src.len(), expected: 16 });
        }
        let ioctl_code = UsbIoctlCode::try_from_u32(read_u32_le(src, 0))?;
        let input_buffer_size = read_u32_le(src, 4);
        if input_buffer_size != 0 {
            return Err(PduError::UnsupportedValue { field: "IO_CONTROL::InputBufferSize", value: input_buffer_size });
        }
        let size = read_u32_le(src, 8);
        match ioctl_code {
            UsbIoctlCode::ResetPort | UsbIoctlCode::CyclePort => {
                if size != 0 {
                    return Err(PduError::UnsupportedValue { field: "IO_CONTROL::OutputBufferSize", value: size });
                }
            },
            UsbIoctlCode::GetPortStatus | UsbIoctlCode::GetHubCount => {
                if size != 4 {
                    return Err(PduError::UnsupportedValue { field: "IO_CONTROL::OutputBufferSize", value: size });
                }
            },
            _ => {},
        }
        let request_id = read_u32_le(src, 12);
        Ok((IoCtl { header, ioctl_code, output_buffer_size: size, request_id }, 16))
    }

    /// Appends the header and the payload.
    pub fn encode(&self, dst: &mut Vec<u8>)
        ensures
            final(dst)@ == old(dst)@ + ioctl_bytes(*self),
    {
        self.header.encode(dst);
        push_u32_le(dst, self.ioctl_code.as_u32());
        push_u32_le(dst, 0);
        push_u32_le(dst, self.output_buffer_size);
        push_u32_le(dst, self.request_id);
        assert(final(dst)@ =~= old(dst)@ + ioctl_bytes(*self));
    }
}

// ---------------------------------------------------------------------------
// INTERNAL_IO_CONTROL
// ---------------------------------------------------------------------------

/// The only internal I/O control code: `IOCTL_TSUSBGD_IOCTL_USBDI_QUERY_BUS_TIME`.
pub const IOCTL_TSUSBGD_IOCTL_USBDI_QUERY_BUS_TIME: u32 = 0x0022_4000;

/// A USB internal I/O control request: querying the bus time, with an empty
/// input buffer and a 4-byte output buffer.
#[derive(Debug, Clone, Copy)]
pub struct InternalIoCtl {
    pub header: SharedMsgHeader,
    pub request_id: RequestIdIoctl,
}

/// Payload: code, input size 0, output size 4, request id.
pub open spec fn internal_ioctl_payload(p: InternalIoCtl) -> Seq<u8> {
    le32(0x0022_4000) + le32(0) + le32(4) + le32(p.request_id)
}

/// Wire form of an internal I/O control request.
pub open spec fn internal_ioctl_bytes(p: InternalIoCtl) -> Seq<u8> {
    header_bytes(p.header) + internal_ioctl_payload(p)
}

/// The payload at the start of `s`, decoded under `header`.
pub open spec fn parse_internal_ioctl(s: Seq<u8>, header: SharedMsgHeader) -> Option<InternalIoCtl> {
    if s.len() < 16 || get_le32(s, 0) != 0x0022_4000 || get_le32(s, 4) != 0 || get_le32(s, 8) != 4 {
        None
    } else {
        Some(InternalIoCtl { header, request_id: get_le32(s, 12) })
    }
}

impl InternalIoCtl {
    /// Size of the payload that follows the header.
    pub const PAYLOAD_SIZE: usize = 16;
    /// Size of the whole message.
    pub const FIXED_PART_SIZE: usize = 28;

    pub fn name(&self) -> (r: &'static str)
        ensures
            r@ == "INTERNAL_IO_CONTROL"@,
    {
        "INTERNAL_IO_CONTROL"
    }

    pub fn size(&self) -> (r: usize)
        ensures
            self.header.function_id is Some ==> r == internal_ioctl_bytes(*self).len(),
            r == 28,
    {
        Self::FIXED_PART_SIZE
    }

    /// Decodes the payload at the start of `src` under an already decoded
    /// `header`; returns it with the number of payload bytes consumed.
    pub fn decode(src: &[u8], header: SharedMsgHeader) -> (r: Result<(InternalIoCtl, usize), PduError>)
        ensures
            match parse_internal_ioctl(src@, header) {
                Some(v) => r matches Ok((w, n)) && w == v && n == 16,
                None => r is Err,
            },
            src@.len() < 16 ==> r matches Err(PduError::NotEnoughBytes { .. }),
    {
        if src.len() < Self::PAYLOAD_SIZE {
            return Err(PduError::NotEnoughBytes { name: "INTERNAL_IO_CONTROL", received: src.len(), expected: 16 });
        }
        let code = read_u32_le(src, 0);
        if code != IOCTL_TSUSBGD_IOCTL_USBDI_QUERY_BUS_TIME {
            return Err(PduError::UnsupportedValue { field: "INTERNAL_IO_CONTROL::IoControlCode", value: code });
        }
        let input_size = read_u32_le(src, 4);
        if input_size != 0 {
            return Err(
                PduError::UnsupportedValue { field: "INTERNAL_IO_CONTROL::InputBufferSize", value: input_size },
            );
        }
        let output_size = read_u32_le(src, 8);
        if output_size != 4 {
            return Err(
                PduError::UnsupportedValue { field: "INTERNAL_IO_CONTROL::OutputBufferSize", value: output_size },
            );
        }
        let request_id = read_u32_le(src, 12);
        Ok((InternalIoCtl { header, request_id }, 16))
    }

    /// Appends the header and the payload.
    pub fn encode(&self, dst: &mut Vec<u8>)
        ensures
            final(dst)@ == old(dst)@ + internal_ioctl_bytes(*self),
    {
        self.header.encode(dst);
        push_u32_le(dst, IOCTL_TSUSBGD_IOCTL_USBDI_QUERY_BUS_TIME);
        push_u32_le(dst, 0);
        push_u32_le(dst, 4);
        push_u32_le(dst, self.request_id);
        assert(final(dst)@ =~= old(dst)@ + internal_ioctl_bytes(*self));
    }
}

// ---------------------------------------------------------------------------
// QUERY_DEVICE_TEXT
// ---------------------------------------------------------------------------

/// Asks the client for a human-readable text of the device.
#[derive(Debug, Clone, Copy)]
pub struct QueryDeviceText {
    pub header: SharedMsgHeader,
    pub text_type: u32,
    pub locale_id: u32,
}

/// Payload: text type, then locale id.
pub open spec fn query_text_payload(p: QueryDeviceText) -> Seq<u8> {
    le32(p.text_type) + le32(p.locale_id)
}

/// Wire form of a device text query.
pub open spec fn query_text_bytes(p: QueryDeviceText) -> Seq<u8> {
    header_bytes(p.header) + query_text_payload(p)
}

/// The payload at the start of `s`, decoded under `header`.
pub open spec fn parse_query_text(s: Seq<u8>, header: SharedMsgHeader) -> Option<QueryDeviceText> {
    if s.len() < 8 {
        None
    } else {
        Some(QueryDeviceText { header, text_type: get_le32(s, 0), locale_id: get_le32(s, 4) })
    }
}

impl QueryDeviceText {
    /// Size of the payload that follows the header.
    pub const PAYLOAD_SIZE: usize = 8;
    /// Size of the whole message.
    pub const FIXED_PART_SIZE: usize = 20;

    pub fn name(&self) -> (r: &'static str)
        ensures
            r@ == "QUERY_DEVICE_TEXT"@,
    {
        "QUERY_DEVICE_TEXT"
    }

    pub fn size(&self) -> (r: usize)
        ensures
            self.header.function_id is Some ==> r == query_text_bytes(*self).len(),
            r == 20,
    {
        Self::FIXED_PART_SIZE
    }

    /// Decodes the payload at the start of `src` under an already decoded
    /// `header`; returns it with the number of payload bytes consumed.
    pub fn decode(src: &[u8], header: SharedMsgHeader) -> (r: Result<(QueryDeviceText, usize), PduError>)
        ensures
            match parse_query_text(src@, header) {
                Some(v) => r matches Ok((w, n)) && w == v && n == 8,
                None => r matches Err(PduError::NotEnoughBytes { .. }),
            },
    {
        if src.len() < Self::PAYLOAD_SIZE {
            return Err(PduError::NotEnoughBytes { name: "QUERY_DEVICE_TEXT", received: src.len(), expected: 8 });
        }
        let text_type = read_u32_le(src, 0);
        let locale_id = read_u32_le(src, 4);
        Ok((QueryDeviceText { header, text_type, locale_id }, 8))
    }

    /// Appends the header and the payload.
    pub fn encode(&self, dst: &mut Vec<u8>)
        ensures
            final(dst)@ == old(dst)@ + query_text_bytes(*self),
    {
        self.header.encode(dst);
        push_u32_le(dst, self.text_type);
        push_u32_le(dst, self.locale_id);
        assert(final(dst)@ =~= old(dst)@ + query_text_bytes(*self));
    }
}

// ---------------------------------------------------------------------------
// Round trips
// ---------------------------------------------------------------------------

/// Reads of the four words of a 16-byte payload followed by anything.
proof fn lemma_four_words(a: u32, b: u32, c: u32, d: u32, rest: Seq<u8>)
    ensures
        ({
            let s = le32(a) + le32(b) + le32(c) + le32(d) + rest;
            &&& s.len() >= 16
            &&& get_le32(s, 0) == a
            &&& get_le32(s, 4) == b
            &&& get_le32(s, 8) == c
            &&& get_le32(s, 12) == d
        }),
{
    let s = le32(a) + le32(b) + le32(c) + le32(d) + rest;
    lemma_read_le32_in(Seq::empty(), a, le32(b) + le32(c) + le32(d) + rest);
    assert(Seq::<u8>::empty() + le32(a) + (le32(b) + le32(c) + le32(d) + rest) =~= s);
    lemma_read_le32_in(le32(a), b, le32(c) + le32(d) + rest);
    assert(le32(a) + le32(b) + (le32(c) + le32(d) + rest) =~= s);
    lemma_read_le32_in(le32(a) + le32(b), c, le32(d) + rest);
    assert(le32(a) + le32(b) + le32(c) + (le32(d) + rest) =~= s);
    lemma_read_le32_in(le32(a) + le32(b) + le32(c), d, rest);
}

proof fn lemma_callback_roundtrip(callback: RegisterRequestCallback, rest: Seq<u8>)
    requires
        callback.request_completion matches Some(id) ==> id.0 < 0x4000_0000,
    ensures
        parse_register_callback(register_callback_payload(callback) + rest, callback.header) == Some(
            (callback, register_callback_payload(callback).len() as int),
        ),
{
    let s = register_callback_payload(callback) + rest;
    match callback.request_completion {
        Some(id) => {
            lemma_read_le32_in(Seq::empty(), 1, le32(id.0) + rest);
            assert(Seq::<u8>::empty() + le32(1) + (le32(id.0) + rest) =~= s);
            lemma_read_le32_in(le32(1), id.0, rest);
            assert(le32(1) + le32(id.0) + rest =~= s);
        },
        None => {
            lemma_read_le32_in(Seq::empty(), 0, rest);
            assert(Seq::<u8>::empty() + le32(0) + rest =~= s);
        },
    }
}

proof fn lemma_ioctl_roundtrip(ioctl: IoCtl, rest: Seq<u8>)
    requires
        ioctl_wf(ioctl),
    ensures
        parse_ioctl(ioctl_payload(ioctl) + rest, ioctl.header) == Some(ioctl),
{
    lemma_four_words(ioctl_code_value(ioctl.ioctl_code), 0, ioctl.output_buffer_size, ioctl.request_id, rest);
    lemma_ioctl_code_roundtrip(ioctl.ioctl_code);
}

proof fn lemma_query_text_roundtrip(query: QueryDeviceText, rest: Seq<u8>)
    ensures
        parse_query_text(query_text_payload(query) + rest, query.header) == Some(query),
{
    lemma_read_le32_in(Seq::empty(), query.text_type, le32(query.locale_id) + rest);
    assert(Seq::<u8>::empty() + le32(query.text_type) + (le32(query.locale_id) + rest) =~= query_text_payload(
        query,
    ) + rest);
    lemma_read_le32_in(le32(query.text_type), query.locale_id, rest);
}

/// Decoding the payload that `encode` wrote gives the message back, for
/// every message of this interface (an I/O control request only when its
/// output buffer size suits its code, a callback only with a 30-bit id).
pub proof fn lemma_usb_dev_roundtrip(
    cancel: CancelRequest,
    callback: RegisterRequestCallback,
    ioctl: IoCtl,
    internal: InternalIoCtl,
    query: QueryDeviceText,
    rest: Seq<u8>,
)
    requires
        ioctl_wf(ioctl),
        callback.request_completion matches Some(id) ==> id.0 < 0x4000_0000,
    ensures
        parse_cancel_request(le32(cancel.request_id) + rest, cancel.header) == Some(cancel),
        parse_register_callback(register_callback_payload(callback) + rest, callback.header) == Some(
            (callback, register_callback_payload(callback).len() as int),
        ),
        parse_ioctl(ioctl_payload(ioctl) + rest, ioctl.header) == Some(ioctl),
        parse_internal_ioctl(internal_ioctl_payload(internal) + rest, internal.header) == Some(internal),
        parse_query_text(query_text_payload(query) + rest, query.header) == Some(query),
{
    lemma_read_le32_in(Seq::empty(), cancel.request_id, rest);
    assert(Seq::<u8>::empty() + le32(cancel.request_id) + rest =~= le32(cancel.request_id) + rest);
    lemma_callback_roundtrip(callback, rest);
    lemma_ioctl_roundtrip(ioctl, rest);
    lemma_four_words(0x0022_4000, 0, 4, internal.request_id, rest);
    lemma_query_text_roundtrip(query, rest);
}

} // verus!
