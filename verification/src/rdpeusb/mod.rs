//! URBDRC, the USB devices redirection virtual channel: message headers,
//! capability exchange, device sink and USB device interface messages, and
//! the header of the USB request blocks carried over the channel.

pub mod header;
pub mod utils;
pub mod caps;
pub mod usb_dev;
pub mod dev_sink;
pub mod ts_urb;

use vstd::prelude::*;

use crate::rdpeusb::caps::{RimExchangeCapabilityRequest, caps_request_bytes};
use crate::rdpeusb::usb_dev::{
    CancelRequest, RegisterRequestCallback, cancel_request_bytes, register_callback_bytes,
};

verus! {

/// Name of the static virtual channel that carries URBDRC.
pub const CHANNEL_NAME: &'static str = "URBDRC";

/// The messages that the server sends to the client. Decoding is left to
/// callers that have decoded the header and know the interface, since the
/// ids of the USB Device and Request Completion interfaces are assigned at
/// run time.
#[derive(Debug, Clone, Copy)]
pub enum UrbdrcServerPdu {
    /// Capability exchange request.
    Caps(RimExchangeCapabilityRequest),
    /// Cancels an outstanding I/O request.
    CancelReq(CancelRequest),
    /// Registers (or unregisters) the Request Completion interface.
    RegReqCallback(RegisterRequestCallback),
}

/// Wire form of a server message: that of the message it holds.
pub open spec fn server_pdu_bytes(p: UrbdrcServerPdu) -> Seq<u8> {
    match p {
        UrbdrcServerPdu::Caps(m) => caps_request_bytes(m),
        UrbdrcServerPdu::CancelReq(m) => cancel_request_bytes(m),
        UrbdrcServerPdu::RegReqCallback(m) => register_callback_bytes(m),
    }
}

impl UrbdrcServerPdu {
    /// Appends the wire form of the message held.
    pub fn encode(&self, dst: &mut Vec<u8>)
        ensures
            final(dst)@ == old(dst)@ + server_pdu_bytes(*self),
    {
        match self {
            UrbdrcServerPdu::Caps(pdu) => pdu.encode(dst),
            UrbdrcServerPdu::CancelReq(pdu) => pdu.encode(dst),
            UrbdrcServerPdu::RegReqCallback(pdu) => pdu.encode(dst),
        }
    }

    /// Name of the message held.
    pub fn name(&self) -> (r: &'static str)
        ensures
            match *self {
                UrbdrcServerPdu::Caps(_) => r@ == "RIM_EXCHANGE_CAPABILITY_REQUEST"@,
                UrbdrcServerPdu::CancelReq(_) => r@ == "CANCEL_REQUEST"@,
                UrbdrcServerPdu::RegReqCallback(_) => r@ == "REGISTER_REQUEST_CALLBACK"@,
            },
    {
        match self {
            UrbdrcServerPdu::Caps(pdu) => pdu.name(),
            UrbdrcServerPdu::CancelReq(pdu) => pdu.name(),
            UrbdrcServerPdu::RegReqCallback(pdu) => pdu.name(),
        }
    }

    /// Size of the message held, as its own `size` gives it.
    pub fn size(&self) -> (r: usize)
        ensures
            (match *self {
                UrbdrcServerPdu::Caps(m) => m.header.function_id is Some,
                UrbdrcServerPdu::CancelReq(m) => m.header.function_id is Some,
                UrbdrcServerPdu::RegReqCallback(m) => m.header.function_id is Some,
            }) ==> r == server_pdu_bytes(*self).len(),
            match *self {
                UrbdrcServerPdu::Caps(_) => r == 16,
                UrbdrcServerPdu::CancelReq(_) => r == 16,
                UrbdrcServerPdu::RegReqCallback(m) => r == (if m.request_completion is Some { 20int } else { 16int }),
            },
    {
        match self {
            UrbdrcServerPdu::Caps(pdu) => pdu.size(),
            UrbdrcServerPdu::CancelReq(pdu) => pdu.size(),
            UrbdrcServerPdu::RegReqCallback(pdu) => pdu.size(),
        }
    }
}

} // verus!
