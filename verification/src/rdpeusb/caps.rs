//! Capability exchange: the server announces its capability version with
//! RIM_EXCHANGE_CAPABILITY_REQUEST and the client answers with
//! RIM_EXCHANGE_CAPABILITY_RESPONSE.

use vstd::prelude::*;

use crate::bytes::{get_le32, le32, lemma_read_le32_in, push_u32_le, read_u32_le};
use crate::error::PduError;
use crate::rdpeusb::header::{SharedMsgHeader, header_bytes};
use crate::rdpeusb::utils::HResult;

verus! {

/// Interface manipulation capability version.
#[derive(Debug, Clone, Copy, PartialEq, Eq, Structural)]
pub enum Capability {
    /// `RIM_CAPABILITY_VERSION_01` (1).
    RimCapabilityVersion01,
}

/// Wire value of `RIM_CAPABILITY_VERSION_01`.
pub const RIM_CAPABILITY_VERSION_01: u32 = 1;

impl Capability {
    /// Wire size of a capability field.
    pub const FIXED_PART_SIZE: usize = 4;

    /// The capability whose wire value is `value`; only 1 is defined.
    pub fn try_from_u32(value: u32) -> (r: Result<Capability, PduError>)
        ensures
            value == 1 ==> r == Ok::<Capability, PduError>(Capability::RimCapabilityVersion01),
            value != 1 ==> r == Err::<Capability, PduError>(
                PduError::UnsupportedValue { field: "CapabilityValue", value },
            ),
    {
        if value == RIM_CAPABILITY_VERSION_01 {
            Ok(Capability::RimCapabilityVersion01)
        } else {
            Err(PduError::UnsupportedValue { field: "CapabilityValue", value })
        }
    }

    pub fn as_u32(&self) -> (r: u32)
        ensures
            r == 1,
    {
        RIM_CAPABILITY_VERSION_01
    }
}

/// Sent by the server to announce its capability version.
#[derive(Debug, Clone, Copy)]
pub struct RimExchangeCapabilityRequest {
    pub header: SharedMsgHeader,
    pub capability: Capability,
}

/// Payload of a capability request: the capability version.
pub open spec fn caps_request_payload() -> Seq<u8> {
    le32(1)
}

/// Wire form of a capability request.
pub open spec fn caps_request_bytes(p: RimExchangeCapabilityRequest) -> Seq<u8> {
    header_bytes(p.header) + caps_request_payload()
}

/// The payload at the start of `s`, decoded under `header`.
pub open spec fn parse_caps_request(s: Seq<u8>, header: SharedMsgHeader) -> Option<RimExchangeCapabilityRequest> {
    if s.len() < 4 || get_le32(s, 0) != 1 {
        None
    } else {
        Some(RimExchangeCapabilityRequest { header, capability: Capability::RimCapabilityVersion01 })
    }
}

impl RimExchangeCapabilityRequest {
    /// Size of the payload that follows the header.
    pub const PAYLOAD_SIZE: usize = 4;
    /// Size of the whole message.
    pub const FIXED_PART_SIZE: usize = 16;

    pub fn name(&self) -> (r: &'static str)
        ensures
            r@ == "RIM_EXCHANGE_CAPABILITY_REQUEST"@,
    {
        "RIM_EXCHANGE_CAPABILITY_REQUEST"
    }

    pub fn size(&self) -> (r: usize)
        ensures
            self.header.function_id is Some ==> r == caps_request_bytes(*self).len(),
            r == 16,
    {
        Self::FIXED_PART_SIZE
    }

    /// Decodes the payload at the start of `src` under an already decoded
    /// `header`; returns it with the number of payload bytes consumed.
    pub fn decode(src: &[u8], header: SharedMsgHeader) -> (r: Result<(RimExchangeCapabilityRequest, usize), PduError>)
        ensures
            match parse_caps_request(src@, header) {
                Some(v) => r matches Ok((w, n)) && w == v && n == 4,
                None => r is Err,
            },
            src@.len() < 4 ==> r matches Err(PduError::NotEnoughBytes { .. }),
    {
        if src.len() < 4 {
            return Err(
                PduError::NotEnoughBytes { name: "RIM_EXCHANGE_CAPABILITY_REQUEST", received: src.len(), expected: 4 },
            );
        }
        let capability = Capability::try_from_u32(read_u32_le(src, 0))?;
        Ok((RimExchangeCapabilityRequest { header, capability }, 4))
    }

    /// Appends the header and the payload.
    pub fn encode(&self, dst: &mut Vec<u8>)
        ensures
            final(dst)@ == old(dst)@ + caps_request_bytes(*self),
    {
        self.header.encode(dst);
        push_u32_le(dst, self.capability.as_u32());
        assert(final(dst)@ =~= old(dst)@ + caps_request_bytes(*self));
    }
}

/// Sent by the client in answer to a capability request.
#[derive(Debug, Clone, Copy)]
pub struct RimExchangeCapabilityResponse {
    pub header: SharedMsgHeader,
    pub capability: Capability,
    pub result: HResult,
}

/// Payload of a capability response: version, then result code.
pub open spec fn caps_response_payload(p: RimExchangeCapabilityResponse) -> Seq<u8> {
    le32(1) + le32(p.result)
}

/// Wire form of a capability response.
pub open spec fn caps_response_bytes(p: RimExchangeCapabilityResponse) -> Seq<u8> {
    header_bytes(p.header) + caps_response_payload(p)
}

/// The payload at the start of `s`, decoded under `header`.
pub open spec fn parse_caps_response(s: Seq<u8>, header: SharedMsgHeader) -> Option<RimExchangeCapabilityResponse> {
    if s.len() < 8 || get_le32(s, 0) != 1 {
        None
    } else {
        Some(
            RimExchangeCapabilityResponse {
                header,
                capability: Capability::RimCapabilityVersion01,
                result: get_le32(s, 4),
            },
        )
    }
}

impl RimExchangeCapabilityResponse {
    /// Size of the payload that follows the header.
    pub const PAYLOAD_SIZE: usize = 8;
    /// Size of the whole message (a response header has no function id).
    pub const FIXED_PART_SIZE: usize = 16;

    pub fn name(&self) -> (r: &'static str)
        ensures
            r@ == "RIM_EXCHANGE_CAPABILITY_RESPONSE"@,
    {
        "RIM_EXCHANGE_CAPABILITY_RESPONSE"
    }

    pub fn size(&self) -> (r: usize)
        ensures
            self.header.function_id is None ==> r == caps_response_bytes(*self).len(),
            r == 16,
    {
        Self::FIXED_PART_SIZE
    }

    /// Decodes the payload at the start of `src` under an already decoded
    /// `header`; returns it with the number of payload bytes consumed.
    pub fn decode(src: &[u8], header: SharedMsgHeader) -> (r: Result<(RimExchangeCapabilityResponse, usize), PduError>)
        ensures
            match parse_caps_response(src@, header) {
                Some(v) => r matches Ok((w, n)) && w == v && n == 8,
                None => r is Err,
            },
            src@.len() < 8 ==> r matches Err(PduError::NotEnoughBytes { .. }),
    {
        if src.len() < 8 {
            return Err(
                PduError::NotEnoughBytes { name: "RIM_EXCHANGE_CAPABILITY_RESPONSE", received: src.len(), expected: 8 },
            );
        }
        let capability = Capability::try_from_u32(read_u32_le(src, 0))?;
        let result = read_u32_le(src, 4);
        Ok((RimExchangeCapabilityResponse { header, capability, result }, 8))
    }

    /// Appends the header and the payload.
    pub fn encode(&self, dst: &mut Vec<u8>)
        ensures
            final(dst)@ == old(dst)@ + caps_response_bytes(*self),
    {
        self.header.encode(dst);
        push_u32_le(dst, self.capability.as_u32());
        push_u32_le(dst, self.result);
        assert(final(dst)@ =~= old(dst)@ + caps_response_bytes(*self));
    }
}

/// Decoding the payload that `encode` wrote gives the message back.
pub proof fn lemma_caps_roundtrip(
    req: RimExchangeCapabilityRequest,
    rsp: RimExchangeCapabilityResponse,
    rest: Seq<u8>,
)
    ensures
        parse_caps_request(caps_request_payload() + rest, req.header) == Some(req),
        parse_caps_response(caps_response_payload(rsp) + rest, rsp.header) == Some(rsp),
{
    lemma_read_le32_in(Seq::empty(), 1, rest);
    assert(Seq::<u8>::empty() + le32(1) + rest =~= caps_request_payload() + rest);
    lemma_read_le32_in(Seq::empty(), 1, le32(rsp.result) + rest);
    lemma_read_le32_in(le32(1), rsp.result, rest);
    assert(Seq::<u8>::empty() + le32(1) + (le32(rsp.result) + rest) =~= caps_response_payload(rsp) + rest);
    assert(le32(1) + le32(rsp.result) + rest =~= caps_response_payload(rsp) + rest);
}

} // verus!
