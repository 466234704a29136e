//! The header shared by all USB request block structures (TS_URB_HEADER)
//! and the URB function codes it carries.

use vstd::prelude::*;

use crate::bytes::{get_le16, get_le32, le16, le32, lemma_read_le16_in, lemma_read_le32_in, push_u16_le, push_u32_le, read_u16_le, read_u32_le};
use crate::error::PduError;
use crate::rdpeusb::utils::RequestIdTsUrb;

verus! {

/// The operation that a USB request block asks for (the `Function` field of
/// the URB header).
#[derive(Debug, Clone, Copy, PartialEq, Eq, Structural)]
pub enum UrbFunction {
    /// `URB_FUNCTION_SELECT_CONFIGURATION` (0).
    SelectConfiguration,
    /// `URB_FUNCTION_SELECT_INTERFACE` (1).
    SelectInterface,
    /// `URB_FUNCTION_ABORT_PIPE` (2).
    AbortPipe,
    /// `URB_FUNCTION_GET_CURRENT_FRAME_NUMBER` (7).
    GetCurrentFrameNumber,
    /// `URB_FUNCTION_CONTROL_TRANSFER` (8).
    ControlTransfer,
    /// `URB_FUNCTION_BULK_OR_INTERRUPT_TRANSFER` (9).
    BulkOrInterruptTransfer,
    /// `URB_FUNCTION_ISOCH_TRANSFER` (10).
    IsochTransfer,
    /// `URB_FUNCTION_GET_DESCRIPTOR_FROM_DEVICE` (11).
    GetDescriptorFromDevice,
    /// `URB_FUNCTION_SET_DESCRIPTOR_TO_DEVICE` (12).
    SetDescriptorToDevice,
    /// `URB_FUNCTION_SET_FEATURE_TO_DEVICE` (13).
    SetFeatureToDevice,
    /// `URB_FUNCTION_SET_FEATURE_TO_INTERFACE` (14).
    SetFeatureToInterface,
    /// `URB_FUNCTION_SET_FEATURE_TO_ENDPOINT` (15).
    SetFeatureToEndpoint,
    /// `URB_FUNCTION_CLEAR_FEATURE_TO_DEVICE` (16).
    ClearFeatureToDevice,
    /// `URB_FUNCTION_CLEAR_FEATURE_TO_INTERFACE` (17).
    ClearFeatureToInterface,
    /// `URB_FUNCTION_CLEAR_FEATURE_TO_ENDPOINT` (18).
    ClearFeatureToEndpoint,
    /// `URB_FUNCTION_GET_STATUS_FROM_DEVICE` (19).
    GetStatusFromDevice,
    /// `URB_FUNCTION_GET_STATUS_FROM_INTERFACE` (20).
    GetStatusFromInterface,
    /// `URB_FUNCTION_GET_STATUS_FROM_ENDPOINT` (21).
    GetStatusFromEndpoint,
    /// `URB_FUNCTION_VENDOR_DEVICE` (23).
    VendorDevice,
    /// `URB_FUNCTION_VENDOR_INTERFACE` (24).
    VendorInterface,
    /// `URB_FUNCTION_VENDOR_ENDPOINT` (25).
    VendorEndpoint,
    /// `URB_FUNCTION_CLASS_DEVICE` (26).
    ClassDevice,
    /// `URB_FUNCTION_CLASS_INTERFACE` (27).
    ClassInterface,
    /// `URB_FUNCTION_CLASS_ENDPOINT` (28).
    ClassEndpoint,
    /// `URB_FUNCTION_SYNC_RESET_PIPE_AND_CLEAR_STALL` (30).
    SyncResetPipeAndClearStall,
    /// `URB_FUNCTION_CLASS_OTHER` (31).
    ClassOther,
    /// `URB_FUNCTION_VENDOR_OTHER` (32).
    VendorOther,
    /// `URB_FUNCTION_GET_STATUS_FROM_OTHER` (33).
    GetStatusFromOther,
    /// `URB_FUNCTION_CLEAR_FEATURE_TO_OTHER` (34).
    ClearFeatureToOther,
    /// `URB_FUNCTION_SET_FEATURE_TO_OTHER` (35).
    SetFeatureToOther,
    /// `URB_FUNCTION_GET_DESCRIPTOR_FROM_ENDPOINT` (36).
    GetDescriptorFromEndpoint,
    /// `URB_FUNCTION_SET_DESCRIPTOR_TO_ENDPOINT` (37).
    SetDescriptorToEndpoint,
    /// `URB_FUNCTION_GET_CONFIGURATION` (38).
    GetConfiguration,
    /// `URB_FUNCTION_GET_INTERFACE` (39).
    GetInterface,
    /// `URB_FUNCTION_GET_DESCRIPTOR_FROM_INTERFACE` (40).
    GetDescriptorFromInterface,
    /// `URB_FUNCTION_SET_DESCRIPTOR_TO_INTERFACE` (41).
    SetDescriptorToInterface,
    /// `URB_FUNCTION_GET_MS_FEATURE_DESCRIPTOR` (42).
    GetMsFeatureDescriptor,
    /// `URB_FUNCTION_SYNC_RESET_PIPE` (48).
    SyncResetPipe,
    /// `URB_FUNCTION_SYNC_CLEAR_STALL` (49).
    SyncClearStall,
    /// `URB_FUNCTION_CONTROL_TRANSFER_EX` (50).
    ControlTransferEx,
    /// `URB_FUNCTION_CLOSE_STATIC_STREAMS` (54).
    CloseStaticStreams,
    /// `URB_FUNCTION_BULK_OR_INTERRUPT_TRANSFER_USING_CHAINED_MDL` (55).
    BulkOrInterruptTransferUsingChainedMdl,
    /// `URB_FUNCTION_ISOCH_TRANSFER_USING_CHAINED_MDL` (56).
    IsochTransferUsingChainedMdl,
}

/// Wire value of a URB function.
pub open spec fn urb_function_value(f: UrbFunction) -> u16 {
    match f {
        UrbFunction::SelectConfiguration => 0,
        UrbFunction::SelectInterface => 1,
        UrbFunction::AbortPipe => 2,
        UrbFunction::GetCurrentFrameNumber => 7,
        UrbFunction::ControlTransfer => 8,
        UrbFunction::BulkOrInterruptTransfer => 9,
        UrbFunction::IsochTransfer => 10,
        UrbFunction::GetDescriptorFromDevice => 11,
        UrbFunction::SetDescriptorToDevice => 12,
        UrbFunction::SetFeatureToDevice => 13,
        UrbFunction::SetFeatureToInterface => 14,
        UrbFunction::SetFeatureToEndpoint => 15,
        UrbFunction::ClearFeatureToDevice => 16,
        UrbFunction::ClearFeatureToInterface => 17,
        UrbFunction::ClearFeatureToEndpoint => 18,
        UrbFunction::GetStatusFromDevice => 19,
        UrbFunction::GetStatusFromInterface => 20,
        UrbFunction::GetStatusFromEndpoint => 21,
        UrbFunction::VendorDevice => 23,
        UrbFunction::VendorInterface => 24,
        UrbFunction::VendorEndpoint => 25,
        UrbFunction::ClassDevice => 26,
        UrbFunction::ClassInterface => 27,
        UrbFunction::ClassEndpoint => 28,
        UrbFunction::SyncResetPipeAndClearStall => 30,
        UrbFunction::ClassOther => 31,
        UrbFunction::VendorOther => 32,
        UrbFunction::GetStatusFromOther => 33,
        UrbFunction::ClearFeatureToOther => 34,
        UrbFunction::SetFeatureToOther => 35,
        UrbFunction::GetDescriptorFromEndpoint => 36,
        UrbFunction::SetDescriptorToEndpoint => 37,
        UrbFunction::GetConfiguration => 38,
        UrbFunction::GetInterface => 39,
        UrbFunction::GetDescriptorFromInterface => 40,
        UrbFunction::SetDescriptorToInterface => 41,
        UrbFunction::GetMsFeatureDescriptor => 42,
        UrbFunction::SyncResetPipe => 48,
        UrbFunction::SyncClearStall => 49,
        UrbFunction::ControlTransferEx => 50,
        UrbFunction::CloseStaticStreams => 54,
        UrbFunction::BulkOrInterruptTransferUsingChainedMdl => 55,
        UrbFunction::IsochTransferUsingChainedMdl => 56,
    }
}

/// The URB function whose wire value is `v`, if any.
pub open spec fn urb_function_of(v: u16) -> Option<UrbFunction> {
    match v {
        0 => Some(UrbFunction::SelectConfiguration),
        1 => Some(UrbFunction::SelectInterface),
        2 => Some(UrbFunction::AbortPipe),
        7 => Some(UrbFunction::GetCurrentFrameNumber),
        8 => Some(UrbFunction::ControlTransfer),
        9 => Some(UrbFunction::BulkOrInterruptTransfer),
        10 => Some(UrbFunction::IsochTransfer),
        11 => Some(UrbFunction::GetDescriptorFromDevice),
        12 => Some(UrbFunction::SetDescriptorToDevice),
        13 => Some(UrbFunction::SetFeatureToDevice),
        14 => Some(UrbFunction::SetFeatureToInterface),
        15 => Some(UrbFunction::SetFeatureToEndpoint),
        16 => Some(UrbFunction::ClearFeatureToDevice),
        17 => Some(UrbFunction::ClearFeatureToInterface),
        18 => Some(UrbFunction::ClearFeatureToEndpoint),
        19 => Some(UrbFunction::GetStatusFromDevice),
        20 => Some(UrbFunction::GetStatusFromInterface),
        21 => Some(UrbFunction::GetStatusFromEndpoint),
        23 => Some(UrbFunction::VendorDevice),
        24 => Some(UrbFunction::VendorInterface),
        25 => Some(UrbFunction::VendorEndpoint),
        26 => Some(UrbFunction::ClassDevice),
        27 => Some(UrbFunction::ClassInterface),
        28 => Some(UrbFunction::ClassEndpoint),
        30 => Some(UrbFunction::SyncResetPipeAndClearStall),
        31 => Some(UrbFunction::ClassOther),
        32 => Some(UrbFunction::VendorOther),
        33 => Some(UrbFunction::GetStatusFromOther),
        34 => Some(UrbFunction::ClearFeatureToOther),
        35 => Some(UrbFunction::SetFeatureToOther),
        36 => Some(UrbFunction::GetDescriptorFromEndpoint),
        37 => Some(UrbFunction::SetDescriptorToEndpoint),
        38 => Some(UrbFunction::GetConfiguration),
        39 => Some(UrbFunction::GetInterface),
        40 => Some(UrbFunction::GetDescriptorFromInterface),
        41 => Some(UrbFunction::SetDescriptorToInterface),
        42 => Some(UrbFunction::GetMsFeatureDescriptor),
        48 => Some(UrbFunction::SyncResetPipe),
        49 => Some(UrbFunction::SyncClearStall),
        50 => Some(UrbFunction::ControlTransferEx),
        54 => Some(UrbFunction::CloseStaticStreams),
        55 => Some(UrbFunction::BulkOrInterruptTransferUsingChainedMdl),
        56 => Some(UrbFunction::IsochTransferUsingChainedMdl),
        _ => None,
    }
}

impl UrbFunction {
    pub fn as_u16(&self) -> (r: u16)
        ensures
            r == urb_function_value(*self),
    {
        match self {
            UrbFunction::SelectConfiguration => 0,
            UrbFunction::SelectInterface => 1,
            UrbFunction::AbortPipe => 2,
            UrbFunction::GetCurrentFrameNumber => 7,
            UrbFunction::ControlTransfer => 8,
            UrbFunction::BulkOrInterruptTransfer => 9,
            UrbFunction::IsochTransfer => 10,
            UrbFunction::GetDescriptorFromDevice => 11,
            UrbFunction::SetDescriptorToDevice => 12,
            UrbFunction::SetFeatureToDevice => 13,
            UrbFunction::SetFeatureToInterface => 14,
            UrbFunction::SetFeatureToEndpoint => 15,
            UrbFunction::ClearFeatureToDevice => 16,
            UrbFunction::ClearFeatureToInterface => 17,
            UrbFunction::ClearFeatureToEndpoint => 18,
            UrbFunction::GetStatusFromDevice => 19,
            UrbFunction::GetStatusFromInterface => 20,
            UrbFunction::GetStatusFromEndpoint => 21,
            UrbFunction::VendorDevice => 23,
            UrbFunction::VendorInterface => 24,
            UrbFunction::VendorEndpoint => 25,
            UrbFunction::ClassDevice => 26,
            UrbFunction::ClassInterface => 27,
            UrbFunction::ClassEndpoint => 28,
            UrbFunction::SyncResetPipeAndClearStall => 30,
            UrbFunction::ClassOther => 31,
            UrbFunction::VendorOther => 32,
            UrbFunction::GetStatusFromOther => 33,
            UrbFunction::ClearFeatureToOther => 34,
            UrbFunction::SetFeatureToOther => 35,
            UrbFunction::GetDescriptorFromEndpoint => 36,
            UrbFunction::SetDescriptorToEndpoint => 37,
            UrbFunction::GetConfiguration => 38,
            UrbFunction::GetInterface => 39,
            UrbFunction::GetDescriptorFromInterface => 40,
            UrbFunction::SetDescriptorToInterface => 41,
            UrbFunction::GetMsFeatureDescriptor => 42,
            UrbFunction::SyncResetPipe => 48,
            UrbFunction::SyncClearStall => 49,
            UrbFunction::ControlTransferEx => 50,
            UrbFunction::CloseStaticStreams => 54,
            UrbFunction::BulkOrInterruptTransferUsingChainedMdl => 55,
            UrbFunction::IsochTransferUsingChainedMdl => 56,
        }
    }

    /// The function whose wire value is `value`; any other value is refused.
    pub fn try_from_u16(value: u16) -> (r: Result<UrbFunction, PduError>)
        ensures
            match urb_function_of(value) {
                Some(f) => r == Ok::<UrbFunction, PduError>(f),
                None => r == Err::<UrbFunction, PduError>(PduError::UnsupportedValue { field: "UrbFunction", value: value as u32 }),
            },
    {
        match value {
            0 => Ok(UrbFunction::SelectConfiguration),
            1 => Ok(UrbFunction::SelectInterface),
            2 => Ok(UrbFunction::AbortPipe),
            7 => Ok(UrbFunction::GetCurrentFrameNumber),
            8 => Ok(UrbFunction::ControlTransfer),
            9 => Ok(UrbFunction::BulkOrInterruptTransfer),
            10 => Ok(UrbFunction::IsochTransfer),
            11 => Ok(UrbFunction::GetDescriptorFromDevice),
            12 => Ok(UrbFunction::SetDescriptorToDevice),
            13 => Ok(UrbFunction::SetFeatureToDevice),
            14 => Ok(UrbFunction::SetFeatureToInterface),
            15 => Ok(UrbFunction::SetFeatureToEndpoint),
            16 => Ok(UrbFunction::ClearFeatureToDevice),
            17 => Ok(UrbFunction::ClearFeatureToInterface),
            18 => Ok(UrbFunction::ClearFeatureToEndpoint),
            19 => Ok(UrbFunction::GetStatusFromDevice),
            20 => Ok(UrbFunction::GetStatusFromInterface),
            21 => Ok(UrbFunction::GetStatusFromEndpoint),
            23 => Ok(UrbFunction::VendorDevice),
            24 => Ok(UrbFunction::VendorInterface),
            25 => Ok(UrbFunction::VendorEndpoint),
            26 => Ok(UrbFunction::ClassDevice),
            27 => Ok(UrbFunction::ClassInterface),
            28 => Ok(UrbFunction::ClassEndpoint),
            30 => Ok(UrbFunction::SyncResetPipeAndClearStall),
            31 => Ok(UrbFunction::ClassOther),
            32 => Ok(UrbFunction::VendorOther),
            33 => Ok(UrbFunction::GetStatusFromOther),
            34 => Ok(UrbFunction::ClearFeatureToOther),
            35 => Ok(UrbFunction::SetFeatureToOther),
            36 => Ok(UrbFunction::GetDescriptorFromEndpoint),
            37 => Ok(UrbFunction::SetDescriptorToEndpoint),
            38 => Ok(UrbFunction::GetConfiguration),
            39 => Ok(UrbFunction::GetInterface),
            40 => Ok(UrbFunction::GetDescriptorFromInterface),
            41 => Ok(UrbFunction::SetDescriptorToInterface),
            42 => Ok(UrbFunction::GetMsFeatureDescriptor),
            48 => Ok(UrbFunction::SyncResetPipe),
            49 => Ok(UrbFunction::SyncClearStall),
            50 => Ok(UrbFunction::ControlTransferEx),
            54 => Ok(UrbFunction::CloseStaticStreams),
            55 => Ok(UrbFunction::BulkOrInterruptTransferUsingChainedMdl),
            56 => Ok(UrbFunction::IsochTransferUsingChainedMdl),
            _ => Err(PduError::UnsupportedValue { field: "UrbFunction", value: value as u32 }),
        }
    }
}

/// Every function reads back from its wire value.
pub proof fn lemma_urb_function_roundtrip(f: UrbFunction)
    ensures
        urb_function_of(urb_function_value(f)) == Some(f),
{
}

/// Header of every `TS_URB_*` structure.
#[derive(Debug, Clone, Copy)]
pub struct TsUrbHeader {
    /// Size in bytes of the whole `TS_URB_*` structure.
    pub size: u16,
    pub urb_function: UrbFunction,
    /// Id of the TRANSFER_IN_REQUEST or TRANSFER_OUT_REQUEST.
    pub request_id: RequestIdTsUrb,
    /// The client sends no completion message for this request.
    pub no_ack: bool,
}

/// The last word of the header: the 31-bit request id, and the no-ack flag
/// in the top bit.
pub open spec fn urb_last_word(h: TsUrbHeader) -> u32 {
    (h.request_id.spec_value() + if h.no_ack { 0x8000_0000u32 } else { 0u32 }) as u32
}

/// Wire form of a URB header.
pub open spec fn ts_urb_header_bytes(h: TsUrbHeader) -> Seq<u8> {
    le16(h.size) + le16(urb_function_value(h.urb_function)) + le32(urb_last_word(h))
}

/// The fields of the header at the start of `s`: size, function, request id
/// (the low 31 bits of the last word) and no-ack flag (its top bit).
pub open spec fn ts_urb_header_fields(s: Seq<u8>) -> Option<(u16, UrbFunction, u32, bool)> {
    if s.len() < 8 {
        None
    } else {
        match urb_function_of(get_le16(s, 2)) {
            None => None,
            Some(f) => Some((get_le16(s, 0), f, get_le32(s, 4) % 0x8000_0000, get_le32(s, 4) >= 0x8000_0000)),
        }
    }
}

/// `h` holds exactly the fields decoded from `s`.
pub open spec fn ts_urb_header_matches(h: TsUrbHeader, s: Seq<u8>) -> bool {
    ts_urb_header_fields(s) == Some((h.size, h.urb_function, h.request_id.spec_value(), h.no_ack))
}

impl TsUrbHeader {
    /// Size of the header.
    pub const FIXED_PART_SIZE: usize = 8;

    pub fn name(&self) -> (r: &'static str)
        ensures
            r@ == "TS_URB_HEADER"@,
    {
        "TS_URB_HEADER"
    }

    pub fn size(&self) -> (r: usize)
        ensures
            r == ts_urb_header_bytes(*self).len(),
            r == 8,
    {
        Self::FIXED_PART_SIZE
    }

    /// Appends the 8-byte wire form.
    pub fn encode(&self, dst: &mut Vec<u8>)
        ensures
            final(dst)@ == old(dst)@ + ts_urb_header_bytes(*self),
    {
        push_u16_le(dst, self.size);
        push_u16_le(dst, self.urb_function.as_u16());
        let id = self.request_id.value();
        let no_ack: u32 = if self.no_ack { 1 } else { 0 };
        let last = id | (no_ack << 31);
        assert(id | (no_ack << 31) == (id + if no_ack == 1 { 0x8000_0000u32 } else { 0u32 }) as u32) by (bit_vector)
            requires
                id < 0x8000_0000,
                no_ack <= 1,
        ;
        push_u32_le(dst, last);
        assert(final(dst)@ =~= old(dst)@ + ts_urb_header_bytes(*self));
    }

    /// Decodes the header at the start of `src`; returns it with the number
    /// of bytes consumed. An unknown function code is refused.
    pub fn decode(src: &[u8]) -> (r: Result<(TsUrbHeader, usize), PduError>)
        ensures
            r is Ok <==> ts_urb_header_fields(src@) is Some,
            r matches Ok((h, n)) ==> ts_urb_header_matches(h, src@) && n == 8,
            src@.len() < 8 ==> r matches Err(PduError::NotEnoughBytes { .. }),
    {
        if src.len() < Self::FIXED_PART_SIZE {
            return Err(PduError::NotEnoughBytes { name: "TS_URB_HEADER", received: src.len(), expected: 8 });
        }
        let size = read_u16_le(src, 0);
        let urb_function = UrbFunction::try_from_u16(read_u16_le(src, 2))?;
        let last = read_u32_le(src, 4);
        let request_id = RequestIdTsUrb::from_u32(last);
        let no_ack = (last >> 31) != 0;
        assert(((last >> 31) != 0) == (last >= 0x8000_0000)) by (bit_vector);
        Ok((TsUrbHeader { size, urb_function, request_id, no_ack }, 8))
    }
}

/// Decoding what `encode` wrote gives the same header back, whatever
/// follows it.
pub proof fn lemma_ts_urb_header_roundtrip(h: TsUrbHeader, rest: Seq<u8>)
    requires
        h.request_id.spec_value() < 0x8000_0000,
    ensures
        ts_urb_header_matches(h, ts_urb_header_bytes(h) + rest),
{
    let a = le16(h.size);
    let b = le16(urb_function_value(h.urb_function));
    let w = urb_last_word(h);
    let s = ts_urb_header_bytes(h) + rest;
    lemma_read_le16_in(Seq::empty(), h.size, b + le32(w) + rest);
    assert(Seq::<u8>::empty() + a + (b + le32(w) + rest) =~= s);
    lemma_read_le16_in(a, urb_function_value(h.urb_function), le32(w) + rest);
    assert(a + b + (le32(w) + rest) =~= s);
    lemma_read_le32_in(a + b, w, rest);
    lemma_urb_function_roundtrip(h.urb_function);
    let id = h.request_id.spec_value();
    assert(w % 0x8000_0000 == id && (w >= 0x8000_0000) == h.no_ack);
}

} // verus!
