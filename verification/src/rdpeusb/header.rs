//! The header that starts every URBDRC message (SHARED_MSG_HEADER).
//!
//! The first 32-bit word holds the interface id in its low 30 bits and the
//! mask in its top two bits; then come the message id and, on every message
//! that is not a response, the function id.

use vstd::prelude::*;

use crate::bytes::{get_le32, le32, lemma_get_le32_at, push_u32_le, read_u32_le};
use crate::error::PduError;

verus! {

/// 2^30: the interface id occupies the bits below this one.
pub const INTERFACE_ID_LIMIT: u32 = 0x4000_0000;

/// An interface id: a 30-bit number that names one interface of a channel.
#[derive(Debug, Clone, Copy, PartialEq, Eq, Structural)]
pub struct InterfaceId(pub u32);

impl InterfaceId {
    /// Wire size of an interface id field.
    pub const FIXED_PART_SIZE: usize = 4;

    /// Keeps the low 30 bits of `value`.
    pub fn from_u32(value: u32) -> (r: InterfaceId)
        ensures
            r.0 == value % 0x4000_0000,
    {
        assert(value & 0x3FFF_FFFF == value % 0x4000_0000) by (bit_vector);
        InterfaceId(value & 0x3FFF_FFFF)
    }

    pub fn value(&self) -> (r: u32)
        ensures
            r == self.0,
    {
        self.0
    }
}

/// Which side of an interface a message belongs to.
#[derive(Debug, Clone, Copy, PartialEq, Eq, Structural)]
pub enum Mask {
    /// `STREAM_ID_NONE` (0): capability exchange.
    StreamIdNone,
    /// `STREAM_ID_PROXY` (1): a request or notification.
    StreamIdProxy,
    /// `STREAM_ID_STUB` (2): a response; such a header has no function id.
    StreamIdStub,
}

/// The two-bit wire value of a mask.
pub open spec fn mask_code(m: Mask) -> u32 {
    match m {
        Mask::StreamIdNone => 0,
        Mask::StreamIdProxy => 1,
        Mask::StreamIdStub => 2,
    }
}

/// The mask whose wire value is `code`, if any.
pub open spec fn mask_of_code(code: u32) -> Option<Mask> {
    if code == 0 {
        Some(Mask::StreamIdNone)
    } else if code == 1 {
        Some(Mask::StreamIdProxy)
    } else if code == 2 {
        Some(Mask::StreamIdStub)
    } else {
        None
    }
}

impl Mask {
    pub fn code(&self) -> (r: u32)
        ensures
            r == mask_code(*self),
    {
        match self {
            Mask::StreamIdNone => 0,
            Mask::StreamIdProxy => 1,
            Mask::StreamIdStub => 2,
        }
    }
}

/// Header shared by all URBDRC messages.
#[derive(Debug, Clone, Copy)]
pub struct SharedMsgHeader {
    pub interface_id: InterfaceId,
    pub mask: Mask,
    pub message_id: u32,
    /// Present on every message but a response.
    pub function_id: Option<u32>,
}

/// The first word of the header: interface id (low 30 bits) and mask.
pub open spec fn header_word(h: SharedMsgHeader) -> u32 {
    ((h.interface_id.0 % 0x4000_0000) + mask_code(h.mask) * 0x4000_0000) as u32
}

/// Wire form of a header.
pub open spec fn header_bytes(h: SharedMsgHeader) -> Seq<u8> {
    le32(header_word(h)) + le32(h.message_id) + match h.function_id {
        Some(f) => le32(f),
        None => Seq::<u8>::empty(),
    }
}

/// Encoded size of a header: 12 bytes, or 8 for a response.
pub open spec fn header_size(h: SharedMsgHeader) -> int {
    if h.function_id is Some {
        12
    } else {
        8
    }
}

/// A header that decoding gives back unchanged: a 30-bit interface id, and a
/// function id exactly when the message is not a response.
pub open spec fn header_wf(h: SharedMsgHeader) -> bool {
    &&& h.interface_id.0 < 0x4000_0000
    &&& (h.function_id is None <==> h.mask == Mask::StreamIdStub)
}

/// The header at the start of `s`, with its size, if `s` starts with one.
pub open spec fn parse_header(s: Seq<u8>) -> Option<(SharedMsgHeader, int)> {
    if s.len() < 8 {
        None
    } else {
        let w = get_le32(s, 0);
        match mask_of_code(w / 0x4000_0000) {
            None => None,
            Some(mask) => {
                let iface = InterfaceId(w % 0x4000_0000);
                let message_id = get_le32(s, 4);
                if mask == Mask::StreamIdStub {
                    Some((SharedMsgHeader { interface_id: iface, mask, message_id, function_id: None }, 8))
                } else if s.len() < 12 {
                    None
                } else {
                    Some(
                        (
                            SharedMsgHeader {
                                interface_id: iface,
                                mask,
                                message_id,
                                function_id: Some(get_le32(s, 8)),
                            },
                            12,
                        ),
                    )
                }
            },
        }
    }
}

impl SharedMsgHeader {
    /// Size of a header that carries a function id.
    pub const SIZE_WHEN_NOT_RSP: usize = 12;
    /// Size of a response header.
    pub const SIZE_WHEN_RSP: usize = 8;

    pub fn size(&self) -> (r: usize)
        ensures
            r == header_bytes(*self).len(),
            r == header_size(*self),
    {
        if self.function_id.is_some() {
            Self::SIZE_WHEN_NOT_RSP
        } else {
            Self::SIZE_WHEN_RSP
        }
    }

    /// Appends the wire form of the header.
    pub fn encode(&self, dst: &mut Vec<u8>)
        ensures
            final(dst)@ == old(dst)@ + header_bytes(*self),
    {
        let iface = self.interface_id.0;
        let code = self.mask.code();
        assert(code <= 2);
        let word = (iface & 0x3FFF_FFFF) | (code << 30);
        assert((iface & 0x3FFF_FFFF) | (code << 30) == ((iface % 0x4000_0000) + code * 0x4000_0000) as u32)
            by (bit_vector)
            requires
                code <= 2,
        ;
        push_u32_le(dst, word);
        push_u32_le(dst, self.message_id);
        match self.function_id {
            Some(f) => push_u32_le(dst, f),
            None => {},
        }
        assert(final(dst)@ =~= old(dst)@ + header_bytes(*self));
    }

    /// Decodes the header at the start of `src`; returns it with the number
    /// of bytes consumed.
    pub fn decode(src: &[u8]) -> (r: Result<(SharedMsgHeader, usize), PduError>)
        ensures
            match parse_header(src@) {
                Some((h, n)) => r matches Ok((v, m)) && v == h && m == n,
                None => r is Err,
            },
    {
        if src.len() < 8 {
            return Err(PduError::NotEnoughBytes { name: "SHARED_MSG_HEADER", received: src.len(), expected: 8 });
        }
        let w = read_u32_le(src, 0);
        let code = w >> 30;
        let iface = w & 0x3FFF_FFFF;
        assert(w >> 30 == w / 0x4000_0000 && w & 0x3FFF_FFFF == w % 0x4000_0000) by (bit_vector);
        let mask = if code == 0 {
            Mask::StreamIdNone
        } else if code == 1 {
            Mask::StreamIdProxy
        } else if code == 2 {
            Mask::StreamIdStub
        } else {
            return Err(PduError::UnsupportedValue { field: "Mask", value: code });
        };
        let message_id = read_u32_le(src, 4);
        let function_id = match mask {
            Mask::StreamIdStub => None,
            _ => {
                if src.len() < 12 {
                    return Err(
                        PduError::NotEnoughBytes { name: "SHARED_MSG_HEADER", received: src.len(), expected: 12 },
                    );
                }
                Some(read_u32_le(src, 8))
            },
        };
        let h = SharedMsgHeader { interface_id: InterfaceId(iface), mask, message_id, function_id };
        let n = if function_id.is_some() { 12 } else { 8 };
        Ok((h, n))
    }
}

/// Decoding what `encode` wrote gives the header back, whatever follows it.
pub proof fn lemma_header_roundtrip(h: SharedMsgHeader, rest: Seq<u8>)
    requires
        header_wf(h),
    ensures
        parse_header(header_bytes(h) + rest) == Some((h, header_size(h))),
{
    let s = header_bytes(h) + rest;
    let w = header_word(h);
    assert(s.subrange(0, 4) =~= le32(w));
    assert(s.subrange(4, 8) =~= le32(h.message_id));
    lemma_get_le32_at(s, 0, w);
    lemma_get_le32_at(s, 4, h.message_id);
    let code = mask_code(h.mask);
    let iface = h.interface_id.0;
    assert(w / 0x4000_0000 == code && w % 0x4000_0000 == iface) by (nonlinear_arith)
        requires
            iface < 0x4000_0000,
            code <= 2,
            w == iface % 0x4000_0000 + code * 0x4000_0000,
    ;
    if let Some(f) = h.function_id {
        assert(s.subrange(8, 12) =~= le32(f));
        lemma_get_le32_at(s, 8, f);
    }
}

} // verus!
