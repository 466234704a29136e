//! Request identifiers of URBDRC messages.

use vstd::prelude::*;

verus! {

/// Result code of an operation (an HRESULT).
pub type HResult = u32;

/// Id of a request sent by IO_CONTROL, INTERNAL_IO_CONTROL,
/// TRANSFER_IN_REQUEST or TRANSFER_OUT_REQUEST.
pub type RequestId = u32;

/// Id of an IO_CONTROL or INTERNAL_IO_CONTROL request.
pub type RequestIdIoctl = u32;

/// Id of a TRANSFER_IN_REQUEST or TRANSFER_OUT_REQUEST; only 31 bits wide.
#[derive(Debug, Clone, Copy)]
pub struct RequestIdTsUrb(u32);

impl RequestIdTsUrb {
    pub closed spec fn spec_value(self) -> u32 {
        self.0
    }

    /// Keeps the low 31 bits of `value`, dropping the highest bit.
    pub fn from_u32(value: u32) -> (r: RequestIdTsUrb)
        ensures
            r.spec_value() == value % 0x8000_0000,
    {
        assert(value & 0x7FFF_FFFF == value % 0x8000_0000) by (bit_vector);
        RequestIdTsUrb(value & 0x7FFF_FFFF)
    }

    /// The 31-bit id.
    pub fn value(&self) -> (r: u32)
        ensures
            r == self.spec_value(),
            r < 0x8000_0000,
    {
        proof {
            use_type_invariant(self);
        }
        self.0
    }

    #[verifier::type_invariant]
    spec fn fits_31_bits(self) -> bool {
        self.0 < 0x8000_0000
    }
}

impl From<u32> for RequestIdTsUrb {
    /// Keeps the low 31 bits of `value`.
    fn from(value: u32) -> (r: RequestIdTsUrb)
        ensures
            r.spec_value() == value % 0x8000_0000,
    {
        RequestIdTsUrb::from_u32(value)
    }
}

impl vstd::std_specs::convert::FromSpecImpl<u32> for RequestIdTsUrb {
    open spec fn obeys_from_spec() -> bool {
        true
    }

    closed spec fn from_spec(v: u32) -> RequestIdTsUrb {
        RequestIdTsUrb(v % 0x8000_0000)
    }
}

impl From<RequestIdTsUrb> for u32 {
    /// The 31-bit id.
    fn from(value: RequestIdTsUrb) -> (r: u32)
        ensures
            r == value.spec_value(),
    {
        value.value()
    }
}

impl vstd::std_specs::convert::FromSpecImpl<RequestIdTsUrb> for u32 {
    open spec fn obeys_from_spec() -> bool {
        true
    }

    open spec fn from_spec(v: RequestIdTsUrb) -> u32 {
        v.spec_value()
    }
}

} // verus!
