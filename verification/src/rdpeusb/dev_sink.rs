//! Messages of the Device Sink interface, by which the client tells the
//! server about new channels and USB devices, and the USB device
//! capabilities they carry.

use vstd::prelude::*;

use crate::bytes::{
    get_le32, lemma_le32_of_get, lemma_words_le_len, lemma_words_le_read, lemma_words_le_seven, push_u32_le, read_u32_le, words_le,
};
use crate::error::PduError;
use crate::rdpeusb::header::{SharedMsgHeader, header_bytes};

verus! {

/// Announces a new virtual USB redirection channel; it is a bare header.
#[derive(Debug, Clone, Copy)]
pub struct AddVirtualChannel {
    pub header: SharedMsgHeader,
}

impl AddVirtualChannel {
    /// Size of the message: a header with a function id.
    pub const FIXED_PART_SIZE: usize = 12;

    pub fn name(&self) -> (r: &'static str)
        ensures
            r@ == "ADD_VIRTUAL_CHANNEL"@,
    {
        "ADD_VIRTUAL_CHANNEL"
    }

    pub fn size(&self) -> (r: usize)
        ensures
            self.header.function_id is Some ==> r == header_bytes(self.header).len(),
            r == 12,
    {
        Self::FIXED_PART_SIZE
    }

    /// Appends the header.
    pub fn encode(&self, dst: &mut Vec<u8>)
        ensures
            final(dst)@ == old(dst)@ + header_bytes(self.header),
    {
        self.header.encode(dst)
    }
}

/// USB bus interface version.
#[derive(Debug, Clone, Copy, PartialEq, Eq, Structural)]
pub enum UsbBusIfaceVer {
    /// 0x0.
    V0,
    /// 0x1.
    V1,
    /// 0x2.
    V2,
}

/// USBDI version.
#[derive(Debug, Clone, Copy, PartialEq, Eq, Structural)]
pub enum UsbdiVer {
    /// 0x500.
    V0x500,
    /// 0x600.
    V0x600,
}

/// USB protocol version supported by the device.
#[derive(Debug, Clone, Copy, PartialEq, Eq, Structural)]
pub enum SupportedUsbVer {
    /// 0x100.
    Usb10,
    /// 0x110.
    Usb11,
    /// 0x200.
    Usb20,
}

/// Device speed.
#[derive(Debug, Clone, Copy, PartialEq, Eq, Structural)]
pub enum DeviceSpeed {
    /// 0x0.
    FullSpeed,
    /// 0x1.
    HighSpeed,
}

pub open spec fn bus_iface_value(v: UsbBusIfaceVer) -> u32 {
    match v {
        UsbBusIfaceVer::V0 => 0,
        UsbBusIfaceVer::V1 => 1,
        UsbBusIfaceVer::V2 => 2,
    }
}

pub open spec fn usbdi_value(v: UsbdiVer) -> u32 {
    match v {
        UsbdiVer::V0x500 => 0x500,
        UsbdiVer::V0x600 => 0x600,
    }
}

pub open spec fn usb_ver_value(v: SupportedUsbVer) -> u32 {
    match v {
        SupportedUsbVer::Usb10 => 0x100,
        SupportedUsbVer::Usb11 => 0x110,
        SupportedUsbVer::Usb20 => 0x200,
    }
}

pub open spec fn speed_value(v: DeviceSpeed) -> u32 {
    match v {
        DeviceSpeed::FullSpeed => 0,
        DeviceSpeed::HighSpeed => 1,
    }
}

pub open spec fn bus_iface_of(v: u32) -> Option<UsbBusIfaceVer> {
    if v == 0 {
        Some(UsbBusIfaceVer::V0)
    } else if v == 1 {
        Some(UsbBusIfaceVer::V1)
    } else if v == 2 {
        Some(UsbBusIfaceVer::V2)
    } else {
        None
    }
}

pub open spec fn usbdi_of(v: u32) -> Option<UsbdiVer> {
    if v == 0x500 {
        Some(UsbdiVer::V0x500)
    } else if v == 0x600 {
        Some(UsbdiVer::V0x600)
    } else {
        None
    }
}

pub open spec fn usb_ver_of(v: u32) -> Option<SupportedUsbVer> {
    if v == 0x100 {
        Some(SupportedUsbVer::Usb10)
    } else if v == 0x110 {
        Some(SupportedUsbVer::Usb11)
    } else if v == 0x200 {
        Some(SupportedUsbVer::Usb20)
    } else {
        None
    }
}

pub open spec fn speed_of(v: u32) -> Option<DeviceSpeed> {
    if v == 0 {
        Some(DeviceSpeed::FullSpeed)
    } else if v == 1 {
        Some(DeviceSpeed::HighSpeed)
    } else {
        None
    }
}

/// A jitter buffer size that the format allows: 0 (isochronous transfer not
/// supported) or 10 to 512 milliseconds.
pub open spec fn jitter_valid(v: u32) -> bool {
    v == 0 || (10 <= v && v <= 512)
}

/// Isochronous write jitter buffer size in milliseconds, or 0 when
/// isochronous transfer is not supported; always 0 or in 10..=512.
#[derive(Debug, Clone, Copy)]
pub struct NoAckIsochWriteJitterBufSizeInMs(u32);

impl NoAckIsochWriteJitterBufSizeInMs {
    pub closed spec fn spec_value(self) -> u32 {
        self.0
    }

    #[verifier::type_invariant]
    spec fn allowed(self) -> bool {
        jitter_valid(self.0)
    }

    /// Isochronous transfer is not supported.
    pub fn not_supported() -> (r: NoAckIsochWriteJitterBufSizeInMs)
        ensures
            r.spec_value() == 0,
    {
        NoAckIsochWriteJitterBufSizeInMs(0)
    }

    /// The size, refused unless it is 0 or in 10..=512.
    pub fn try_from_u32(value: u32) -> (r: Result<NoAckIsochWriteJitterBufSizeInMs, PduError>)
        ensures
            jitter_valid(value) ==> (r matches Ok(v) && v.spec_value() == value),
            !jitter_valid(value) ==> r == Err::<NoAckIsochWriteJitterBufSizeInMs, PduError>(
                PduError::UnsupportedValue { field: "NoAckIsochWriteJitterBufferSizeInMs", value },
            ),
    {
        if value == 0 || (10 <= value && value <= 512) {
            Ok(NoAckIsochWriteJitterBufSizeInMs(value))
        } else {
            Err(PduError::UnsupportedValue { field: "NoAckIsochWriteJitterBufferSizeInMs", value })
        }
    }

    /// The raw wire value.
    pub fn value(&self) -> (r: u32)
        ensures
            r == self.spec_value(),
            jitter_valid(r),
    {
        proof {
            use_type_invariant(self);
        }
        self.0
    }

    /// The jitter buffer size in milliseconds when isochronous transfer is
    /// supported, `None` when it is not.
    pub fn outstanding_isoch_data(self) -> (r: Option<u32>)
        ensures
            self.spec_value() == 0 ==> r is None,
            self.spec_value() != 0 ==> r == Some(self.spec_value()),
    {
        if self.0 != 0 {
            Some(self.0)
        } else {
            None
        }
    }
}

/// Capabilities of a USB device (USB_DEVICE_CAPABILITIES).
#[derive(Debug, Clone, Copy)]
pub struct UsbDeviceCaps {
    pub usb_bus_iface_ver: UsbBusIfaceVer,
    pub usbdi_ver: UsbdiVer,
    pub supported_usb_ver: SupportedUsbVer,
    pub device_speed: DeviceSpeed,
    pub no_ack_isoch_write_jitter_buf_size: NoAckIsochWriteJitterBufSizeInMs,
}

/// Wire form: size (28), bus interface version, USBDI version, USB version,
/// host controller capabilities (0), speed, jitter buffer size.
pub open spec fn device_caps_bytes(c: UsbDeviceCaps) -> Seq<u8> {
    words_le(device_caps_words(c))
}

/// The seven 32-bit fields of the wire form.
pub open spec fn device_caps_words(c: UsbDeviceCaps) -> Seq<u32> {
    seq![
        28,
        bus_iface_value(c.usb_bus_iface_ver),
        usbdi_value(c.usbdi_ver),
        usb_ver_value(c.supported_usb_ver),
        0,
        speed_value(c.device_speed),
        c.no_ack_isoch_write_jitter_buf_size.spec_value(),
    ]
}

/// The fields of the capabilities at the start of `s`, each as the spec
/// value that the decoder would produce; `None` when any is refused.
pub open spec fn device_caps_fields(s: Seq<u8>) -> Option<(UsbBusIfaceVer, UsbdiVer, SupportedUsbVer, DeviceSpeed, u32)> {
    if s.len() < 28 || get_le32(s, 0) != 28 || get_le32(s, 16) != 0 || !jitter_valid(get_le32(s, 24)) {
        None
    } else {
        match (bus_iface_of(get_le32(s, 4)), usbdi_of(get_le32(s, 8)), usb_ver_of(get_le32(s, 12)), speed_of(
            get_le32(s, 20),
        )) {
            (Some(a), Some(b), Some(c), Some(d)) => Some((a, b, c, d, get_le32(s, 24))),
            _ => None,
        }
    }
}

/// `c` holds exactly the fields decoded from `s`.
pub open spec fn device_caps_matches(c: UsbDeviceCaps, s: Seq<u8>) -> bool {
    device_caps_fields(s) == Some(
        (
            c.usb_bus_iface_ver,
            c.usbdi_ver,
            c.supported_usb_ver,
            c.device_speed,
            c.no_ack_isoch_write_jitter_buf_size.spec_value(),
        ),
    )
}

impl UsbDeviceCaps {
    /// Fixed value of the `CbSize` field.
    pub const CB_SIZE: u32 = 28;
    /// Fixed value of the `HcdCapabilities` field.
    pub const HCD_CAPS: u32 = 0;
    /// Size of the structure.
    pub const FIXED_PART_SIZE: usize = 28;

    pub fn name(&self) -> (r: &'static str)
        ensures
            r@ == "USB_DEVICE_CAPABILITIES"@,
    {
        "USB_DEVICE_CAPABILITIES"
    }

    pub fn size(&self) -> (r: usize)
        ensures
            r == device_caps_bytes(*self).len(),
            r == 28,
    {
        proof {
            lemma_words_le_len(device_caps_words(*self));
        }
        Self::FIXED_PART_SIZE
    }

    /// Appends the 28-byte wire form.
    pub fn encode(&self, dst: &mut Vec<u8>)
        ensures
            final(dst)@ == old(dst)@ + device_caps_bytes(*self),
    {
        push_u32_le(dst, Self::CB_SIZE);
        let bus: u32 = match self.usb_bus_iface_ver {
            UsbBusIfaceVer::V0 => 0,
            UsbBusIfaceVer::V1 => 1,
            UsbBusIfaceVer::V2 => 2,
        };
        push_u32_le(dst, bus);
        let usbdi: u32 = match self.usbdi_ver {
            UsbdiVer::V0x500 => 0x500,
            UsbdiVer::V0x600 => 0x600,
        };
        push_u32_le(dst, usbdi);
        let ver: u32 = match self.supported_usb_ver {
            SupportedUsbVer::Usb10 => 0x100,
            SupportedUsbVer::Usb11 => 0x110,
            SupportedUsbVer::Usb20 => 0x200,
        };
        push_u32_le(dst, ver);
        push_u32_le(dst, Self::HCD_CAPS);
        let speed: u32 = match self.device_speed {
            DeviceSpeed::FullSpeed => 0,
            DeviceSpeed::HighSpeed => 1,
        };
        push_u32_le(dst, speed);
        push_u32_le(dst, self.no_ack_isoch_write_jitter_buf_size.value());
        proof {
            lemma_words_le_seven(device_caps_words(*self));
        }
        assert(final(dst)@ =~= old(dst)@ + device_caps_bytes(*self));
    }

    /// Decodes the capabilities at the start of `src`; returns them with the
    /// number of bytes consumed. Every field is checked against the values
    /// that the format allows.
    pub fn decode(src: &[u8]) -> (r: Result<(UsbDeviceCaps, usize), PduError>)
        ensures
            r is Ok <==> device_caps_fields(src@) is Some,
            r matches Ok((c, n)) ==> device_caps_matches(c, src@) && n == 28,
            src@.len() < 28 ==> r matches Err(PduError::NotEnoughBytes { .. }),
    {
        if src.len() < Self::FIXED_PART_SIZE {
            return Err(PduError::NotEnoughBytes { name: "USB_DEVICE_CAPABILITIES", received: src.len(), expected: 28 });
        }
        let cb_size = read_u32_le(src, 0);
        if cb_size != Self::CB_SIZE {
            return Err(PduError::UnsupportedValue { field: "CbSize", value: cb_size });
        }
        let v = read_u32_le(src, 4);
        let usb_bus_iface_ver = if v == 0 {
            UsbBusIfaceVer::V0
        } else if v == 1 {
            UsbBusIfaceVer::V1
        } else if v == 2 {
            UsbBusIfaceVer::V2
        } else {
            return Err(PduError::UnsupportedValue { field: "UsbBusInterfaceVersion", value: v });
        };
        let v = read_u32_le(src, 8);
        let usbdi_ver = if v == 0x500 {
            UsbdiVer::V0x500
        } else if v == 0x600 {
            UsbdiVer::V0x600
        } else {
            return Err(PduError::UnsupportedValue { field: "USBDI_Version", value: v });
        };
        let v = read_u32_le(src, 12);
        let supported_usb_ver = if v == 0x100 {
            SupportedUsbVer::Usb10
        } else if v == 0x110 {
            SupportedUsbVer::Usb11
        } else if v == 0x200 {
            SupportedUsbVer::Usb20
        } else {
            return Err(PduError::UnsupportedValue { field: "SupportedUsbVersion", value: v });
        };
        let v = read_u32_le(src, 16);
        if v != Self::HCD_CAPS {
            return Err(PduError::UnsupportedValue { field: "HcdCapabilities", value: v });
        }
        let v = read_u32_le(src, 20);
        let device_speed = if v == 0 {
            DeviceSpeed::FullSpeed
        } else if v == 1 {
            DeviceSpeed::HighSpeed
        } else {
            return Err(PduError::UnsupportedValue { field: "DeviceIsHighSpeed", value: v });
        };
        let jitter = NoAckIsochWriteJitterBufSizeInMs::try_from_u32(read_u32_le(src, 24))?;
        Ok(
            (
                UsbDeviceCaps {
                    usb_bus_iface_ver,
                    usbdi_ver,
                    supported_usb_ver,
                    device_speed,
                    no_ack_isoch_write_jitter_buf_size: jitter,
                },
                28,
            ),
        )
    }
}

/// Decoding what `encode` wrote gives the same capabilities back, whatever
/// follows them.
pub proof fn lemma_device_caps_roundtrip(c: UsbDeviceCaps, rest: Seq<u8>)
    requires
        jitter_valid(c.no_ack_isoch_write_jitter_buf_size.spec_value()),
    ensures
        device_caps_matches(c, device_caps_bytes(c) + rest),
{
    let ws = device_caps_words(c);
    lemma_words_le_len(ws);
    lemma_words_le_read(ws, 0, rest);
    lemma_words_le_read(ws, 1, rest);
    lemma_words_le_read(ws, 2, rest);
    lemma_words_le_read(ws, 3, rest);
    lemma_words_le_read(ws, 4, rest);
    lemma_words_le_read(ws, 5, rest);
    lemma_words_le_read(ws, 6, rest);
}

/// Encoding capabilities decoded from `s` gives back the 28 bytes they
/// were read from.
pub proof fn lemma_device_caps_reencode(c: UsbDeviceCaps, s: Seq<u8>)
    requires
        device_caps_matches(c, s),
    ensures
        device_caps_bytes(c) == s.subrange(0, 28),
{
    let ws = device_caps_words(c);
    assert forall|k: int| 0 <= k < 7 implies #[trigger] ws[k] == get_le32(s, 4 * k) by {
    }
    lemma_words_le_seven(ws);
    lemma_le32_of_get(s, 0);
    lemma_le32_of_get(s, 4);
    lemma_le32_of_get(s, 8);
    lemma_le32_of_get(s, 12);
    lemma_le32_of_get(s, 16);
    lemma_le32_of_get(s, 20);
    lemma_le32_of_get(s, 24);
    assert(ws[0] == get_le32(s, 0) && ws[1] == get_le32(s, 4) && ws[2] == get_le32(s, 8) && ws[3] == get_le32(s, 12)
        && ws[4] == get_le32(s, 16) && ws[5] == get_le32(s, 20) && ws[6] == get_le32(s, 24));
    assert(device_caps_bytes(c) =~= s.subrange(0, 28));
}

} // verus!
