//! Logon Info Extended data of the Save Session Info PDU, and the client
//! auto-reconnect cookie derived from the server's.

use vstd::prelude::*;

use crate::bytes::{
    get_le16, get_le32, le16, le32, lemma_get_le32_at, lemma_le16_roundtrip, lemma_le32_roundtrip,
    push_slice, push_u16_le, push_u32_le, read_u32_le,
};
use crate::error::PduError;
use crate::hash::{md5, md5_digest};

verus! {

/// Size of the padding that ends a Logon Info Extended structure.
pub const LOGON_EX_PADDING_SIZE: usize = 570;
/// Wire value of the auto-reconnect packet size fields.
pub const AUTO_RECONNECT_PACKET_SIZE: u32 = 28;
/// The only auto-reconnect version.
pub const AUTO_RECONNECT_VERSION_1: u32 = 1;
/// Wire value of the errors-info length field.
pub const LOGON_ERRORS_INFO_SIZE: u32 = 8;
/// Size of the serialized client auto-reconnect cookie.
pub const CLIENT_AUTO_RECONNECT_COOKIE_SIZE: usize = 28;

// ---------------------------------------------------------------------------
// Flags
// ---------------------------------------------------------------------------

/// Which optional fields a Logon Info Extended structure carries; every bit
/// is kept, defined or not.
#[derive(Debug, Clone, Copy)]
pub struct LogonExFlags(u32);

impl LogonExFlags {
    pub closed spec fn spec_bits(self) -> u32 {
        self.0
    }

    /// The auto-reconnect cookie is present (bit `0x1`).
    pub fn auto_reconnect_cookie() -> (r: LogonExFlags)
        ensures
            r.spec_bits() == 1,
    {
        LogonExFlags(1)
    }

    /// The logon errors info is present (bit `0x2`).
    pub fn logon_errors() -> (r: LogonExFlags)
        ensures
            r.spec_bits() == 2,
    {
        LogonExFlags(2)
    }

    pub fn bits(&self) -> (r: u32)
        ensures
            r == self.spec_bits(),
    {
        self.0
    }

    pub fn from_bits_retain(bits: u32) -> (r: LogonExFlags)
        ensures
            r.spec_bits() == bits,
    {
        LogonExFlags(bits)
    }

    /// Whether every bit of `other` is set here.
    pub fn contains(&self, other: LogonExFlags) -> (r: bool)
        ensures
            r == (self.spec_bits() & other.spec_bits() == other.spec_bits()),
    {
        self.0 & other.0 == other.0
    }
}

/// Bit `0x1` of a flags word.
pub open spec fn has_cookie_bit(f: u32) -> bool {
    f % 2 == 1
}

/// Bit `0x2` of a flags word.
pub open spec fn has_errors_bit(f: u32) -> bool {
    (f / 2) % 2 == 1
}

proof fn lemma_flag_bits(f: u32)
    ensures
        (f & 1 == 1) == has_cookie_bit(f),
        (f & 2 == 2) == has_errors_bit(f),
{
    assert((f & 1 == 1) == (f % 2 == 1)) by (bit_vector);
    assert((f & 2 == 2) == ((f / 2) % 2 == 1)) by (bit_vector);
}

// ---------------------------------------------------------------------------
// Server auto-reconnect packet
// ---------------------------------------------------------------------------

/// Server auto-reconnect packet (ARC_SC_PRIVATE_PACKET).
#[derive(Debug, Clone, Copy)]
pub struct ServerAutoReconnect {
    pub logon_id: u32,
    pub random_bits: [u8; 16],
}

/// Wire form: the data length and packet length (both 28), the version (1),
/// the logon id, then the 16 random bytes.
pub open spec fn server_arc_bytes(s: ServerAutoReconnect) -> Seq<u8> {
    le32(28) + le32(28) + le32(1) + le32(s.logon_id) + s.random_bits@
}

/// A valid server auto-reconnect packet starts at `i`.
pub open spec fn server_arc_valid_at(s: Seq<u8>, i: int) -> bool {
    &&& 0 <= i
    &&& i + 32 <= s.len()
    &&& get_le32(s, i + 4) == 28
    &&& get_le32(s, i + 8) == 1
}

/// `v` is the packet at `i` (the data length field is not checked).
pub open spec fn server_arc_matches(s: Seq<u8>, i: int, v: ServerAutoReconnect) -> bool {
    &&& v.logon_id == get_le32(s, i + 12)
    &&& v.random_bits@ == s.subrange(i + 16, i + 32)
}

/// Copies `src[pos..pos + 16]` into an array.
fn read_array16(src: &[u8], pos: usize) -> (r: [u8; 16])
    requires
        pos + 16 <= src.len(),
    ensures
        r@ == src@.subrange(pos as int, pos + 16),
{
    let mut out = [0u8; 16];
    for k in 0..16
        invariant
            pos + 16 <= src.len(),
            forall|j: int| 0 <= j < k ==> out@[j] == src@[pos + j],
            out@.len() == 16,
    {
        out.set(k, src[pos + k]);
    }
    assert(out@ =~= src@.subrange(pos as int, pos + 16));
    out
}

impl ServerAutoReconnect {
    pub const FIXED_PART_SIZE: usize = 32;

    pub fn name(&self) -> (r: &'static str)
        ensures
            r@ == "ServerAutoReconnect"@,
    {
        "ServerAutoReconnect"
    }

    pub fn size(&self) -> (r: usize)
        ensures
            r == server_arc_bytes(*self).len(),
            r == 32,
    {
        Self::FIXED_PART_SIZE
    }

    /// Appends the 32-byte wire form.
    pub fn encode(&self, dst: &mut Vec<u8>)
        ensures
            final(dst)@ == old(dst)@ + server_arc_bytes(*self),
    {
        push_u32_le(dst, AUTO_RECONNECT_PACKET_SIZE);
        push_u32_le(dst, AUTO_RECONNECT_PACKET_SIZE);
        push_u32_le(dst, AUTO_RECONNECT_VERSION_1);
        push_u32_le(dst, self.logon_id);
        push_slice(dst, &self.random_bits);
        assert(final(dst)@ =~= old(dst)@ + server_arc_bytes(*self));
    }

    /// Decodes the packet at the start of `src`; returns it with the number
    /// of bytes consumed.
    pub fn decode(src: &[u8]) -> (r: Result<(ServerAutoReconnect, usize), PduError>)
        ensures
            r is Ok <==> server_arc_valid_at(src@, 0),
            r matches Ok((v, n)) ==> server_arc_matches(src@, 0, v) && n == 32,
            src@.len() < 32 ==> r matches Err(PduError::NotEnoughBytes { .. }),
    {
        Self::decode_at(src, 0)
    }

    fn decode_at(src: &[u8], pos: usize) -> (r: Result<(ServerAutoReconnect, usize), PduError>)
        requires
            pos <= src.len(),
        ensures
            r is Ok <==> server_arc_valid_at(src@, pos as int),
            r matches Ok((v, n)) ==> server_arc_matches(src@, pos as int, v) && n == 32,
            src@.len() < pos + 32 ==> r matches Err(PduError::NotEnoughBytes { .. }),
    {
        if src.len() - pos < 32 {
            return Err(
                PduError::NotEnoughBytes { name: "ServerAutoReconnect", received: src.len() - pos, expected: 32 },
            );
        }
        let packet_length = read_u32_le(src, pos + 4);
        if packet_length != AUTO_RECONNECT_PACKET_SIZE {
            return Err(PduError::InvalidField { field: "packetLen", reason: "invalid auto-reconnect packet size" });
        }
        let version = read_u32_le(src, pos + 8);
        if version != AUTO_RECONNECT_VERSION_1 {
            return Err(PduError::InvalidField { field: "version", reason: "invalid auto-reconnect version" });
        }
        let logon_id = read_u32_le(src, pos + 12);
        let random_bits = read_array16(src, pos + 16);
        Ok((ServerAutoReconnect { logon_id, random_bits }, 32))
    }
}

// ---------------------------------------------------------------------------
// Client auto-reconnect packet and its security verifier
// ---------------------------------------------------------------------------

/// The block-sized HMAC key: the key itself, or its digest when longer than
/// the 64-byte block, padded with zeros to the block size.
pub open spec fn hmac_block_key(key: Seq<u8>) -> Seq<u8> {
    let k = if key.len() > 64 {
        md5_digest(key)
    } else {
        key
    };
    k + Seq::new((64 - k.len()) as nat, |i: int| 0u8)
}

/// Every byte of `s` XORed with `b`.
pub open spec fn xor_all(s: Seq<u8>, b: u8) -> Seq<u8> {
    Seq::new(s.len(), |i: int| s[i] ^ b)
}

/// HMAC-MD5 (RFC 2104): `MD5((K ^ opad) ++ MD5((K ^ ipad) ++ msg))`.
pub open spec fn hmac_md5_spec(key: Seq<u8>, msg: Seq<u8>) -> Seq<u8> {
    let bk = hmac_block_key(key);
    md5_digest(xor_all(bk, 0x5c) + md5_digest(xor_all(bk, 0x36) + msg))
}

/// HMAC-MD5 of `msg` under `key`.
pub fn hmac_md5(key: &[u8], msg: &[u8]) -> (r: [u8; 16])
    ensures
        r@ == hmac_md5_spec(key@, msg@),
{
    let mut block_key: Vec<u8> = Vec::new();
    if key.len() > 64 {
        let digest = md5(key);
        push_slice(&mut block_key, &digest);
    } else {
        push_slice(&mut block_key, key);
    }
    let ghost k = block_key@;
    while block_key.len() < 64
        invariant
            k.len() <= 64,
            block_key@ == k + Seq::new((block_key@.len() - k.len()) as nat, |i: int| 0u8),
            block_key@.len() <= 64,
        decreases 64 - block_key@.len(),
    {
        let ghost before = block_key@;
        block_key.push(0);
        assert(block_key@ =~= k + Seq::new((block_key@.len() - k.len()) as nat, |i: int| 0u8));
    }
    assert(block_key@ =~= hmac_block_key(key@));
    let mut inner_input: Vec<u8> = Vec::new();
    let mut outer_input: Vec<u8> = Vec::new();
    for i in 0..64
        invariant
            block_key@.len() == 64,
            inner_input@ =~= xor_all(block_key@.subrange(0, i as int), 0x36),
            outer_input@ =~= xor_all(block_key@.subrange(0, i as int), 0x5c),
    {
        inner_input.push(block_key[i] ^ 0x36);
        outer_input.push(block_key[i] ^ 0x5c);
    }
    assert(block_key@.subrange(0, 64) =~= block_key@);
    push_slice(&mut inner_input, msg);
    let inner_digest = md5(inner_input.as_slice());
    push_slice(&mut outer_input, &inner_digest);
    md5(outer_input.as_slice())
}

/// The client random used under Enhanced RDP Security: 32 zero bytes.
pub fn enhanced_security_client_random() -> (r: [u8; 32])
    ensures
        r@ == Seq::new(32, |i: int| 0u8),
{
    let zeros = [0u8; 32];
    assert(zeros@ =~= Seq::new(32, |i: int| 0u8));
    zeros
}

/// Client auto-reconnect packet (ARC_CS_PRIVATE_PACKET).
#[derive(Debug, Clone, Copy)]
pub struct ClientAutoReconnect {
    pub logon_id: u32,
    pub security_verifier: [u8; 16],
}

/// Wire form: the packet size (28), the version (1), the logon id and the
/// security verifier, all little-endian.
pub open spec fn client_arc_bytes(c: ClientAutoReconnect) -> Seq<u8> {
    le32(28) + le32(1) + le32(c.logon_id) + c.security_verifier@
}

impl ClientAutoReconnect {
    /// Derives the client packet from the server's cookie: same logon id,
    /// verifier `HMAC-MD5(random_bits, client_random)`.
    pub fn from_server(server: &ServerAutoReconnect, client_random: &[u8]) -> (r: ClientAutoReconnect)
        ensures
            r.logon_id == server.logon_id,
            r.security_verifier@ == hmac_md5_spec(server.random_bits@, client_random@),
    {
        ClientAutoReconnect {
            logon_id: server.logon_id,
            security_verifier: hmac_md5(&server.random_bits, client_random),
        }
    }

    /// Derives the client packet under Enhanced RDP Security, where the
    /// client random is 32 zero bytes.
    pub fn from_server_enhanced_security(server: &ServerAutoReconnect) -> (r: ClientAutoReconnect)
        ensures
            r.logon_id == server.logon_id,
            r.security_verifier@ == hmac_md5_spec(
                server.random_bits@,
                Seq::new(32, |i: int| 0u8),
            ),
    {
        let zeros = enhanced_security_client_random();
        Self::from_server(server, &zeros)
    }

    /// The 28-byte wire form.
    pub fn to_bytes(&self) -> (r: [u8; 28])
        ensures
            r@ == client_arc_bytes(*self),
    {
        let mut v: Vec<u8> = Vec::new();
        push_u32_le(&mut v, AUTO_RECONNECT_PACKET_SIZE);
        push_u32_le(&mut v, AUTO_RECONNECT_VERSION_1);
        push_u32_le(&mut v, self.logon_id);
        push_slice(&mut v, &self.security_verifier);
        assert(v@ =~= client_arc_bytes(*self));
        let mut out = [0u8; 28];
        for k in 0..28
            invariant
                v@.len() == 28,
                out@.len() == 28,
                forall|j: int| 0 <= j < k ==> out@[j] == v@[j],
        {
            out.set(k, v[k]);
        }
        assert(out@ =~= v@);
        out
    }
}

// ---------------------------------------------------------------------------
// Logon errors info
// ---------------------------------------------------------------------------

/// Kind of logon error notification.
#[derive(Debug, Copy, Clone)]
pub enum LogonErrorNotificationType {
    SessionBusyOptions,
    DisconnectRefused,
    NoPermission,
    BumpOptions,
    ReconnectOptions,
    SessionTerminate,
    SessionContinue,
    AccessDenied,
}

/// Wire code of each notification type.
pub open spec fn notification_type_code(t: LogonErrorNotificationType) -> u32 {
    match t {
        LogonErrorNotificationType::SessionBusyOptions => 0xFFFF_FFF8,
        LogonErrorNotificationType::DisconnectRefused => 0xFFFF_FFF9,
        LogonErrorNotificationType::NoPermission => 0xFFFF_FFFA,
        LogonErrorNotificationType::BumpOptions => 0xFFFF_FFFB,
        LogonErrorNotificationType::ReconnectOptions => 0xFFFF_FFFC,
        LogonErrorNotificationType::SessionTerminate => 0xFFFF_FFFD,
        LogonErrorNotificationType::SessionContinue => 0xFFFF_FFFE,
        LogonErrorNotificationType::AccessDenied => 0xFFFF_FFFF,
    }
}

impl LogonErrorNotificationType {
    pub fn as_u32(self) -> (r: u32)
        ensures
            r == notification_type_code(self),
    {
        match self {
            LogonErrorNotificationType::SessionBusyOptions => 0xFFFF_FFF8,
            LogonErrorNotificationType::DisconnectRefused => 0xFFFF_FFF9,
            LogonErrorNotificationType::NoPermission => 0xFFFF_FFFA,
            LogonErrorNotificationType::BumpOptions => 0xFFFF_FFFB,
            LogonErrorNotificationType::ReconnectOptions => 0xFFFF_FFFC,
            LogonErrorNotificationType::SessionTerminate => 0xFFFF_FFFD,
            LogonErrorNotificationType::SessionContinue => 0xFFFF_FFFE,
            LogonErrorNotificationType::AccessDenied => 0xFFFF_FFFF,
        }
    }

    /// The type with wire code `v`, if there is one.
    pub fn from_u32(v: u32) -> (r: Option<LogonErrorNotificationType>)
        ensures
            r is Some <==> v >= 0xFFFF_FFF8,
            r matches Some(t) ==> notification_type_code(t) == v,
    {
        match v {
            0xFFFF_FFF8 => Some(LogonErrorNotificationType::SessionBusyOptions),
            0xFFFF_FFF9 => Some(LogonErrorNotificationType::DisconnectRefused),
            0xFFFF_FFFA => Some(LogonErrorNotificationType::NoPermission),
            0xFFFF_FFFB => Some(LogonErrorNotificationType::BumpOptions),
            0xFFFF_FFFC => Some(LogonErrorNotificationType::ReconnectOptions),
            0xFFFF_FFFD => Some(LogonErrorNotificationType::SessionTerminate),
            0xFFFF_FFFE => Some(LogonErrorNotificationType::SessionContinue),
            0xFFFF_FFFF => Some(LogonErrorNotificationType::AccessDenied),
            _ => None,
        }
    }
}

/// Error code carried by a logon error notification.
#[derive(Debug, Copy, Clone)]
pub enum LogonErrorNotificationDataErrorCode {
    FailedBadPassword,
    FailedUpdatePassword,
    FailedOther,
    Warning,
}

pub open spec fn error_code_value(c: LogonErrorNotificationDataErrorCode) -> u32 {
    match c {
        LogonErrorNotificationDataErrorCode::FailedBadPassword => 0,
        LogonErrorNotificationDataErrorCode::FailedUpdatePassword => 1,
        LogonErrorNotificationDataErrorCode::FailedOther => 2,
        LogonErrorNotificationDataErrorCode::Warning => 3,
    }
}

impl LogonErrorNotificationDataErrorCode {
    pub fn as_u32(self) -> (r: u32)
        ensures
            r == error_code_value(self),
    {
        match self {
            LogonErrorNotificationDataErrorCode::FailedBadPassword => 0,
            LogonErrorNotificationDataErrorCode::FailedUpdatePassword => 1,
            LogonErrorNotificationDataErrorCode::FailedOther => 2,
            LogonErrorNotificationDataErrorCode::Warning => 3,
        }
    }

    /// The error code with value `v`, if there is one.
    pub fn from_u32(v: u32) -> (r: Option<LogonErrorNotificationDataErrorCode>)
        ensures
            r is Some <==> v <= 3,
            r matches Some(c) ==> error_code_value(c) == v,
    {
        match v {
            0 => Some(LogonErrorNotificationDataErrorCode::FailedBadPassword),
            1 => Some(LogonErrorNotificationDataErrorCode::FailedUpdatePassword),
            2 => Some(LogonErrorNotificationDataErrorCode::FailedOther),
            3 => Some(LogonErrorNotificationDataErrorCode::Warning),
            _ => None,
        }
    }
}

/// Data of a logon error notification: an error code or a session id.
#[derive(Debug, Clone, Copy)]
pub enum LogonErrorNotificationData {
    ErrorCode(LogonErrorNotificationDataErrorCode),
    SessionId(u32),
}

pub open spec fn notification_data_value(d: LogonErrorNotificationData) -> u32 {
    match d {
        LogonErrorNotificationData::ErrorCode(c) => error_code_value(c),
        LogonErrorNotificationData::SessionId(id) => id,
    }
}

/// How a decoder reads a data word: values 0..=3 are error codes, anything
/// else a session id.
pub open spec fn notification_data_of(v: u32) -> LogonErrorNotificationData {
    match v {
        0 => LogonErrorNotificationData::ErrorCode(LogonErrorNotificationDataErrorCode::FailedBadPassword),
        1 => LogonErrorNotificationData::ErrorCode(LogonErrorNotificationDataErrorCode::FailedUpdatePassword),
        2 => LogonErrorNotificationData::ErrorCode(LogonErrorNotificationDataErrorCode::FailedOther),
        3 => LogonErrorNotificationData::ErrorCode(LogonErrorNotificationDataErrorCode::Warning),
        _ => LogonErrorNotificationData::SessionId(v),
    }
}

impl LogonErrorNotificationData {
    pub fn to_u32(&self) -> (r: u32)
        ensures
            r == notification_data_value(*self),
    {
        match self {
            LogonErrorNotificationData::ErrorCode(code) => code.as_u32(),
            LogonErrorNotificationData::SessionId(id) => *id,
        }
    }
}

/// TS_LOGON_ERRORS_INFO.
#[derive(Debug, Clone, Copy)]
pub struct LogonErrorsInfo {
    pub error_type: LogonErrorNotificationType,
    pub error_data: LogonErrorNotificationData,
}

/// Wire form: the length (8), the type code and the data word.
pub open spec fn errors_info_bytes(e: LogonErrorsInfo) -> Seq<u8> {
    le32(8) + le32(notification_type_code(e.error_type)) + le32(notification_data_value(e.error_data))
}

/// A valid errors info starts at `i`.
pub open spec fn errors_info_valid_at(s: Seq<u8>, i: int) -> bool {
    &&& 0 <= i
    &&& i + 12 <= s.len()
    &&& get_le32(s, i + 4) >= 0xFFFF_FFF8
}

/// `v` is the errors info at `i` (the length field is not checked).
pub open spec fn errors_info_matches(s: Seq<u8>, i: int, v: LogonErrorsInfo) -> bool {
    &&& notification_type_code(v.error_type) == get_le32(s, i + 4)
    &&& v.error_data == notification_data_of(get_le32(s, i + 8))
}

impl LogonErrorsInfo {
    pub const FIXED_PART_SIZE: usize = 12;

    pub fn name(&self) -> (r: &'static str)
        ensures
            r@ == "LogonErrorsInfo"@,
    {
        "LogonErrorsInfo"
    }

    pub fn size(&self) -> (r: usize)
        ensures
            r == errors_info_bytes(*self).len(),
            r == 12,
    {
        Self::FIXED_PART_SIZE
    }

    /// Appends the 12-byte wire form.
    pub fn encode(&self, dst: &mut Vec<u8>)
        ensures
            final(dst)@ == old(dst)@ + errors_info_bytes(*self),
    {
        push_u32_le(dst, LOGON_ERRORS_INFO_SIZE);
        push_u32_le(dst, self.error_type.as_u32());
        push_u32_le(dst, self.error_data.to_u32());
        assert(final(dst)@ =~= old(dst)@ + errors_info_bytes(*self));
    }

    /// Decodes the errors info at the start of `src`; returns it with the
    /// number of bytes consumed.
    pub fn decode(src: &[u8]) -> (r: Result<(LogonErrorsInfo, usize), PduError>)
        ensures
            r is Ok <==> errors_info_valid_at(src@, 0),
            r matches Ok((v, n)) ==> errors_info_matches(src@, 0, v) && n == 12,
            src@.len() < 12 ==> r matches Err(PduError::NotEnoughBytes { .. }),
    {
        Self::decode_at(src, 0)
    }

    fn decode_at(src: &[u8], pos: usize) -> (r: Result<(LogonErrorsInfo, usize), PduError>)
        requires
            pos <= src.len(),
        ensures
            r is Ok <==> errors_info_valid_at(src@, pos as int),
            r matches Ok((v, n)) ==> errors_info_matches(src@, pos as int, v) && n == 12,
            src@.len() < pos + 12 ==> r matches Err(PduError::NotEnoughBytes { .. }),
    {
        if src.len() - pos < 12 {
            return Err(
                PduError::NotEnoughBytes { name: "LogonErrorsInfo", received: src.len() - pos, expected: 12 },
            );
        }
        let error_type = match LogonErrorNotificationType::from_u32(read_u32_le(src, pos + 4)) {
            Some(t) => t,
            None => {
                return Err(PduError::InvalidField { field: "errorType", reason: "invalid logon error type" });
            },
        };
        let word = read_u32_le(src, pos + 8);
        let error_data = match LogonErrorNotificationDataErrorCode::from_u32(word) {
            Some(code) => LogonErrorNotificationData::ErrorCode(code),
            None => LogonErrorNotificationData::SessionId(word),
        };
        proof {
            assert(error_data == notification_data_of(word));
        }
        Ok((LogonErrorsInfo { error_type, error_data }, 12))
    }
}

// ---------------------------------------------------------------------------
// Logon Info Extended
// ---------------------------------------------------------------------------

/// Logon Info Extended (TS_LOGON_INFO_EXTENDED).
#[derive(Debug, Clone, Copy)]
pub struct LogonInfoExtended {
    pub present_fields_flags: LogonExFlags,
    pub auto_reconnect: Option<ServerAutoReconnect>,
    pub errors_info: Option<LogonErrorsInfo>,
}

/// The length field's value: the fixed part and the fields present.
pub open spec fn logon_ex_internal_size(l: LogonInfoExtended) -> int {
    6 + (if l.auto_reconnect is Some { 32int } else { 0 }) + (if l.errors_info is Some {
        12int
    } else {
        0
    })
}

/// Wire form: the length, the flags, the fields present, 570 bytes of padding.
pub open spec fn logon_ex_bytes(l: LogonInfoExtended) -> Seq<u8> {
    le16(logon_ex_internal_size(l) as u16) + le32(l.present_fields_flags.spec_bits()) + match
        l.auto_reconnect {
        Some(a) => server_arc_bytes(a),
        None => Seq::empty(),
    } + match l.errors_info {
        Some(e) => errors_info_bytes(e),
        None => Seq::empty(),
    } + Seq::new(570, |i: int| 0u8)
}

/// Where the errors info of the structure at the start of `s` would start.
pub open spec fn logon_ex_errors_offset(s: Seq<u8>) -> int {
    if has_cookie_bit(get_le32(s, 2)) {
        38
    } else {
        6
    }
}

/// Bytes a structure with flags `f` takes up.
pub open spec fn logon_ex_wire_len(f: u32) -> int {
    6 + (if has_cookie_bit(f) { 32int } else { 0 }) + (if has_errors_bit(f) { 12int } else { 0 })
        + 570
}

/// A valid Logon Info Extended structure starts `s`.
pub open spec fn logon_ex_valid(s: Seq<u8>) -> bool {
    &&& s.len() >= 6
    &&& has_cookie_bit(get_le32(s, 2)) ==> server_arc_valid_at(s, 6)
    &&& has_errors_bit(get_le32(s, 2)) ==> errors_info_valid_at(s, logon_ex_errors_offset(s))
    &&& s.len() >= logon_ex_wire_len(get_le32(s, 2))
}

/// `v` is the structure at the start of `s`; which fields are present is
/// decided by the flags alone.
pub open spec fn logon_ex_matches(s: Seq<u8>, v: LogonInfoExtended) -> bool {
    let f = get_le32(s, 2);
    &&& v.present_fields_flags.spec_bits() == f
    &&& (v.auto_reconnect is Some) == has_cookie_bit(f)
    &&& v.auto_reconnect matches Some(a) ==> server_arc_matches(s, 6, a)
    &&& (v.errors_info is Some) == has_errors_bit(f)
    &&& v.errors_info matches Some(e) ==> errors_info_matches(s, logon_ex_errors_offset(s), e)
}

impl LogonInfoExtended {
    pub const FIXED_PART_SIZE: usize = 6;

    pub fn name(&self) -> (r: &'static str)
        ensures
            r@ == "LogonInfoExtended"@,
    {
        "LogonInfoExtended"
    }

    /// Size without the padding (the value of the length field).
    pub fn get_internal_size(&self) -> (r: usize)
        ensures
            r == logon_ex_internal_size(*self),
    {
        let reconnect_size: usize = match &self.auto_reconnect {
            Some(r) => r.size(),
            None => 0,
        };
        let errors_size: usize = match &self.errors_info {
            Some(e) => e.size(),
            None => 0,
        };
        Self::FIXED_PART_SIZE + reconnect_size + errors_size
    }

    /// Encoded size, padding included.
    pub fn size(&self) -> (r: usize)
        ensures
            r == logon_ex_bytes(*self).len(),
            r == logon_ex_internal_size(*self) + 570,
    {
        self.get_internal_size() + LOGON_EX_PADDING_SIZE
    }

    /// Appends the wire form. The fields present are written whatever the
    /// flags say.
    pub fn encode(&self, dst: &mut Vec<u8>)
        ensures
            final(dst)@ == old(dst)@ + logon_ex_bytes(*self),
    {
        let internal = self.get_internal_size();
        push_u16_le(dst, internal as u16);
        push_u32_le(dst, self.present_fields_flags.bits());
        match &self.auto_reconnect {
            Some(reconnect) => reconnect.encode(dst),
            None => {},
        }
        match &self.errors_info {
            Some(errors) => errors.encode(dst),
            None => {},
        }
        let ghost before = dst@;
        let mut k: usize = 0;
        while k < LOGON_EX_PADDING_SIZE
            invariant
                k <= 570,
                dst@ == before + Seq::new(k as nat, |i: int| 0u8),
            decreases 570 - k,
        {
            dst.push(0);
            assert(dst@ =~= before + Seq::new((k + 1) as nat, |i: int| 0u8));
            k = k + 1;
        }
        assert(final(dst)@ =~= old(dst)@ + logon_ex_bytes(*self));
    }

    /// Decodes the structure at the start of `src`; returns it with the number
    /// of bytes consumed. The length field is not checked; the padding is
    /// skipped unread.
    pub fn decode(src: &[u8]) -> (r: Result<(LogonInfoExtended, usize), PduError>)
        ensures
            r is Ok <==> logon_ex_valid(src@),
            r matches Ok((v, n)) ==> logon_ex_matches(src@, v) && n == logon_ex_wire_len(
                get_le32(src@, 2),
            ),
    {
        if src.len() < 6 {
            return Err(PduError::NotEnoughBytes { name: "LogonInfoExtended", received: src.len(), expected: 6 });
        }
        let flags = read_u32_le(src, 2);
        let present_fields_flags = LogonExFlags::from_bits_retain(flags);
        proof {
            lemma_flag_bits(flags);
        }
        let mut pos: usize = 6;
        let auto_reconnect = if present_fields_flags.contains(LogonExFlags::auto_reconnect_cookie()) {
            let (a, n) = ServerAutoReconnect::decode_at(src, pos)?;
            pos = pos + n;
            Some(a)
        } else {
            None
        };
        let errors_info = if present_fields_flags.contains(LogonExFlags::logon_errors()) {
            let (e, n) = LogonErrorsInfo::decode_at(src, pos)?;
            pos = pos + n;
            Some(e)
        } else {
            None
        };
        if src.len() - pos < LOGON_EX_PADDING_SIZE {
            return Err(
                PduError::NotEnoughBytes { name: "LogonInfoExtended", received: src.len() - pos, expected: 570 },
            );
        }
        pos = pos + LOGON_EX_PADDING_SIZE;
        Ok((LogonInfoExtended { present_fields_flags, auto_reconnect, errors_info }, pos))
    }
}

/// A structure whose flags say exactly which fields are present, and whose
/// session id (if any) is not one of the error-code values.
pub open spec fn logon_ex_consistent(l: LogonInfoExtended) -> bool {
    let f = l.present_fields_flags.spec_bits();
    &&& (l.auto_reconnect is Some) == has_cookie_bit(f)
    &&& (l.errors_info is Some) == has_errors_bit(f)
    &&& l.errors_info matches Some(e) ==> (e.error_data matches LogonErrorNotificationData::SessionId(
        id,
    ) ==> id > 3)
}

/// Decoding the wire form of a consistent structure gives it back, having
/// consumed all of it.
pub proof fn lemma_logon_ex_roundtrip(l: LogonInfoExtended)
    requires
        logon_ex_consistent(l),
    ensures
        logon_ex_valid(logon_ex_bytes(l)),
        logon_ex_matches(logon_ex_bytes(l), l),
        logon_ex_wire_len(l.present_fields_flags.spec_bits()) == logon_ex_bytes(l).len(),
{
    let s = logon_ex_bytes(l);
    let f = l.present_fields_flags.spec_bits();
    lemma_le16_roundtrip(logon_ex_internal_size(l) as u16);
    lemma_le32_roundtrip(f);
    assert(s.subrange(2, 6) =~= le32(f));
    lemma_get_le32_at(s, 2, f);
    let off = if l.auto_reconnect is Some { 38int } else { 6int };
    if let Some(a) = l.auto_reconnect {
        assert(s.subrange(6, 38) =~= server_arc_bytes(a));
        let b = server_arc_bytes(a);
        assert(s.subrange(10, 14) =~= le32(28));
        assert(s.subrange(14, 18) =~= le32(1));
        assert(s.subrange(18, 22) =~= le32(a.logon_id));
        lemma_get_le32_at(s, 10, 28);
        lemma_get_le32_at(s, 14, 1);
        lemma_get_le32_at(s, 18, a.logon_id);
        assert(s.subrange(22, 38) =~= a.random_bits@);
    }
    if let Some(e) = l.errors_info {
        let t = notification_type_code(e.error_type);
        let d = notification_data_value(e.error_data);
        assert(s.subrange(off + 4, off + 8) =~= le32(t));
        assert(s.subrange(off + 8, off + 12) =~= le32(d));
        lemma_get_le32_at(s, off + 4, t);
        lemma_get_le32_at(s, off + 8, d);
        assert(notification_data_of(d) == e.error_data);
    }
}

} // verus!
