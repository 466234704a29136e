//! Network auto-detection answered at connect time: which server requests
//! need a reply, what the reply says, and its security-header framing.

use vstd::prelude::*;

use crate::bytes::{get_le16, get_le32, le16, le32, push_slice, push_u16_le, push_u32_le, read_u16_le, read_u32_le};
use crate::error::PduError;

verus! {

/// Request type of a connect-time RTT measure request.
pub const RTT_REQUEST_CONNECT_TIME: u16 = 0x1001;
/// Request type of a connect-time bandwidth measure start.
pub const BW_START_CONNECT_TIME: u16 = 0x1014;
/// Request type of a connect-time bandwidth measure stop (it carries the
/// measured payload).
pub const BW_STOP_CONNECT_TIME: u16 = 0x002B;
/// Response type of connect-time bandwidth measure results.
pub const BW_RESULTS_CONNECT_TIME: u16 = 0x0003;
/// Response type of an RTT measure response.
pub const RTT_RESPONSE: u16 = 0x0000;
/// Security header flag of an auto-detect request.
pub const AUTODETECT_REQ: u16 = 0x1000;
/// Security header flag of a licensing PDU.
pub const SEC_LICENSE_PKT: u16 = 0x0080;
/// Security header flag of an auto-detect response.
pub const AUTODETECT_RSP: u16 = 0x2000;
/// Size of a basic security header.
pub const BASIC_SECURITY_HEADER_SIZE: usize = 4;

/// A server auto-detect request.
#[derive(Debug, Clone)]
pub enum AutoDetectRequest {
    /// RTT measure request.
    RttRequest { sequence_number: u16, request_type: u16 },
    /// Start of a bandwidth measurement.
    BandwidthMeasureStart { sequence_number: u16, request_type: u16 },
    /// Data sent during a bandwidth measurement.
    BandwidthMeasurePayload { sequence_number: u16, payload: Vec<u8> },
    /// End of a bandwidth measurement; at connect time it carries a payload.
    BandwidthMeasureStop { sequence_number: u16, request_type: u16, payload: Option<Vec<u8>> },
    /// The network characteristics that the server measured.
    NetworkCharacteristicsResult {
        sequence_number: u16,
        request_type: u16,
        base_rtt_ms: Option<u32>,
        bandwidth_kbps: Option<u32>,
        average_rtt_ms: Option<u32>,
    },
}

impl AutoDetectRequest {
    /// A connect-time RTT measure request.
    pub fn rtt_connect_time(sequence_number: u16) -> (r: AutoDetectRequest)
        ensures
            r == (AutoDetectRequest::RttRequest { sequence_number, request_type: 0x1001 }),
    {
        AutoDetectRequest::RttRequest { sequence_number, request_type: RTT_REQUEST_CONNECT_TIME }
    }

    /// A connect-time bandwidth measure start.
    pub fn bw_start_connect_time(sequence_number: u16) -> (r: AutoDetectRequest)
        ensures
            r == (AutoDetectRequest::BandwidthMeasureStart { sequence_number, request_type: 0x1014 }),
    {
        AutoDetectRequest::BandwidthMeasureStart { sequence_number, request_type: BW_START_CONNECT_TIME }
    }
}

/// A client auto-detect response.
#[derive(Debug, Clone, Copy, PartialEq, Eq, Structural)]
pub enum AutoDetectResponse {
    /// RTT measure response, echoing the request's sequence number.
    RttResponse { sequence_number: u16 },
    /// Bandwidth measure results.
    BandwidthMeasureResults { sequence_number: u16, response_type: u16, time_delta_ms: u32, byte_count: u32 },
}

/// The byte count reported for a measured payload: its length, saturated
/// to `u32::MAX`; 0 when there is none.
pub open spec fn payload_byte_count(payload: Option<Vec<u8>>) -> u32 {
    match payload {
        None => 0,
        Some(p) => if p@.len() > u32::MAX {
            u32::MAX
        } else {
            p@.len() as u32
        },
    }
}

/// The reply that a request needs: an RTT request is answered with the same
/// sequence number; a bandwidth stop with results carrying the payload's
/// byte count and a nominal 1 ms; other requests need none.
pub open spec fn reply_to(request: AutoDetectRequest) -> Option<AutoDetectResponse> {
    match request {
        AutoDetectRequest::RttRequest { sequence_number, .. } => Some(
            AutoDetectResponse::RttResponse { sequence_number },
        ),
        AutoDetectRequest::BandwidthMeasureStop { sequence_number, payload, .. } => Some(
            AutoDetectResponse::BandwidthMeasureResults {
                sequence_number,
                response_type: 0x0003,
                time_delta_ms: 1,
                byte_count: payload_byte_count(payload),
            },
        ),
        _ => None,
    }
}

/// The connect-time response that `request` needs, if any.
pub fn response_for_request(request: &AutoDetectRequest) -> (r: Option<AutoDetectResponse>)
    ensures
        r == reply_to(*request),
{
    match request {
        AutoDetectRequest::RttRequest { sequence_number, .. } => Some(
            AutoDetectResponse::RttResponse { sequence_number: *sequence_number },
        ),
        AutoDetectRequest::BandwidthMeasureStop { sequence_number, payload, .. } => {
            let byte_count: u32 = match payload {
                None => 0,
                Some(p) => if p.len() > 0xFFFF_FFFFusize {
                    0xFFFF_FFFFu32
                } else {
                    p.len() as u32
                },
            };
            Some(
                AutoDetectResponse::BandwidthMeasureResults {
                    sequence_number: *sequence_number,
                    response_type: BW_RESULTS_CONNECT_TIME,
                    time_delta_ms: 1,
                    byte_count,
                },
            )
        },
        _ => None,
    }
}

/// Wire form of a response: header length, type id 1 (response), sequence
/// number, response type, then the results' time delta and byte count.
pub open spec fn response_bytes(r: AutoDetectResponse) -> Seq<u8> {
    match r {
        AutoDetectResponse::RttResponse { sequence_number } => seq![6u8, 1u8] + le16(sequence_number) + le16(0),
        AutoDetectResponse::BandwidthMeasureResults { sequence_number, response_type, time_delta_ms, byte_count } => seq![
            14u8,
            1u8,
        ] + le16(sequence_number) + le16(response_type) + le32(time_delta_ms) + le32(byte_count),
    }
}

impl AutoDetectResponse {
    pub fn size(&self) -> (r: usize)
        ensures
            r == response_bytes(*self).len(),
    {
        match self {
            AutoDetectResponse::RttResponse { .. } => 6,
            AutoDetectResponse::BandwidthMeasureResults { .. } => 14,
        }
    }

    /// Appends the wire form.
    pub fn encode(&self, dst: &mut Vec<u8>)
        ensures
            final(dst)@ == old(dst)@ + response_bytes(*self),
    {
        match self {
            AutoDetectResponse::RttResponse { sequence_number } => {
                dst.push(6);
                dst.push(1);
                push_u16_le(dst, *sequence_number);
                push_u16_le(dst, RTT_RESPONSE);
            },
            AutoDetectResponse::BandwidthMeasureResults { sequence_number, response_type, time_delta_ms, byte_count } => {
                dst.push(14);
                dst.push(1);
                push_u16_le(dst, *sequence_number);
                push_u16_le(dst, *response_type);
                push_u32_le(dst, *time_delta_ms);
                push_u32_le(dst, *byte_count);
            },
        }
        assert(final(dst)@ =~= old(dst)@ + response_bytes(*self));
    }
}

/// The security header of a PDU: flags and the high flags word.
#[derive(Debug, Clone, Copy, PartialEq, Eq, Structural)]
pub struct BasicSecurityHeader {
    pub flags: u16,
}

/// Wire form of a security header: the flags, then a zero high word.
pub open spec fn security_header_bytes(h: BasicSecurityHeader) -> Seq<u8> {
    le16(h.flags) + le16(0)
}

impl BasicSecurityHeader {
    /// Appends the wire form.
    pub fn encode(&self, dst: &mut Vec<u8>)
        ensures
            final(dst)@ == old(dst)@ + security_header_bytes(*self),
    {
        push_u16_le(dst, self.flags);
        push_u16_le(dst, 0);
        assert(final(dst)@ =~= old(dst)@ + security_header_bytes(*self));
    }
}

/// A connect-time auto-detect response: a security header that carries
/// `AUTODETECT_RSP`, then the response.
#[derive(Debug, Clone, Copy, PartialEq, Eq, Structural)]
pub struct ConnectTimeAutoDetectRsp {
    pub response: AutoDetectResponse,
}

/// Wire form of a connect-time response.
pub open spec fn connect_time_rsp_bytes(p: ConnectTimeAutoDetectRsp) -> Seq<u8> {
    security_header_bytes(BasicSecurityHeader { flags: 0x2000 }) + response_bytes(p.response)
}

impl ConnectTimeAutoDetectRsp {
    pub fn new(response: AutoDetectResponse) -> (r: ConnectTimeAutoDetectRsp)
        ensures
            r.response == response,
    {
        ConnectTimeAutoDetectRsp { response }
    }

    /// The header of a response: flags `AUTODETECT_RSP`.
    pub fn security_header() -> (r: BasicSecurityHeader)
        ensures
            r.flags == 0x2000,
    {
        BasicSecurityHeader { flags: AUTODETECT_RSP }
    }

    pub fn name(&self) -> (r: &'static str)
        ensures
            r@ == "ConnectTimeAutoDetectRsp"@,
    {
        "ConnectTimeAutoDetectRsp"
    }

    pub fn size(&self) -> (r: usize)
        ensures
            r == connect_time_rsp_bytes(*self).len(),
    {
        BASIC_SECURITY_HEADER_SIZE + self.response.size()
    }

    /// Appends the header and the response.
    pub fn encode(&self, dst: &mut Vec<u8>)
        ensures
            final(dst)@ == old(dst)@ + connect_time_rsp_bytes(*self),
    {
        Self::security_header().encode(dst);
        self.response.encode(dst);
        assert(final(dst)@ =~= old(dst)@ + connect_time_rsp_bytes(*self));
    }
}

// ---------------------------------------------------------------------------
// Requests on the wire
// ---------------------------------------------------------------------------

/// A request as plain values.
pub ghost enum RequestView {
    Rtt { seq: u16, request_type: u16 },
    BwStart { seq: u16, request_type: u16 },
    BwPayload { seq: u16, payload: Seq<u8> },
    BwStop { seq: u16, request_type: u16, payload: Option<Seq<u8>> },
    NetChar { seq: u16, request_type: u16, base_rtt: Option<u32>, bandwidth: Option<u32>, average_rtt: Option<u32> },
}

pub open spec fn request_view(r: AutoDetectRequest) -> RequestView {
    match r {
        AutoDetectRequest::RttRequest { sequence_number, request_type } => RequestView::Rtt {
            seq: sequence_number,
            request_type,
        },
        AutoDetectRequest::BandwidthMeasureStart { sequence_number, request_type } => RequestView::BwStart {
            seq: sequence_number,
            request_type,
        },
        AutoDetectRequest::BandwidthMeasurePayload { sequence_number, payload } => RequestView::BwPayload {
            seq: sequence_number,
            payload: payload@,
        },
        AutoDetectRequest::BandwidthMeasureStop { sequence_number, request_type, payload } => RequestView::BwStop {
            seq: sequence_number,
            request_type,
            payload: match payload {
                Some(p) => Some(p@),
                None => None,
            },
        },
        AutoDetectRequest::NetworkCharacteristicsResult {
            sequence_number,
            request_type,
            base_rtt_ms,
            bandwidth_kbps,
            average_rtt_ms,
        } => RequestView::NetChar {
            seq: sequence_number,
            request_type,
            base_rtt: base_rtt_ms,
            bandwidth: bandwidth_kbps,
            average_rtt: average_rtt_ms,
        },
    }
}

pub open spec fn is_rtt_type(t: u16) -> bool {
    t == 0x0001 || t == 0x1001
}

pub open spec fn is_bw_start_type(t: u16) -> bool {
    t == 0x0014 || t == 0x0114 || t == 0x1014
}

/// The request at the start of `s`, with its size: header length, type id
/// 0 (request), sequence number and request type, then what the type
/// carries. A connect-time bandwidth stop and a bandwidth payload carry a
/// 16-bit payload length and the payload; network characteristics carry
/// the base RTT, the bandwidth and the average RTT as the type selects.
pub open spec fn parse_request(s: Seq<u8>) -> Option<(RequestView, int)> {
    if s.len() < 6 || s[1] != 0 {
        None
    } else {
        let seq = get_le16(s, 2);
        let t = get_le16(s, 4);
        if is_rtt_type(t) {
            Some((RequestView::Rtt { seq, request_type: t }, 6))
        } else if is_bw_start_type(t) {
            Some((RequestView::BwStart { seq, request_type: t }, 6))
        } else if t == 0x0002 || t == 0x002B {
            if s.len() < 8 || s.len() < 8 + get_le16(s, 6) {
                None
            } else {
                let payload = s.subrange(8, 8 + get_le16(s, 6));
                if t == 0x0002 {
                    Some((RequestView::BwPayload { seq, payload }, 8 + get_le16(s, 6)))
                } else {
                    Some((RequestView::BwStop { seq, request_type: t, payload: Some(payload) }, 8 + get_le16(s, 6)))
                }
            }
        } else if t == 0x0429 || t == 0x0629 {
            Some((RequestView::BwStop { seq, request_type: t, payload: None }, 6))
        } else if t == 0x0840 || t == 0x0880 {
            if s.len() < 14 {
                None
            } else {
                Some(
                    (
                        RequestView::NetChar {
                            seq,
                            request_type: t,
                            base_rtt: if t == 0x0840 { Some(get_le32(s, 6)) } else { None },
                            bandwidth: if t == 0x0880 { Some(get_le32(s, 6)) } else { None },
                            average_rtt: Some(get_le32(s, 10)),
                        },
                        14,
                    ),
                )
            }
        } else if t == 0x08C0 {
            if s.len() < 18 {
                None
            } else {
                Some(
                    (
                        RequestView::NetChar {
                            seq,
                            request_type: t,
                            base_rtt: Some(get_le32(s, 6)),
                            bandwidth: Some(get_le32(s, 10)),
                            average_rtt: Some(get_le32(s, 14)),
                        },
                        18,
                    ),
                )
            }
        } else {
            None
        }
    }
}

/// Copies `src[from..to]` into a new vector.
fn copy_out(src: &[u8], from: usize, to: usize) -> (r: Vec<u8>)
    requires
        from <= to <= src@.len(),
    ensures
        r@ == src@.subrange(from as int, to as int),
{
    let mut out: Vec<u8> = Vec::new();
    push_slice(&mut out, &src[from..to]);
    out
}

impl AutoDetectRequest {
    /// Decodes the request at the start of `src`; returns it with the
    /// number of bytes consumed.
    pub fn decode(src: &[u8]) -> (r: Result<(AutoDetectRequest, usize), PduError>)
        ensures
            match parse_request(src@) {
                Some((v, n)) => r matches Ok((q, m)) && request_view(q) == v && m == n,
                None => r is Err,
            },
    {
        let len = src.len();
        if len < 6 {
            return Err(PduError::NotEnoughBytes { name: "AutoDetectRequest", received: len, expected: 6 });
        }
        if src[1] != 0 {
            return Err(PduError::UnsupportedValue { field: "headerTypeId", value: src[1] as u32 });
        }
        let seq = read_u16_le(src, 2);
        let t = read_u16_le(src, 4);
        if t == 0x0001 || t == 0x1001 {
            Ok((AutoDetectRequest::RttRequest { sequence_number: seq, request_type: t }, 6))
        } else if t == 0x0014 || t == 0x0114 || t == 0x1014 {
            Ok((AutoDetectRequest::BandwidthMeasureStart { sequence_number: seq, request_type: t }, 6))
        } else if t == 0x0002 || t == 0x002B {
            if len < 8 {
                return Err(PduError::NotEnoughBytes { name: "AutoDetectRequest", received: len, expected: 8 });
            }
            let n = read_u16_le(src, 6) as usize;
            if len - 8 < n {
                return Err(PduError::NotEnoughBytes { name: "AutoDetectRequest", received: len, expected: 8 + n });
            }
            let payload = copy_out(src, 8, 8 + n);
            if t == 0x0002 {
                Ok((AutoDetectRequest::BandwidthMeasurePayload { sequence_number: seq, payload }, 8 + n))
            } else {
                Ok(
                    (
                        AutoDetectRequest::BandwidthMeasureStop {
                            sequence_number: seq,
                            request_type: t,
                            payload: Some(payload),
                        },
                        8 + n,
                    ),
                )
            }
        } else if t == 0x0429 || t == 0x0629 {
            Ok((AutoDetectRequest::BandwidthMeasureStop { sequence_number: seq, request_type: t, payload: None }, 6))
        } else if t == 0x0840 || t == 0x0880 {
            if len < 14 {
                return Err(PduError::NotEnoughBytes { name: "AutoDetectRequest", received: len, expected: 14 });
            }
            let first = read_u32_le(src, 6);
            let average = read_u32_le(src, 10);
            Ok(
                (
                    AutoDetectRequest::NetworkCharacteristicsResult {
                        sequence_number: seq,
                        request_type: t,
                        base_rtt_ms: if t == 0x0840 { Some(first) } else { None },
                        bandwidth_kbps: if t == 0x0880 { Some(first) } else { None },
                        average_rtt_ms: Some(average),
                    },
                    14,
                ),
            )
        } else if t == 0x08C0 {
            if len < 18 {
                return Err(PduError::NotEnoughBytes { name: "AutoDetectRequest", received: len, expected: 18 });
            }
            Ok(
                (
                    AutoDetectRequest::NetworkCharacteristicsResult {
                        sequence_number: seq,
                        request_type: t,
                        base_rtt_ms: Some(read_u32_le(src, 6)),
                        bandwidth_kbps: Some(read_u32_le(src, 10)),
                        average_rtt_ms: Some(read_u32_le(src, 14)),
                    },
                    18,
                ),
            )
        } else {
            Err(PduError::UnsupportedValue { field: "requestType", value: t as u32 })
        }
    }
}

/// An RTT request as the server writes it: header length 6, type id 0,
/// sequence number, request type.
pub open spec fn rtt_request_bytes(seq: u16, request_type: u16) -> Seq<u8> {
    seq![6u8, 0u8] + le16(seq) + le16(request_type)
}

/// Appends an RTT request (the form a server sends; used to exercise the
/// classifier).
pub fn encode_rtt_request(seq: u16, request_type: u16, dst: &mut Vec<u8>)
    ensures
        final(dst)@ == old(dst)@ + rtt_request_bytes(seq, request_type),
{
    dst.push(6);
    dst.push(0);
    push_u16_le(dst, seq);
    push_u16_le(dst, request_type);
    assert(final(dst)@ =~= old(dst)@ + rtt_request_bytes(seq, request_type));
}

/// A connect-time PDU framed with a security header.
pub enum ConnectTimePdu {
    /// An auto-detect request (the header carries `AUTODETECT_REQ`).
    AutoDetectRequest(AutoDetectRequest),
    /// Anything else; it belongs to the next phase (licensing, most often).
    Other,
}

/// The flags word of the security header at the start of `s`, if there is
/// a whole header.
pub open spec fn security_flags(s: Seq<u8>) -> Option<u16> {
    if s.len() < 4 {
        None
    } else {
        Some(get_le16(s, 0))
    }
}

/// Classifies a security-header-framed PDU: an auto-detect request when the
/// header carries `AUTODETECT_REQ` (its body is then decoded), anything
/// else otherwise.
pub fn classify_connect_time_pdu(user_data: &[u8]) -> (r: Result<ConnectTimePdu, PduError>)
    ensures
        match security_flags(user_data@) {
            None => r is Err,
            Some(flags) => if flags & 0x1000 == 0x1000 {
                match parse_request(user_data@.subrange(4, user_data@.len() as int)) {
                    Some((v, _)) => r matches Ok(ConnectTimePdu::AutoDetectRequest(q)) && request_view(q) == v,
                    None => r is Err,
                }
            } else {
                r matches Ok(ConnectTimePdu::Other)
            },
        },
{
    let len = user_data.len();
    if len < 4 {
        return Err(PduError::NotEnoughBytes { name: "BasicSecurityHeader", received: len, expected: 4 });
    }
    let flags = read_u16_le(user_data, 0);
    if flags & AUTODETECT_REQ == AUTODETECT_REQ {
        let body = &user_data[4..len];
        assert(body@ =~= user_data@.subrange(4, len as int));
        let (request, _) = AutoDetectRequest::decode(body)?;
        Ok(ConnectTimePdu::AutoDetectRequest(request))
    } else {
        Ok(ConnectTimePdu::Other)
    }
}

/// The response to an auto-detect request that arrived framed with a
/// security header in session: `Some` for a request that needs one (RTT
/// measure, bandwidth stop), `None` for other requests and for PDUs that
/// are not auto-detect requests, an error when the header or the request
/// does not decode.
pub fn in_session_autodetect_response(user_data: &[u8]) -> (r: Result<Option<ConnectTimeAutoDetectRsp>, PduError>)
    ensures
        match security_flags(user_data@) {
            None => r is Err,
            Some(flags) => if flags & 0x1000 == 0x1000 {
                match parse_request(user_data@.subrange(4, user_data@.len() as int)) {
                    Some((v, _)) => r is Ok && (r->Ok_0 is Some <==> (v is Rtt || v is BwStop)),
                    None => r is Err,
                }
            } else {
                r == Ok::<Option<ConnectTimeAutoDetectRsp>, PduError>(None)
            },
        },
        r matches Ok(Some(rsp)) ==> (classify_is_request(user_data@) && rsp.response == reply_to_view(
            request_in(user_data@),
        )),
{
    match classify_connect_time_pdu(user_data)? {
        ConnectTimePdu::AutoDetectRequest(request) => {
            proof {
                lemma_reply_matches_view(request);
            }
            match response_for_request(&request) {
                Some(response) => Ok(Some(ConnectTimeAutoDetectRsp::new(response))),
                None => Ok(None),
            }
        },
        ConnectTimePdu::Other => Ok(None),
    }
}

/// `s` starts with a security header that carries `AUTODETECT_REQ` and a
/// request that decodes.
pub open spec fn classify_is_request(s: Seq<u8>) -> bool {
    &&& security_flags(s) matches Some(f) && f & 0x1000 == 0x1000
    &&& parse_request(s.subrange(4, s.len() as int)) is Some
}

/// The request after the security header at the start of `s` (meaningful
/// when `classify_is_request(s)`).
pub open spec fn request_in(s: Seq<u8>) -> RequestView {
    match parse_request(s.subrange(4, s.len() as int)) {
        Some((v, _)) => v,
        None => RequestView::Rtt { seq: 0, request_type: 0 },
    }
}

/// The reply to a request given as plain values (see `reply_to`).
pub open spec fn reply_to_view(v: RequestView) -> AutoDetectResponse {
    match v {
        RequestView::Rtt { seq, .. } => AutoDetectResponse::RttResponse { sequence_number: seq },
        RequestView::BwStop { seq, payload, .. } => AutoDetectResponse::BandwidthMeasureResults {
            sequence_number: seq,
            response_type: 0x0003,
            time_delta_ms: 1,
            byte_count: match payload {
                None => 0,
                Some(p) => if p.len() > u32::MAX {
                    u32::MAX
                } else {
                    p.len() as u32
                },
            },
        },
        _ => AutoDetectResponse::RttResponse { sequence_number: 0 },
    }
}

proof fn lemma_reply_matches_view(r: AutoDetectRequest)
    ensures
        reply_to(r) is Some <==> (request_view(r) is Rtt || request_view(r) is BwStop),
        reply_to(r) matches Some(rsp) ==> rsp == reply_to_view(request_view(r)),
{
}

/// Exactly the RTT requests and the bandwidth stops are answered, and an
/// answer carries the request's sequence number.
pub proof fn lemma_reply_echoes_sequence(request: AutoDetectRequest)
    ensures
        reply_to(request) is Some <==> (request is RttRequest || request is BandwidthMeasureStop),
        request matches AutoDetectRequest::RttRequest { sequence_number, .. } ==> reply_to(request) == Some(
            AutoDetectResponse::RttResponse { sequence_number },
        ),
        request matches AutoDetectRequest::BandwidthMeasureStop { sequence_number, .. } ==> (reply_to(request)
            matches Some(AutoDetectResponse::BandwidthMeasureResults { sequence_number: s, .. })
            && s == sequence_number),
{
}

/// `s` is a security-header-framed auto-detect request that is answered:
/// an RTT measure request or a bandwidth measure stop.
pub open spec fn answered_in_session(s: Seq<u8>) -> bool {
    classify_is_request(s) && (request_in(s) is Rtt || request_in(s) is BwStop)
}

/// A PDU arrived on a channel that is neither the I/O channel nor a static
/// virtual channel, and it is not one to answer or to tolerate.
#[derive(Debug, Clone, Copy, PartialEq, Eq, Structural)]
pub struct UnexpectedChannel {
    pub channel_id: u16,
}

/// Handles a PDU on a channel that nothing is registered for. Auto-detect
/// requests that the server sends on the message channel are answered (the
/// response goes out on the I/O channel); anything else on the message
/// channel (0) is dropped; on any other channel it is an error.
pub fn route_unrouted_channel(channel_id: u16, user_data: &[u8]) -> (r: Result<
    Option<ConnectTimeAutoDetectRsp>,
    UnexpectedChannel,
>)
    ensures
        r matches Ok(Some(rsp)) <==> answered_in_session(user_data@),
        r matches Ok(Some(rsp)) ==> rsp.response == reply_to_view(request_in(user_data@)),
        r is Err <==> !answered_in_session(user_data@) && channel_id != 0,
        r matches Err(e) ==> e.channel_id == channel_id,
{
    match in_session_autodetect_response(user_data) {
        Ok(Some(rsp)) => Ok(Some(rsp)),
        _ => {
            if channel_id == 0 {
                Ok(None)
            } else {
                Err(UnexpectedChannel { channel_id })
            }
        },
    }
}

} // verus!
