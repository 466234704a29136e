//! What the client session does with a PDU received on the I/O channel:
//! which ones are answered, which end the session and how, and which
//! server-issued auto-reconnect cookie it keeps for a later reconnect.
//!
//! Decoding the PDU and encoding the answers are the caller's; it hands
//! over what the decisions read, and performs the outputs in order.

use vstd::prelude::*;

use crate::autodetect::{AutoDetectRequest, AutoDetectResponse};
use crate::logon::ServerAutoReconnect;

verus! {

/// The reason of an MCS Disconnect Provider Ultimatum.
#[derive(Debug, Clone, Copy, PartialEq, Eq, Structural)]
pub enum DisconnectReason {
    DomainDisconnected,
    ProviderInitiated,
    TokenPurged,
    UserRequested,
    ChannelPurged,
}

/// Why the session is to be closed.
#[derive(Debug, Clone, Copy, PartialEq, Eq, Structural)]
pub enum DisconnectDescription {
    /// The MCS disconnect reason; the least specific description.
    McsDisconnect(DisconnectReason),
    /// The error code that the server sent in a Set Error Info PDU.
    ErrorInfo(u32),
}

/// A PDU received on the I/O channel, as far as the decisions read it.
#[derive(Debug, Clone)]
pub enum IoChannelPdu {
    /// Save Session Info; the auto-reconnect cookie when it carried Logon
    /// Info Extended with one.
    SaveSessionInfo { auto_reconnect: Option<ServerAutoReconnect> },
    SetKeyboardIndicators,
    /// Set Error Info with its error code (0 is "no error").
    ServerSetErrorInfo(u32),
    ShutdownDenied,
    AutoDetectRequest(AutoDetectRequest),
    /// Another share data PDU.
    OtherShareData,
    /// Initiate Multitransport Request.
    MultitransportRequest,
    /// Deactivate All.
    DeactivateAll,
    /// Server Redirection.
    Redirection,
}

/// What the session does, in order.
#[derive(Debug, Clone, Copy, PartialEq, Eq, Structural)]
pub enum ProcessorOutput {
    /// Send this auto-detect response as share data.
    SendAutoDetectResponse(AutoDetectResponse),
    /// Send an MCS Disconnect Provider Ultimatum, user requested.
    SendDisconnectUltimatum,
    /// Close the session gracefully.
    Disconnect(DisconnectDescription),
    /// Run the Deactivation-Reactivation Sequence.
    DeactivateAll,
    /// Hand the multitransport request to the application.
    MultitransportRequest,
    /// Reconnect to the redirection target.
    Redirect,
}

/// A share data PDU that the session does not handle.
#[derive(Debug, Clone, Copy, PartialEq, Eq, Structural)]
pub struct UnhandledPdu;

/// The I/O channel state that outlives a PDU.
pub struct IoChannelProcessor {
    /// The latest auto-reconnect cookie the server issued.
    pub reconnect_cookie: Option<ServerAutoReconnect>,
}

/// The outputs for `pdu`, or `None` when it is not handled.
pub open spec fn io_channel_outputs(pdu: IoChannelPdu) -> Option<Seq<ProcessorOutput>> {
    match pdu {
        IoChannelPdu::SaveSessionInfo { .. } => Some(Seq::empty()),
        IoChannelPdu::SetKeyboardIndicators => Some(Seq::empty()),
        IoChannelPdu::ServerSetErrorInfo(code) => if code == 0 {
            Some(Seq::empty())
        } else {
            Some(seq![ProcessorOutput::Disconnect(DisconnectDescription::ErrorInfo(code))])
        },
        IoChannelPdu::ShutdownDenied => Some(
            seq![
                ProcessorOutput::SendDisconnectUltimatum,
                ProcessorOutput::Disconnect(DisconnectDescription::McsDisconnect(DisconnectReason::UserRequested)),
            ],
        ),
        IoChannelPdu::AutoDetectRequest(req) => match req {
            AutoDetectRequest::RttRequest { sequence_number, .. } => Some(
                seq![ProcessorOutput::SendAutoDetectResponse(AutoDetectResponse::RttResponse { sequence_number })],
            ),
            _ => Some(Seq::empty()),
        },
        IoChannelPdu::OtherShareData => None,
        IoChannelPdu::MultitransportRequest => Some(seq![ProcessorOutput::MultitransportRequest]),
        IoChannelPdu::DeactivateAll => Some(seq![ProcessorOutput::DeactivateAll]),
        IoChannelPdu::Redirection => Some(seq![ProcessorOutput::Redirect]),
    }
}

impl IoChannelProcessor {
    /// No cookie yet.
    pub fn new() -> (r: IoChannelProcessor)
        ensures
            r.reconnect_cookie is None,
    {
        IoChannelProcessor { reconnect_cookie: None }
    }

    /// The latest auto-reconnect cookie the server issued.
    pub fn reconnect_cookie(&self) -> (r: Option<ServerAutoReconnect>)
        ensures
            r == self.reconnect_cookie,
    {
        self.reconnect_cookie
    }

    /// Handles a PDU of the I/O channel. A Save Session Info carrying an
    /// auto-reconnect cookie replaces the kept one; a Set Error Info other
    /// than "no error" and a Shutdown Denied (after the ultimatum) close the
    /// session; an RTT request is answered with its sequence number, other
    /// auto-detect requests are not; other share data is an error.
    pub fn process_io_channel(&mut self, pdu: IoChannelPdu) -> (r: Result<Vec<ProcessorOutput>, UnhandledPdu>)
        ensures
            match io_channel_outputs(pdu) {
                Some(outs) => r matches Ok(v) && v@ == outs,
                None => r is Err,
            },
            final(self).reconnect_cookie == match pdu {
                IoChannelPdu::SaveSessionInfo { auto_reconnect: Some(c) } => Some(c),
                _ => old(self).reconnect_cookie,
            },
    {
        let mut out: Vec<ProcessorOutput> = Vec::new();
        match pdu {
            IoChannelPdu::SaveSessionInfo { auto_reconnect } => {
                if let Some(cookie) = auto_reconnect {
                    self.reconnect_cookie = Some(cookie);
                }
            },
            IoChannelPdu::SetKeyboardIndicators => {},
            IoChannelPdu::ServerSetErrorInfo(code) => {
                if code != 0 {
                    out.push(ProcessorOutput::Disconnect(DisconnectDescription::ErrorInfo(code)));
                }
            },
            IoChannelPdu::ShutdownDenied => {
                out.push(ProcessorOutput::SendDisconnectUltimatum);
                out.push(
                    ProcessorOutput::Disconnect(DisconnectDescription::McsDisconnect(DisconnectReason::UserRequested)),
                );
            },
            IoChannelPdu::AutoDetectRequest(req) => match req {
                AutoDetectRequest::RttRequest { sequence_number, .. } => {
                    out.push(ProcessorOutput::SendAutoDetectResponse(AutoDetectResponse::RttResponse { sequence_number }));
                },
                _ => {},
            },
            IoChannelPdu::OtherShareData => {
                return Err(UnhandledPdu);
            },
            IoChannelPdu::MultitransportRequest => {
                out.push(ProcessorOutput::MultitransportRequest);
            },
            IoChannelPdu::DeactivateAll => {
                out.push(ProcessorOutput::DeactivateAll);
            },
            IoChannelPdu::Redirection => {
                out.push(ProcessorOutput::Redirect);
            },
        }
        proof {
            assert(io_channel_outputs(pdu) matches Some(outs) ==> out@ =~= outs);
        }
        Ok(out)
    }
}

/// A session closes, on the I/O channel, exactly for a Set Error Info that
/// reports an error and for a Shutdown Denied, and the ultimatum is sent
/// only on a Shutdown Denied, before the close.
pub proof fn lemma_disconnect_only_on_error_or_denial(pdu: IoChannelPdu, i: int)
    requires
        io_channel_outputs(pdu) matches Some(outs) && 0 <= i < outs.len() && outs[i] is Disconnect,
    ensures
        (pdu matches IoChannelPdu::ServerSetErrorInfo(code) && code != 0) || pdu is ShutdownDenied,
        pdu is ShutdownDenied ==> (io_channel_outputs(pdu) matches Some(outs)
            && outs[0] == ProcessorOutput::SendDisconnectUltimatum && i == 1),
{
}

} // verus!
