//! Decisions of a server session once a client is accepted: what the
//! client's capabilities select (fast-path output is required, the last
//! RemoteFX or QOI codec offered wins), where an MCS message goes, and how
//! many audio waves a batch of server events may carry.
//!
//! The caller decodes the PDUs, performs the I/O and hands over what the
//! decisions read.

use vstd::prelude::*;

use crate::x224::DisconnectReason;

verus! {

// ---------------------------------------------------------------------------
// Capability negotiation
// ---------------------------------------------------------------------------

/// A bitmap codec a client offers, with the properties the server reads.
#[derive(Debug, Clone)]
pub enum CodecProperty {
    /// RemoteFX from a client container: the entropy algorithm of each of
    /// its capability sets.
    RemoteFx(Vec<u32>),
    /// Image RemoteFX from a client container, likewise.
    ImageRemoteFx(Vec<u32>),
    NsCodec,
    Qoi,
    QoiZ,
    /// Anything else (a server container among them).
    Other,
}

/// A codec with the id the client gave it.
#[derive(Debug, Clone)]
pub struct ClientCodec {
    pub id: u8,
    pub property: CodecProperty,
}

/// A client capability set, as far as the server reads it.
#[derive(Debug, Clone)]
pub enum ClientCapability {
    General { fastpath_output_supported: bool },
    Bitmap { desktop_resize: bool, desktop_width: u16, desktop_height: u16 },
    SurfaceCommands { flags: u32 },
    BitmapCodecs(Vec<ClientCodec>),
    Other,
}

/// The codecs the server may use.
#[derive(Debug, Clone, Copy, PartialEq, Eq, Structural)]
pub struct ServerCodecOptions {
    pub remote_fx: bool,
    pub image_remote_fx: bool,
    pub qoi: bool,
    pub qoiz: bool,
}

/// What the client's capabilities selected.
pub struct NegotiatedCaps {
    /// The client's surface command flags (none when it sent no set).
    pub surface_flags: u32,
    /// RemoteFX: the entropy algorithm and the codec id.
    pub remotefx: Option<(u32, u8)>,
    pub qoi: Option<u8>,
    pub qoiz: Option<u8>,
    /// The desktop sizes of the clients' bitmap sets that allow resizing,
    /// in order; each is asked of the display.
    pub size_requests: Vec<(u16, u16)>,
}

/// The negotiation state as plain values.
pub struct CapsState {
    pub surface_flags: u32,
    pub remotefx: Option<(u32, u8)>,
    pub qoi: Option<u8>,
    pub qoiz: Option<u8>,
    pub size_requests: Seq<(u16, u16)>,
}

/// The client cannot take fast-path output.
#[derive(Debug, Clone, Copy, PartialEq, Eq, Structural)]
pub enum CapsError {
    FastpathOutputNotSupported,
}

/// Nothing selected yet.
pub open spec fn caps_start() -> CapsState {
    CapsState { surface_flags: 0, remotefx: None, qoi: None, qoiz: None, size_requests: Seq::empty() }
}

/// The RemoteFX choice after the entropy algorithms `e` of a codec with
/// id `id`: the last one, when there is one.
pub open spec fn remotefx_after(prev: Option<(u32, u8)>, e: Seq<u32>, id: u8) -> Option<(u32, u8)> {
    if e.len() == 0 {
        prev
    } else {
        Some((e.last(), id))
    }
}

/// The state after one offered codec.
pub open spec fn codec_step(st: CapsState, c: ClientCodec, opts: ServerCodecOptions) -> CapsState {
    match c.property {
        CodecProperty::RemoteFx(e) => if opts.remote_fx {
            CapsState { remotefx: remotefx_after(st.remotefx, e@, c.id), ..st }
        } else {
            st
        },
        CodecProperty::ImageRemoteFx(e) => if opts.image_remote_fx {
            CapsState { remotefx: remotefx_after(st.remotefx, e@, c.id), ..st }
        } else {
            st
        },
        CodecProperty::Qoi => if opts.qoi {
            CapsState { qoi: Some(c.id), ..st }
        } else {
            st
        },
        CodecProperty::QoiZ => if opts.qoiz {
            CapsState { qoiz: Some(c.id), ..st }
        } else {
            st
        },
        _ => st,
    }
}

/// The state after the offered codecs, in order.
pub open spec fn codecs_fold(st: CapsState, cs: Seq<ClientCodec>, opts: ServerCodecOptions) -> CapsState
    decreases cs.len(),
{
    if cs.len() == 0 {
        st
    } else {
        codec_step(codecs_fold(st, cs.drop_last(), opts), cs.last(), opts)
    }
}

/// The state after one capability set.
pub open spec fn cap_step(st: CapsState, c: ClientCapability, opts: ServerCodecOptions) -> Result<CapsState, CapsError> {
    match c {
        ClientCapability::General { fastpath_output_supported } => if fastpath_output_supported {
            Ok(st)
        } else {
            Err(CapsError::FastpathOutputNotSupported)
        },
        ClientCapability::Bitmap { desktop_resize, desktop_width, desktop_height } => if desktop_resize {
            Ok(CapsState { size_requests: st.size_requests.push((desktop_width, desktop_height)), ..st })
        } else {
            Ok(st)
        },
        ClientCapability::SurfaceCommands { flags } => Ok(CapsState { surface_flags: flags, ..st }),
        ClientCapability::BitmapCodecs(cs) => Ok(codecs_fold(st, cs@, opts)),
        ClientCapability::Other => Ok(st),
    }
}

/// The outcome of the capability sets, in order; the first one that
/// refuses fast-path output stops the negotiation.
pub open spec fn caps_fold(caps: Seq<ClientCapability>, opts: ServerCodecOptions) -> Result<CapsState, CapsError>
    decreases caps.len(),
{
    if caps.len() == 0 {
        Ok(caps_start())
    } else {
        match caps_fold(caps.drop_last(), opts) {
            Ok(st) => cap_step(st, caps.last(), opts),
            Err(e) => Err(e),
        }
    }
}

/// `n` holds the state `st`.
pub open spec fn holds(n: NegotiatedCaps, st: CapsState) -> bool {
    &&& n.surface_flags == st.surface_flags
    &&& n.remotefx == st.remotefx
    &&& n.qoi == st.qoi
    &&& n.qoiz == st.qoiz
    &&& n.size_requests@ == st.size_requests
}

proof fn lemma_caps_fold_err_sticks(caps: Seq<ClientCapability>, opts: ServerCodecOptions, i: int)
    requires
        0 <= i <= caps.len(),
        caps_fold(caps.take(i), opts) is Err,
    ensures
        caps_fold(caps, opts) == caps_fold(caps.take(i), opts),
    decreases caps.len() - i,
{
    if i == caps.len() {
        assert(caps.take(i) =~= caps);
    } else {
        assert(caps.take(i + 1).drop_last() =~= caps.take(i));
        lemma_caps_fold_err_sticks(caps, opts, i + 1);
    }
}

/// Applies one offered codec.
fn apply_codec(n: &mut NegotiatedCaps, c: &ClientCodec, opts: &ServerCodecOptions)
    ensures
        forall|st: CapsState| holds(*old(n), st) ==> holds(*final(n), codec_step(st, *c, *opts)),
{
    match &c.property {
        CodecProperty::RemoteFx(e) => {
            if opts.remote_fx && e.len() > 0 {
                n.remotefx = Some((e[e.len() - 1], c.id));
            }
        },
        CodecProperty::ImageRemoteFx(e) => {
            if opts.image_remote_fx && e.len() > 0 {
                n.remotefx = Some((e[e.len() - 1], c.id));
            }
        },
        CodecProperty::Qoi => {
            if opts.qoi {
                n.qoi = Some(c.id);
            }
        },
        CodecProperty::QoiZ => {
            if opts.qoiz {
                n.qoiz = Some(c.id);
            }
        },
        _ => {},
    }
}

/// Reads the client's capability sets in order: a client without fast-path
/// output is refused; a bitmap set that allows resizing asks the display
/// for its desktop size; the surface command flags are taken; of the
/// codecs the server may use, the last RemoteFX (or image RemoteFX)
/// capability set offered selects the entropy algorithm, and the last QOI
/// and QOIZ codecs their ids.
pub fn negotiate_client_caps(caps: &Vec<ClientCapability>, opts: &ServerCodecOptions) -> (r: Result<
    NegotiatedCaps,
    CapsError,
>)
    ensures
        match caps_fold(caps@, *opts) {
            Ok(st) => r matches Ok(n) && holds(n, st),
            Err(e) => r == Err::<NegotiatedCaps, CapsError>(e),
        },
{
    let mut n = NegotiatedCaps { surface_flags: 0, remotefx: None, qoi: None, qoiz: None, size_requests: Vec::new() };
    let len = caps.len();
    let mut i: usize = 0;
    assert(caps@.take(0) =~= Seq::<ClientCapability>::empty());
    while i < len
        invariant
            len == caps@.len(),
            i <= len,
            caps_fold(caps@.take(i as int), *opts) matches Ok(st) && holds(n, st),
        decreases len - i,
    {
        let ghost prev = caps_fold(caps@.take(i as int), *opts)->Ok_0;
        assert(caps@.take(i + 1).drop_last() =~= caps@.take(i as int));
        assert(caps@.take(i + 1).last() == caps@[i as int]);
        match &caps[i] {
            ClientCapability::General { fastpath_output_supported } => {
                if !*fastpath_output_supported {
                    proof {
                        lemma_caps_fold_err_sticks(caps@, *opts, i + 1);
                    }
                    return Err(CapsError::FastpathOutputNotSupported);
                }
            },
            ClientCapability::Bitmap { desktop_resize, desktop_width, desktop_height } => {
                if *desktop_resize {
                    n.size_requests.push((*desktop_width, *desktop_height));
                }
            },
            ClientCapability::SurfaceCommands { flags } => {
                n.surface_flags = *flags;
            },
            ClientCapability::BitmapCodecs(codecs) => {
                let clen = codecs.len();
                let mut j: usize = 0;
                assert(codecs@.take(0) =~= Seq::<ClientCodec>::empty());
                while j < clen
                    invariant
                        clen == codecs@.len(),
                        j <= clen,
                        holds(n, codecs_fold(prev, codecs@.take(j as int), *opts)),
                    decreases clen - j,
                {
                    assert(codecs@.take(j + 1).drop_last() =~= codecs@.take(j as int));
                    let ghost before = codecs_fold(prev, codecs@.take(j as int), *opts);
                    apply_codec(&mut n, &codecs[j], opts);
                    assert(holds(n, codec_step(before, codecs@[j as int], *opts)));
                    j = j + 1;
                }
                assert(codecs@.take(clen as int) =~= codecs@);
            },
            ClientCapability::Other => {},
        }
        i = i + 1;
    }
    assert(caps@.take(len as int) =~= caps@);
    Ok(n)
}

/// A client that refuses fast-path output anywhere in its capability sets
/// is refused, whatever else it offers.
pub proof fn lemma_no_fastpath_refused(caps: Seq<ClientCapability>, opts: ServerCodecOptions, i: int)
    requires
        0 <= i < caps.len(),
        caps[i] matches ClientCapability::General { fastpath_output_supported } && !fastpath_output_supported,
    ensures
        caps_fold(caps, opts) is Err,
{
    assert(caps.take(i + 1).drop_last() =~= caps.take(i));
    assert(caps.take(i + 1).last() == caps[i]);
    lemma_caps_fold_err_sticks(caps, opts, i + 1);
}

/// RemoteFX selection: when a client's bitmap codec set ends with a
/// RemoteFX or image RemoteFX codec that the server enables (plain RemoteFX
/// for the one, image RemoteFX for the other, independently) and that lists
/// entropy algorithms, negotiating the capability sets up to and including
/// it selects its last entropy algorithm with its id; one the server does
/// not enable, or with no entropy algorithm, keeps the earlier choice. QOI
/// and QOIZ are untouched either way. Likewise an enabled QOI (QOIZ) codec
/// last selects its id, and a disabled one keeps the earlier choice.
pub proof fn lemma_remotefx_selected_by_last_codec(
    caps: Seq<ClientCapability>,
    codecs: Vec<ClientCodec>,
    opts: ServerCodecOptions,
)
    requires
        caps_fold(caps, opts) is Ok,
        codecs@.len() > 0,
    ensures
        ({
            let before = codecs_fold(caps_fold(caps, opts)->Ok_0, codecs@.drop_last(), opts);
            let c = codecs@.last();
            let after = caps_fold(caps.push(ClientCapability::BitmapCodecs(codecs)), opts);
            &&& after is Ok
            &&& (c.property is RemoteFx || c.property is ImageRemoteFx) ==> after->Ok_0.qoi == before.qoi
                && after->Ok_0.qoiz == before.qoiz
            &&& c.property matches CodecProperty::RemoteFx(e) ==> after->Ok_0.remotefx == (if opts.remote_fx
                && e@.len() > 0 {
                Some((e@[e@.len() - 1], c.id))
            } else {
                before.remotefx
            })
            &&& c.property is Qoi ==> after->Ok_0.qoi == (if opts.qoi { Some(c.id) } else { before.qoi })
                && after->Ok_0.qoiz == before.qoiz && after->Ok_0.remotefx == before.remotefx
            &&& c.property is QoiZ ==> after->Ok_0.qoiz == (if opts.qoiz { Some(c.id) } else { before.qoiz })
                && after->Ok_0.qoi == before.qoi && after->Ok_0.remotefx == before.remotefx
            &&& c.property matches CodecProperty::ImageRemoteFx(e) ==> after->Ok_0.remotefx == (if opts.image_remote_fx
                && e@.len() > 0 {
                Some((e@[e@.len() - 1], c.id))
            } else {
                before.remotefx
            })
        }),
{
    let pushed = caps.push(ClientCapability::BitmapCodecs(codecs));
    assert(pushed.drop_last() =~= caps);
    assert(pushed.last() == ClientCapability::BitmapCodecs(codecs));
    let st = caps_fold(caps, opts)->Ok_0;
    assert(caps_fold(pushed, opts) == cap_step(st, pushed.last(), opts));
    assert(codecs_fold(st, codecs@, opts) == codec_step(
        codecs_fold(st, codecs@.drop_last(), opts),
        codecs@.last(),
        opts,
    ));
}

// ---------------------------------------------------------------------------
// MCS routing
// ---------------------------------------------------------------------------

/// An MCS message from the client, as far as routing reads it.
#[derive(Debug, Clone, Copy, PartialEq, Eq, Structural)]
pub enum McsMessageKind {
    SendDataRequest { channel_id: u16 },
    DisconnectProviderUltimatum(DisconnectReason),
    Other,
}

/// Where a client MCS message goes.
#[derive(Debug, Clone, Copy, PartialEq, Eq, Structural)]
pub enum McsRoute {
    /// Share control data on the I/O channel.
    IoChannel,
    /// Data for a static virtual channel.
    StaticChannel(u16),
    /// Data on a channel nobody joined: dropped.
    UnexpectedChannel(u16),
    /// The user asked to disconnect.
    Disconnect,
    /// Dropped.
    Ignore,
}

/// Routes a client MCS message: data on the I/O channel first, then on a
/// static channel; an ultimatum disconnects when the user asked for it.
pub fn route_mcs_message(msg: McsMessageKind, io_channel_id: u16, static_channel_ids: &Vec<u16>) -> (r: McsRoute)
    ensures
        r == match msg {
            McsMessageKind::SendDataRequest { channel_id } => if channel_id == io_channel_id {
                McsRoute::IoChannel
            } else if static_channel_ids@.contains(channel_id) {
                McsRoute::StaticChannel(channel_id)
            } else {
                McsRoute::UnexpectedChannel(channel_id)
            },
            McsMessageKind::DisconnectProviderUltimatum(reason) => if reason == DisconnectReason::UserRequested {
                McsRoute::Disconnect
            } else {
                McsRoute::Ignore
            },
            McsMessageKind::Other => McsRoute::Ignore,
        },
{
    match msg {
        McsMessageKind::SendDataRequest { channel_id } => {
            if channel_id == io_channel_id {
                return McsRoute::IoChannel;
            }
            let n = static_channel_ids.len();
            for k in 0..n
                invariant
                    n == static_channel_ids@.len(),
                    msg == (McsMessageKind::SendDataRequest { channel_id }),
                    channel_id != io_channel_id,
                    forall|j: int| 0 <= j < k ==> static_channel_ids@[j] != channel_id,
            {
                if static_channel_ids[k] == channel_id {
                    assert(static_channel_ids@[k as int] == channel_id);
                    assert(static_channel_ids@.contains(channel_id));
                    return McsRoute::StaticChannel(channel_id);
                }
            }
            McsRoute::UnexpectedChannel(channel_id)
        },
        McsMessageKind::DisconnectProviderUltimatum(reason) => {
            if reason == DisconnectReason::UserRequested {
                McsRoute::Disconnect
            } else {
                McsRoute::Ignore
            }
        },
        McsMessageKind::Other => McsRoute::Ignore,
    }
}

/// A share data PDU on the I/O channel, as far as the server reads it.
#[derive(Debug, Clone, Copy, PartialEq, Eq, Structural)]
pub enum IoChannelData {
    Input,
    ShutdownRequest,
    /// Another share data PDU, or share control that is not data.
    Other,
}

/// What I/O channel data does.
#[derive(Debug, Clone, Copy, PartialEq, Eq, Structural)]
pub enum IoChannelAction {
    HandleInput,
    Disconnect,
    Ignore,
}

/// Input goes to the input handler, a shutdown request disconnects, the
/// rest is dropped.
pub fn io_channel_action(data: IoChannelData) -> (r: IoChannelAction)
    ensures
        r == match data {
            IoChannelData::Input => IoChannelAction::HandleInput,
            IoChannelData::ShutdownRequest => IoChannelAction::Disconnect,
            IoChannelData::Other => IoChannelAction::Ignore,
        },
{
    match data {
        IoChannelData::Input => IoChannelAction::HandleInput,
        IoChannelData::ShutdownRequest => IoChannelAction::Disconnect,
        IoChannelData::Other => IoChannelAction::Ignore,
    }
}

// ---------------------------------------------------------------------------
// Server events
// ---------------------------------------------------------------------------

/// How many audio waves one batch of server events may send.
pub const WAVE_LIMIT: usize = 4;

/// A server event, as far as dispatching reads it.
#[derive(Debug, Clone, Copy, PartialEq, Eq, Structural)]
pub enum ServerEventKind {
    Quit,
    GetLocalAddr,
    SetCredentials,
    /// An audio wave; dropped without an audio channel.
    RdpsndWave,
    /// Another audio message.
    RdpsndOther,
    Clipboard,
    Echo,
    Egfx,
}

/// What becomes of a server event.
#[derive(Debug, Clone, Copy, PartialEq, Eq, Structural)]
pub enum EventDecision {
    /// Handle it.
    Dispatch,
    /// An audio wave over the batch's limit, or without an audio channel:
    /// dropped.
    DropWave,
    /// Quit: the session ends and the rest of the batch is dropped.
    Disconnect,
}

/// The decisions for `events` with `budget` waves left.
pub open spec fn event_decisions(events: Seq<ServerEventKind>, rdpsnd_present: bool, budget: nat) -> Seq<EventDecision>
    decreases events.len(),
{
    if events.len() == 0 {
        Seq::empty()
    } else {
        match events[0] {
            ServerEventKind::Quit => seq![EventDecision::Disconnect],
            ServerEventKind::RdpsndWave => if rdpsnd_present && budget > 0 {
                seq![EventDecision::Dispatch] + event_decisions(events.drop_first(), rdpsnd_present, (budget - 1) as nat)
            } else {
                seq![EventDecision::DropWave] + event_decisions(events.drop_first(), rdpsnd_present, budget)
            },
            _ => seq![EventDecision::Dispatch] + event_decisions(events.drop_first(), rdpsnd_present, budget),
        }
    }
}

/// How many waves `d` lets through for `events`.
pub open spec fn waves_sent(events: Seq<ServerEventKind>, d: Seq<EventDecision>) -> nat
    decreases d.len(),
{
    if d.len() == 0 || events.len() == 0 {
        0
    } else {
        (if events[0] == ServerEventKind::RdpsndWave && d[0] == EventDecision::Dispatch {
            1nat
        } else {
            0nat
        }) + waves_sent(events.drop_first(), d.drop_first())
    }
}

proof fn lemma_event_decisions_shape(events: Seq<ServerEventKind>, rdpsnd_present: bool, budget: nat)
    ensures
        event_decisions(events, rdpsnd_present, budget).len() <= events.len(),
        waves_sent(events, event_decisions(events, rdpsnd_present, budget)) <= budget,
    decreases events.len(),
{
    if events.len() > 0 {
        let rest = events.drop_first();
        match events[0] {
            ServerEventKind::Quit => {
                let d = event_decisions(events, rdpsnd_present, budget);
                assert(d.drop_first() =~= Seq::<EventDecision>::empty());
                assert(waves_sent(rest, d.drop_first()) == 0);
            },
            ServerEventKind::RdpsndWave => if rdpsnd_present && budget > 0 {
                lemma_event_decisions_shape(rest, rdpsnd_present, (budget - 1) as nat);
                let d = event_decisions(events, rdpsnd_present, budget);
                assert(d[0] == EventDecision::Dispatch);
                assert(d.drop_first() =~= event_decisions(rest, rdpsnd_present, (budget - 1) as nat));
            } else {
                lemma_event_decisions_shape(rest, rdpsnd_present, budget);
                let d = event_decisions(events, rdpsnd_present, budget);
                assert(d[0] == EventDecision::DropWave);
                assert(d.drop_first() =~= event_decisions(rest, rdpsnd_present, budget));
            },
            _ => {
                lemma_event_decisions_shape(rest, rdpsnd_present, budget);
                let d = event_decisions(events, rdpsnd_present, budget);
                assert(d.drop_first() =~= event_decisions(rest, rdpsnd_present, budget));
            },
        }
    }
}

/// One batch of server events never sends more than four audio waves.
pub proof fn lemma_wave_limit(events: Seq<ServerEventKind>, rdpsnd_present: bool)
    ensures
        waves_sent(events, event_decisions(events, rdpsnd_present, WAVE_LIMIT as nat)) <= WAVE_LIMIT,
{
    lemma_event_decisions_shape(events, rdpsnd_present, WAVE_LIMIT as nat);
}

/// Decides a batch of server events in order: audio waves beyond the
/// batch's limit (or without an audio channel) are dropped, and a quit ends
/// the batch.
pub fn plan_server_events(events: &Vec<ServerEventKind>, rdpsnd_present: bool) -> (r: Vec<EventDecision>)
    ensures
        r@ == event_decisions(events@, rdpsnd_present, WAVE_LIMIT as nat),
{
    let mut out: Vec<EventDecision> = Vec::new();
    let mut budget: usize = WAVE_LIMIT;
    let n = events.len();
    let mut i: usize = 0;
    assert(events@.skip(0) =~= events@);
    assert(out@ + event_decisions(events@, rdpsnd_present, WAVE_LIMIT as nat) =~= event_decisions(
        events@,
        rdpsnd_present,
        WAVE_LIMIT as nat,
    ));
    while i < n
        invariant
            n == events@.len(),
            i <= n,
            budget <= WAVE_LIMIT,
            out@ + event_decisions(events@.skip(i as int), rdpsnd_present, budget as nat) == event_decisions(
                events@,
                rdpsnd_present,
                WAVE_LIMIT as nat,
            ),
        decreases n - i,
    {
        let ghost rest = events@.skip(i as int);
        assert(rest.drop_first() =~= events@.skip(i + 1));
        assert(rest[0] == events@[i as int]);
        let ghost before = out@;
        let ghost old_budget = budget;
        match events[i] {
            ServerEventKind::Quit => {
                out.push(EventDecision::Disconnect);
                assert(out@ =~= before + event_decisions(rest, rdpsnd_present, budget as nat));
                assert(out@ + event_decisions(events@.skip(n as int), rdpsnd_present, budget as nat) =~= out@);
                return out;
            },
            ServerEventKind::RdpsndWave => {
                if rdpsnd_present && budget > 0 {
                    out.push(EventDecision::Dispatch);
                    budget = budget - 1;
                } else {
                    out.push(EventDecision::DropWave);
                }
            },
            _ => {
                out.push(EventDecision::Dispatch);
            },
        }
        assert(out@ + event_decisions(events@.skip(i + 1), rdpsnd_present, budget as nat) =~= before
            + event_decisions(rest, rdpsnd_present, old_budget as nat));
        i = i + 1;
    }
    assert(events@.skip(n as int) =~= Seq::<ServerEventKind>::empty());
    assert(out@ + Seq::<EventDecision>::empty() =~= out@);
    out
}

} // verus!
