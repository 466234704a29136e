//! The playback side of an audio output: received packets are copied into
//! the device's callback buffers, and a gap (no packet in time) is filled
//! with silence.
//!
//! Waiting for the next packet is the caller's part: while
//! [`RxBuffer::fill_from_packet`] asks for one, it receives a packet or
//! times out, and calls [`RxBuffer::accept_packet`] or
//! [`RxBuffer::fill_silence`].

use vstd::prelude::*;

verus! {

/// The packet being played and how far it was played.
pub struct RxBuffer {
    last: Option<Vec<u8>>,
    idx: usize,
    silence_byte: u8,
}

/// The buffer's state as plain values: the packet's bytes and the position.
pub ghost struct RxView {
    pub last: Option<Seq<u8>>,
    pub idx: int,
    pub silence_byte: u8,
}

impl View for RxBuffer {
    type V = RxView;

    closed spec fn view(&self) -> RxView {
        RxView {
            last: match self.last {
                Some(p) => Some(p@),
                None => None,
            },
            idx: self.idx as int,
            silence_byte: self.silence_byte,
        }
    }
}

/// Where filling a callback buffer stands after a step.
#[derive(Debug, Clone, Copy, PartialEq, Eq, Structural)]
pub enum FillOutcome {
    /// The buffer is full.
    Full,
    /// The next packet is needed; this many bytes are filled.
    NeedPacket(usize),
}

/// How many bytes of the packet are copied into `data` from `filled` on.
pub open spec fn chunk_len(packet_len: int, idx: int, data_len: int, filled: int) -> int {
    if idx >= packet_len || filled >= data_len {
        0
    } else if packet_len - idx < data_len - filled {
        packet_len - idx
    } else {
        data_len - filled
    }
}

/// One fill step on plain values: the buffer's state, the callback buffer
/// and its fill level after copying what the current packet still holds
/// from `filled` on (a packet played to its end is dropped).
pub open spec fn fill_step(v: RxView, data: Seq<u8>, filled: int) -> (RxView, Seq<u8>, int) {
    match v.last {
        None => (v, data, filled),
        Some(p) => {
            let k = chunk_len(p.len() as int, v.idx, data.len() as int, filled);
            (
                if v.idx + k >= p.len() {
                    RxView { last: None, idx: 0, silence_byte: v.silence_byte }
                } else {
                    RxView { idx: v.idx + k, ..v }
                },
                overwrite(data, filled, p.subrange(v.idx, v.idx + k)),
                filled + k,
            )
        },
    }
}

/// `data` kept up to `filled` and silence from there to its end.
pub open spec fn silence_from(data: Seq<u8>, filled: int, silence_byte: u8) -> Seq<u8> {
    data.subrange(0, filled) + Seq::new((data.len() - filled) as nat, |i: int| silence_byte)
}

/// What filling a callback buffer leaves in it, when the packets `pkts`
/// arrive in turn each time the fill step asks for one, and asking once
/// more times out: fill steps, each needed packet accepted, and silence
/// after the timeout.
pub open spec fn fill_run(v: RxView, data: Seq<u8>, filled: int, pkts: Seq<Seq<u8>>) -> Seq<u8>
    decreases pkts.len(),
{
    let (v1, d1, f1) = fill_step(v, data, filled);
    if f1 >= data.len() {
        d1
    } else if pkts.len() == 0 {
        silence_from(d1, f1, v.silence_byte)
    } else {
        fill_run(RxView { last: Some(pkts[0]), idx: 0, silence_byte: v.silence_byte }, d1, f1, pkts.skip(1))
    }
}

/// The bytes of the current packet not played yet.
pub open spec fn unplayed(v: RxView) -> Seq<u8> {
    match v.last {
        Some(p) => p.subrange(v.idx, p.len() as int),
        None => Seq::empty(),
    }
}

/// Packets played one after the other.
pub open spec fn concat_packets(pkts: Seq<Seq<u8>>) -> Seq<u8>
    decreases pkts.len(),
{
    if pkts.len() == 0 {
        Seq::empty()
    } else {
        pkts[0] + concat_packets(pkts.skip(1))
    }
}

/// Playback across packets: a callback buffer filled from `filled` on
/// keeps its first `filled` bytes, then holds the rest of the current
/// packet followed by the received packets, byte for byte and in order, as
/// far as it reaches; when they run out before the buffer is full (the next
/// packet did not come in time), the rest is silence.
pub proof fn lemma_fill_across_packets(v: RxView, data: Seq<u8>, filled: int, pkts: Seq<Seq<u8>>)
    requires
        0 <= filled <= data.len(),
        v.last matches Some(p) ==> 0 <= v.idx <= p.len(),
    ensures
        ({
            let out = fill_run(v, data, filled, pkts);
            let stream = unplayed(v) + concat_packets(pkts);
            &&& out.len() == data.len()
            &&& forall|i: int| 0 <= i < filled ==> out[i] == data[i]
            &&& forall|i: int| filled <= i < data.len() && i < filled + stream.len() ==> out[i] == stream[i - filled]
            &&& forall|i: int| filled + stream.len() <= i < data.len() ==> out[i] == v.silence_byte
        }),
    decreases pkts.len(),
{
    let (v1, d1, f1) = fill_step(v, data, filled);
    let s0 = unplayed(v);
    let stream = s0 + concat_packets(pkts);
    // The step copies min(|s0|, room) bytes of s0.
    assert(f1 - filled == (if s0.len() < data.len() - filled { s0.len() as int } else { data.len() - filled }));
    assert(d1.len() == data.len());
    assert(forall|i: int| 0 <= i < filled ==> d1[i] == data[i]);
    assert(forall|i: int| filled <= i < f1 ==> d1[i] == s0[i - filled]);
    if f1 >= data.len() {
    } else if pkts.len() == 0 {
        assert(concat_packets(pkts) =~= Seq::<u8>::empty());
        assert(stream =~= s0);
    } else {
        let v2 = RxView { last: Some(pkts[0]), idx: 0, silence_byte: v.silence_byte };
        lemma_fill_across_packets(v2, d1, f1, pkts.skip(1));
        assert(unplayed(v2) =~= pkts[0]);
        assert(concat_packets(pkts) == pkts[0] + concat_packets(pkts.skip(1)));
        assert(f1 == filled + s0.len());
        assert forall|i: int| f1 <= i < data.len() && i < filled + stream.len() implies #[trigger] fill_run(
            v,
            data,
            filled,
            pkts,
        )[i] == stream[i - filled] by {
            assert(stream[i - filled] == concat_packets(pkts)[i - f1]);
        }
    }
}

/// `s` with `src` written over it from `start` on.
pub open spec fn overwrite(s: Seq<u8>, start: int, src: Seq<u8>) -> Seq<u8> {
    s.subrange(0, start) + src + s.subrange(start + src.len(), s.len() as int)
}

impl RxBuffer {
    /// The position never passes the end of the packet being played.
    #[verifier::type_invariant]
    spec fn position_in_packet(self) -> bool {
        self.last matches Some(p) ==> self.idx <= p.len()
    }

    /// The byte that stands for silence in the sample format (0x00 for
    /// signed PCM, 0x80 for 8-bit unsigned PCM).
    pub fn silence_byte(&self) -> (r: u8)
        ensures
            r == self@.silence_byte,
    {
        self.silence_byte
    }

    /// An empty buffer that plays `silence_byte` in gaps.
    pub fn new(silence_byte: u8) -> (r: RxBuffer)
        ensures
            r@ == (RxView { last: None, idx: 0, silence_byte }),
    {
        RxBuffer { last: None, idx: 0, silence_byte }
    }

    /// Whether a packet is being played.
    pub fn has_packet(&self) -> (r: bool)
        ensures
            r == (self@.last is Some),
    {
        self.last.is_some()
    }

    /// Starts playing a newly received packet.
    pub fn accept_packet(&mut self, packet: Vec<u8>)
        ensures
            final(self)@ == (RxView { last: Some(packet@), idx: 0, silence_byte: old(self)@.silence_byte }),
    {
        self.idx = 0;
        self.last = Some(packet);
    }

    /// Copies as much of the packet as fits into `data` from `filled` on,
    /// and returns the new fill level; a packet played to its end is
    /// dropped. Without a packet nothing changes.
    pub fn copy_from_packet(&mut self, data: &mut [u8], filled: usize) -> (r: usize)
        requires
            filled <= old(data)@.len(),
        ensures
            match old(self)@.last {
                None => r == filled && final(data)@ == old(data)@ && final(self)@ == old(self)@,
                Some(p) => {
                    let k = chunk_len(p.len() as int, old(self)@.idx, old(data)@.len() as int, filled as int);
                    &&& r == filled + k
                    &&& final(data)@ == overwrite(old(data)@, filled as int, p.subrange(old(self)@.idx, old(self)@.idx + k))
                    &&& final(self)@ == (if old(self)@.idx + k >= p.len() {
                        RxView { last: None, idx: 0, silence_byte: old(self)@.silence_byte }
                    } else {
                        RxView { idx: old(self)@.idx + k, ..old(self)@ }
                    })
                },
            },
            r <= final(data)@.len(),
            final(data)@.len() == old(data)@.len(),
    {
        proof {
            use_type_invariant(&*self);
        }
        let done = match &self.last {
            None => {
                return filled;
            },
            Some(last) => {
                let ghost p = last@;
                let ghost idx0 = self.idx as int;
                let ghost d0 = data@;
                let n = last.len();
                let dlen = data.len();
                let mut i = self.idx;
                let mut f = filled;
                while i < n && f < dlen
                    invariant
                        n == p.len(),
                        dlen == d0.len(),
                        0 <= idx0 <= i <= n,
                        filled <= f <= dlen,
                        i - idx0 == f - filled,
                        last@ == p,
                        data@.len() == d0.len(),
                        data@ == overwrite(d0, filled as int, p.subrange(idx0, i as int)),
                    decreases n - i,
                {
                    let ghost before = data@;
                    data[f] = last[i];
                    let ghost target = overwrite(d0, filled as int, p.subrange(idx0, i + 1));
                    assert(target.len() == d0.len());
                    assert forall|j: int| 0 <= j < data@.len() implies data@[j] == target[j] by {
                        if j < filled {
                            assert(before[j] == d0[j]);
                        } else if j < f {
                            assert(before[j] == p[idx0 + j - filled]);
                        } else if j == f {
                        } else {
                            assert(before[j] == d0[j]);
                        }
                    }
                    assert(data@ =~= target);
                    i = i + 1;
                    f = f + 1;
                }
                assert(i - idx0 == chunk_len(n as int, idx0, dlen as int, filled as int));
                self.idx = i;
                (f, i >= n)
            },
        };
        if done.1 {
            self.last = None;
            self.idx = 0;
        }
        done.0
    }

    /// One step of filling a callback buffer: copies what the packet being
    /// played still holds into `data` from `filled` on, then says whether
    /// `data` is full or the next packet is needed (the packet, if any, was
    /// played to its end), with the new fill level.
    pub fn fill_from_packet(&mut self, data: &mut [u8], filled: usize) -> (r: FillOutcome)
        requires
            filled <= old(data)@.len(),
        ensures
            final(data)@.len() == old(data)@.len(),
            final(self)@ == fill_step(old(self)@, old(data)@, filled as int).0,
            final(data)@ == fill_step(old(self)@, old(data)@, filled as int).1,
            (r is Full) <==> fill_step(old(self)@, old(data)@, filled as int).2 == old(data)@.len(),
            r matches FillOutcome::NeedPacket(n) ==> n == fill_step(old(self)@, old(data)@, filled as int).2,
            r matches FillOutcome::NeedPacket(n) ==> n < final(data)@.len() && final(self)@.last is None,
    {
        proof {
            use_type_invariant(&*self);
        }
        let n = self.copy_from_packet(data, filled);
        if n == data.len() {
            FillOutcome::Full
        } else {
            FillOutcome::NeedPacket(n)
        }
    }

    /// Fills `data` from `filled` to its end with silence (no packet came
    /// in time).
    pub fn fill_silence(&self, data: &mut [u8], filled: usize)
        requires
            filled <= old(data)@.len(),
        ensures
            final(data)@.len() == old(data)@.len(),
            forall|i: int| 0 <= i < filled ==> final(data)@[i] == old(data)@[i],
            forall|i: int| filled <= i < final(data)@.len() ==> final(data)@[i] == self@.silence_byte,
    {
        let n = data.len();
        let mut i = filled;
        while i < n
            invariant
                filled <= i <= n,
                n == old(data)@.len(),
                data@.len() == n,
                forall|k: int| 0 <= k < filled ==> data@[k] == old(data)@[k],
                forall|k: int| filled <= k < i ==> data@[k] == self@.silence_byte,
            decreases n - i,
        {
            data[i] = self.silence_byte;
            i = i + 1;
        }
    }
}

/// The codec of a negotiated audio format.
#[derive(Clone, Copy, Debug, PartialEq, Eq, Structural)]
pub enum AudioCodec {
    Pcm,
    Opus,
    Other,
}

/// The sample type handed to the output device.
#[derive(Clone, Copy, Debug, PartialEq, Eq, Structural)]
pub enum SampleKind {
    U8,
    I16,
}

/// How a playback stream is set up for a negotiated format.
#[derive(Clone, Copy, Debug, PartialEq, Eq, Structural)]
pub struct StreamSetup {
    /// The channel count of the Opus decoder in front of the stream, if
    /// the format is Opus.
    pub opus_channels: Option<u16>,
    pub sample_kind: SampleKind,
    /// The byte written in gaps.
    pub silence_byte: u8,
    /// The device buffer asked for, in frames: 40 ms at the sample rate.
    pub buffer_frames: u32,
}

/// Why a format cannot be played.
#[derive(Clone, Copy, Debug, PartialEq, Eq, Structural)]
pub enum StreamSetupError {
    UnsupportedOpusChannels,
    UnsupportedFormat,
    UnsupportedBitsPerSample,
}

impl StreamSetupError {
    /// The error's message.
    pub fn message(&self) -> (r: &'static str)
        ensures
            *self == StreamSetupError::UnsupportedOpusChannels ==> r@ == "unsupported #channels for Opus"@,
            *self == StreamSetupError::UnsupportedFormat ==> r@ == "audio format not supported"@,
            *self == StreamSetupError::UnsupportedBitsPerSample ==> r@ == "only PCM 8/16 bits formats supported"@,
    {
        match self {
            StreamSetupError::UnsupportedOpusChannels => "unsupported #channels for Opus",
            StreamSetupError::UnsupportedFormat => "audio format not supported",
            StreamSetupError::UnsupportedBitsPerSample => "only PCM 8/16 bits formats supported",
        }
    }
}

/// How a format is played, or why it cannot be: Opus takes one or two
/// channels, only PCM and Opus are played, and only 8- and 16-bit samples;
/// 8-bit samples are unsigned (silence is 0x80), 16-bit ones signed
/// (silence is 0), and the device buffer holds 40 ms.
pub open spec fn stream_setup_spec(codec: AudioCodec, n_channels: u16, n_samples_per_sec: u32, bits_per_sample: u16) -> Result<
    StreamSetup,
    StreamSetupError,
> {
    if codec == AudioCodec::Opus && n_channels != 1 && n_channels != 2 {
        Err(StreamSetupError::UnsupportedOpusChannels)
    } else if codec == AudioCodec::Other {
        Err(StreamSetupError::UnsupportedFormat)
    } else if bits_per_sample != 8 && bits_per_sample != 16 {
        Err(StreamSetupError::UnsupportedBitsPerSample)
    } else {
        Ok(
            StreamSetup {
                opus_channels: if codec == AudioCodec::Opus {
                    Some(n_channels)
                } else {
                    None
                },
                sample_kind: if bits_per_sample == 8 {
                    SampleKind::U8
                } else {
                    SampleKind::I16
                },
                silence_byte: if bits_per_sample == 8 {
                    0x80
                } else {
                    0
                },
                buffer_frames: n_samples_per_sec / 25,
            },
        )
    }
}

/// Decides how to play a format.
pub fn stream_setup(codec: AudioCodec, n_channels: u16, n_samples_per_sec: u32, bits_per_sample: u16) -> (r: Result<StreamSetup, StreamSetupError>)
    ensures
        r == stream_setup_spec(codec, n_channels, n_samples_per_sec, bits_per_sample),
{
    let opus_channels = match codec {
        AudioCodec::Opus => {
            if n_channels != 1 && n_channels != 2 {
                return Err(StreamSetupError::UnsupportedOpusChannels);
            }
            Some(n_channels)
        },
        AudioCodec::Pcm => None,
        AudioCodec::Other => {
            return Err(StreamSetupError::UnsupportedFormat);
        },
    };
    let sample_kind = if bits_per_sample == 8 {
        SampleKind::U8
    } else if bits_per_sample == 16 {
        SampleKind::I16
    } else {
        return Err(StreamSetupError::UnsupportedBitsPerSample);
    };
    let silence_byte: u8 = match sample_kind {
        SampleKind::U8 => 0x80,
        SampleKind::I16 => 0x00,
    };
    Ok(StreamSetup { opus_channels, sample_kind, silence_byte, buffer_frames: n_samples_per_sec / 25 })
}

/// An audio format offered to the server.
#[derive(Clone, Copy, Debug, PartialEq, Eq, Structural)]
pub struct AudioFormat {
    pub codec: AudioCodec,
    pub n_channels: u16,
    pub n_samples_per_sec: u32,
    pub n_avg_bytes_per_sec: u32,
    pub n_block_align: u16,
    pub bits_per_sample: u16,
}

/// The formats offered, in order: 48 kHz stereo Opus, then 44.1 kHz
/// stereo 16-bit PCM.
pub open spec fn offered_formats() -> Seq<AudioFormat> {
    seq![
        AudioFormat {
            codec: AudioCodec::Opus,
            n_channels: 2,
            n_samples_per_sec: 48000,
            n_avg_bytes_per_sec: 192000,
            n_block_align: 4,
            bits_per_sample: 16,
        },
        AudioFormat {
            codec: AudioCodec::Pcm,
            n_channels: 2,
            n_samples_per_sec: 44100,
            n_avg_bytes_per_sec: 176400,
            n_block_align: 4,
            bits_per_sample: 16,
        },
    ]
}

/// The formats the client offers to the server.
pub fn supported_formats() -> (r: Vec<AudioFormat>)
    ensures
        r@ == offered_formats(),
{
    let mut v: Vec<AudioFormat> = Vec::new();
    v.push(
        AudioFormat {
            codec: AudioCodec::Opus,
            n_channels: 2,
            n_samples_per_sec: 48000,
            n_avg_bytes_per_sec: 192000,
            n_block_align: 4,
            bits_per_sample: 16,
        },
    );
    v.push(
        AudioFormat {
            codec: AudioCodec::Pcm,
            n_channels: 2,
            n_samples_per_sec: 44100,
            n_avg_bytes_per_sec: 176400,
            n_block_align: 4,
            bits_per_sample: 16,
        },
    );
    assert(v@ =~= offered_formats());
    v
}

/// Decides how to play one of the formats (see [`stream_setup`]).
pub fn stream_setup_for(format: &AudioFormat) -> (r: Result<StreamSetup, StreamSetupError>)
    ensures
        r == stream_setup_spec(format.codec, format.n_channels, format.n_samples_per_sec, format.bits_per_sample),
{
    stream_setup(format.codec, format.n_channels, format.n_samples_per_sec, format.bits_per_sample)
}

/// Every format the client offers can be played.
pub proof fn lemma_offered_formats_playable(i: int)
    requires
        0 <= i < offered_formats().len(),
    ensures
        stream_setup_spec(
            offered_formats()[i].codec,
            offered_formats()[i].n_channels,
            offered_formats()[i].n_samples_per_sec,
            offered_formats()[i].bits_per_sample,
        ) is Ok,
{
}

/// Where audio playback stands: the format of the last wave and whether a
/// playback stream runs.
pub struct PlaybackBackend {
    pub format_no: Option<usize>,
    pub stream_open: bool,
}

/// What to do with a received wave.
#[derive(Clone, Copy, Debug, PartialEq, Eq, Structural)]
pub struct WavePlan {
    /// Stop the running stream first (the format changed).
    pub close_stream: bool,
    /// Start a stream for this format.
    pub open_stream: Option<AudioFormat>,
    /// The format number names no offered format: the wave is dropped.
    pub invalid_format: bool,
    /// Queue the wave's data on the stream.
    pub send: bool,
}

impl PlaybackBackend {
    /// No wave received yet.
    pub fn new() -> (r: PlaybackBackend)
        ensures
            r.format_no is None,
            !r.stream_open,
    {
        PlaybackBackend { format_no: None, stream_open: false }
    }

    /// A wave in format `format_no` arrived: a new format stops the running
    /// stream; without a stream one is started for the format, unless the
    /// number names no offered format, in which case the wave is dropped;
    /// otherwise the data goes to the stream.
    pub fn on_wave(&mut self, format_no: usize) -> (r: WavePlan)
        ensures
            r.close_stream == (old(self).format_no != Some(format_no) && old(self).stream_open),
            ({
                let open_before = old(self).stream_open && old(self).format_no == Some(format_no);
                &&& open_before ==> r.open_stream is None && !r.invalid_format && r.send
                &&& !open_before && format_no < offered_formats().len() ==> r.open_stream == Some(
                    offered_formats()[format_no as int],
                ) && !r.invalid_format && r.send
                &&& !open_before && format_no >= offered_formats().len() ==> r.open_stream is None
                    && r.invalid_format && !r.send
                &&& final(self).stream_open == (open_before || format_no < offered_formats().len())
            }),
            final(self).format_no == Some(format_no),
    {
        let close_stream = self.stream_open && self.format_no != Some(format_no);
        if close_stream {
            self.stream_open = false;
        }
        let mut open_stream: Option<AudioFormat> = None;
        let mut invalid_format = false;
        if !self.stream_open {
            self.format_no = Some(format_no);
            let formats = supported_formats();
            if format_no < formats.len() {
                open_stream = Some(formats[format_no]);
                self.stream_open = true;
            } else {
                invalid_format = true;
            }
        }
        self.format_no = Some(format_no);
        WavePlan { close_stream, open_stream, invalid_format, send: !invalid_format }
    }

    /// Playback stops; returns whether a stream was running (and must be
    /// stopped and joined). The format is kept.
    pub fn close(&mut self) -> (r: bool)
        ensures
            r == old(self).stream_open,
            !final(self).stream_open,
            final(self).format_no == old(self).format_no,
    {
        let was_open = self.stream_open;
        self.stream_open = false;
        was_open
    }
}

} // verus!
