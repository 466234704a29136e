use rdpkit::audio::{stream_setup, AudioCodec, FillOutcome, RxBuffer, SampleKind, StreamSetupError};
use rdpkit::audio::{stream_setup_for, supported_formats, PlaybackBackend};

#[test]
fn packet_spans_two_callback_buffers() {
    let mut rx = RxBuffer::new(0);
    rx.accept_packet(vec![1, 2, 3, 4, 5]);
    let mut data = [9u8; 3];
    let filled = rx.copy_from_packet(&mut data, 0);
    assert_eq!(filled, 3);
    assert_eq!(data, [1, 2, 3]);
    assert!(rx.has_packet());

    let mut data = [9u8; 3];
    let filled = rx.copy_from_packet(&mut data, 0);
    assert_eq!(filled, 2);
    assert_eq!(data, [4, 5, 9]);
    assert!(!rx.has_packet());
}

#[test]
fn copy_without_packet_changes_nothing() {
    let mut rx = RxBuffer::new(0);
    let mut data = [7u8; 4];
    assert_eq!(rx.copy_from_packet(&mut data, 1), 1);
    assert_eq!(data, [7, 7, 7, 7]);
}

#[test]
fn copy_starts_at_fill_level() {
    let mut rx = RxBuffer::new(0);
    rx.accept_packet(vec![10, 11]);
    let mut data = [0u8; 4];
    assert_eq!(rx.copy_from_packet(&mut data, 1), 3);
    assert_eq!(data, [0, 10, 11, 0]);
    assert!(!rx.has_packet());
}

#[test]
fn empty_packet_is_dropped() {
    let mut rx = RxBuffer::new(0);
    rx.accept_packet(Vec::new());
    let mut data = [5u8; 2];
    assert_eq!(rx.copy_from_packet(&mut data, 0), 0);
    assert!(!rx.has_packet());
}

#[test]
fn gap_is_filled_with_silence_byte() {
    let rx = RxBuffer::new(0x80);
    assert_eq!(rx.silence_byte(), 0x80);
    let mut data = [1u8, 2, 3, 4];
    rx.fill_silence(&mut data, 2);
    assert_eq!(data, [1, 2, 0x80, 0x80]);
}

#[test]
fn pcm16_stream_setup() {
    let setup = stream_setup(AudioCodec::Pcm, 2, 44100, 16).unwrap();
    assert_eq!(setup.opus_channels, None);
    assert_eq!(setup.sample_kind, SampleKind::I16);
    assert_eq!(setup.silence_byte, 0);
    assert_eq!(setup.buffer_frames, 1764);
}

#[test]
fn pcm8_stream_setup_uses_unsigned_midpoint() {
    let setup = stream_setup(AudioCodec::Pcm, 1, 22050, 8).unwrap();
    assert_eq!(setup.sample_kind, SampleKind::U8);
    assert_eq!(setup.silence_byte, 0x80);
    assert_eq!(setup.buffer_frames, 882);
}

#[test]
fn opus_stream_setup() {
    let setup = stream_setup(AudioCodec::Opus, 2, 48000, 16).unwrap();
    assert_eq!(setup.opus_channels, Some(2));
    assert_eq!(setup.buffer_frames, 1920);
}

#[test]
fn stream_setup_errors() {
    assert_eq!(stream_setup(AudioCodec::Opus, 3, 48000, 16), Err(StreamSetupError::UnsupportedOpusChannels));
    assert_eq!(stream_setup(AudioCodec::Other, 2, 48000, 16), Err(StreamSetupError::UnsupportedFormat));
    assert_eq!(stream_setup(AudioCodec::Pcm, 2, 48000, 24), Err(StreamSetupError::UnsupportedBitsPerSample));
    assert_eq!(
        StreamSetupError::UnsupportedBitsPerSample.message(),
        "only PCM 8/16 bits formats supported"
    );
}

#[test]
fn offered_formats_are_opus_then_pcm_and_playable() {
    let formats = supported_formats();
    assert_eq!(formats.len(), 2);
    assert_eq!(formats[0].codec, AudioCodec::Opus);
    assert_eq!(formats[0].n_samples_per_sec, 48000);
    assert_eq!(formats[0].n_avg_bytes_per_sec, 192000);
    assert_eq!(formats[1].codec, AudioCodec::Pcm);
    assert_eq!(formats[1].n_samples_per_sec, 44100);
    assert_eq!(formats[1].n_avg_bytes_per_sec, 176400);
    for f in &formats {
        assert!(stream_setup_for(f).is_ok());
    }
}

#[test]
fn wave_opens_stream_once_and_reopens_on_format_change() {
    let formats = supported_formats();
    let mut backend = PlaybackBackend::new();
    let plan = backend.on_wave(1);
    assert!(!plan.close_stream);
    assert_eq!(plan.open_stream, Some(formats[1]));
    assert!(plan.send);
    let plan = backend.on_wave(1);
    assert_eq!(plan.open_stream, None);
    assert!(plan.send && !plan.close_stream);
    let plan = backend.on_wave(0);
    assert!(plan.close_stream);
    assert_eq!(plan.open_stream, Some(formats[0]));
    assert!(backend.close());
    assert!(!backend.close());
    assert_eq!(backend.on_wave(0).open_stream, Some(formats[0]));
}

#[test]
fn wave_with_unknown_format_is_dropped() {
    let mut backend = PlaybackBackend::new();
    let plan = backend.on_wave(5);
    assert!(plan.invalid_format);
    assert!(!plan.send);
    assert_eq!(plan.open_stream, None);
    assert_eq!(backend.format_no, Some(5));
    assert!(!backend.stream_open);
}

#[test]
fn fill_steps_ask_for_packets_until_full() {
    let mut rx = RxBuffer::new(0);
    let mut data = [7u8; 5];
    assert_eq!(rx.fill_from_packet(&mut data, 0), FillOutcome::NeedPacket(0));
    rx.accept_packet(vec![1, 2, 3]);
    assert_eq!(rx.fill_from_packet(&mut data, 0), FillOutcome::NeedPacket(3));
    assert!(!rx.has_packet());
    rx.accept_packet(vec![4, 5, 6]);
    assert_eq!(rx.fill_from_packet(&mut data, 3), FillOutcome::Full);
    assert_eq!(data, [1, 2, 3, 4, 5]);
    assert!(rx.has_packet());
    let mut next = [0u8; 2];
    assert_eq!(rx.fill_from_packet(&mut next, 0), FillOutcome::NeedPacket(1));
    assert_eq!(next, [6, 0]);
    let mut empty: [u8; 0] = [];
    assert_eq!(RxBuffer::new(0).fill_from_packet(&mut empty, 0), FillOutcome::Full);
}
