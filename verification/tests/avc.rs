use rdpkit::avc::{
    align_to_16, annex_b_to_avc, avc_to_annex_b, encode_avc420_bitmap_stream, Avc420BitmapStream, Avc420Region,
    Avc444BitmapStream, Encoding, InclusiveRectangle, QuantQuality,
};

#[test]
fn test_avc420_region_full_frame() {
    let region = Avc420Region::full_frame(1920, 1080, 22);
    assert_eq!(region.left, 0);
    assert_eq!(region.top, 0);
    assert_eq!(region.right, 1919);
    assert_eq!(region.bottom, 1079);
    assert_eq!(region.quantization_parameter, 22);
    assert_eq!(region.quality, 100);
}

#[test]
fn test_align_to_16() {
    assert_eq!(align_to_16(0), 0);
    assert_eq!(align_to_16(1), 16);
    assert_eq!(align_to_16(15), 16);
    assert_eq!(align_to_16(16), 16);
    assert_eq!(align_to_16(17), 32);
    assert_eq!(align_to_16(1920), 1920);
    assert_eq!(align_to_16(1080), 1088);
}

#[test]
fn test_annex_b_to_avc_3byte_start() {
    let annex_b = [0x00, 0x00, 0x01, 0x67, 0x42, 0x00, 0x1E];
    let avc = annex_b_to_avc(&annex_b);
    assert_eq!(avc.len(), 8);
    assert_eq!(&avc[0..4], &[0, 0, 0, 4]);
    assert_eq!(&avc[4..8], &[0x67, 0x42, 0x00, 0x1E]);
}

#[test]
fn test_annex_b_to_avc_4byte_start() {
    let annex_b = [0x00, 0x00, 0x00, 0x01, 0x67, 0x42, 0x00];
    let avc = annex_b_to_avc(&annex_b);
    assert_eq!(avc.len(), 7);
    assert_eq!(&avc[0..4], &[0, 0, 0, 3]);
    assert_eq!(&avc[4..7], &[0x67, 0x42, 0x00]);
}

#[test]
fn test_annex_b_to_avc_multiple_nals() {
    let annex_b = [
        0x00, 0x00, 0x00, 0x01, 0x67, 0x42, //
        0x00, 0x00, 0x01, 0x68, 0xCE,
    ];
    let avc = annex_b_to_avc(&annex_b);
    assert!(avc.len() >= 12);
}

#[test]
fn test_annex_b_to_avc_empty() {
    let avc = annex_b_to_avc(&[]);
    assert!(avc.is_empty());
}

#[test]
fn annex_b_to_avc_splits_units_exactly() {
    let annex_b = [0x00, 0x00, 0x00, 0x01, 0x67, 0x42, 0x00, 0x00, 0x01, 0x68, 0xCE];
    let avc = annex_b_to_avc(&annex_b);
    assert_eq!(avc, vec![0, 0, 0, 2, 0x67, 0x42, 0, 0, 0, 2, 0x68, 0xCE]);
}

#[test]
fn annex_b_to_avc_drops_leading_garbage() {
    let annex_b = [0xAA, 0xBB, 0x00, 0x00, 0x01, 0x65];
    assert_eq!(annex_b_to_avc(&annex_b), vec![0, 0, 0, 1, 0x65]);
}

#[test]
fn test_encode_avc420_bitmap_stream() {
    let regions = vec![Avc420Region::full_frame(1920, 1080, 22)];
    let h264_data = [0x00, 0x00, 0x00, 0x01, 0x67];

    let encoded = encode_avc420_bitmap_stream(&regions, &h264_data);
    assert_eq!(encoded.len(), 4 + 8 + 2 + 5);

    let decoded = Avc420BitmapStream::decode(&encoded).expect("decode failed");
    assert_eq!(decoded.rectangles.len(), 1);
    assert_eq!(decoded.quant_qual_vals.len(), 1);
    assert_eq!(decoded.data, &h264_data);
}

#[test]
fn encode_avc420_bitmap_stream_exact_bytes() {
    let regions = vec![Avc420Region::new(1, 2, 3, 4, 22, 100)];
    let encoded = encode_avc420_bitmap_stream(&regions, &[9]);
    assert_eq!(encoded, vec![1, 0, 0, 0, 1, 0, 2, 0, 3, 0, 4, 0, 22, 100, 9]);
}

#[test]
fn quant_quality_packs_progressive_in_bit_7() {
    let q = QuantQuality { quantization_parameter: 22, progressive: true, quality: 80 };
    let mut buf = Vec::new();
    q.encode(&mut buf);
    assert_eq!(buf, vec![22 | 0x80, 80]);
    let (back, n) = QuantQuality::decode(&buf).expect("decode");
    assert_eq!(n, 2);
    assert_eq!(back.quantization_parameter, 22);
    assert!(back.progressive);
    assert_eq!(back.quality, 80);
}

#[test]
fn avc420_decode_rejects_truncated_regions() {
    // Claims two regions but carries only one rectangle.
    let bytes = [2, 0, 0, 0, 1, 0, 2, 0, 3, 0, 4, 0];
    assert!(Avc420BitmapStream::decode(&bytes).is_err());
    assert!(Avc420BitmapStream::decode(&[1, 0]).is_err());
}

fn sample_avc420(data: &[u8]) -> Avc420BitmapStream<'_> {
    Avc420BitmapStream {
        rectangles: vec![InclusiveRectangle { left: 0, top: 0, right: 15, bottom: 15 }],
        quant_qual_vals: vec![QuantQuality { quantization_parameter: 22, progressive: false, quality: 100 }],
        data,
    }
}

fn encode_avc444(stream: &Avc444BitmapStream<'_>) -> Vec<u8> {
    let mut buf = Vec::new();
    stream.encode(&mut buf).expect("avc444 encode");
    assert_eq!(buf.len(), stream.size());
    buf
}

#[test]
fn avc444_round_trip_luma_and_chroma() {
    let stream = Avc444BitmapStream {
        encoding: Encoding::luma_and_chroma(),
        stream1: sample_avc420(b"luma-nalu"),
        stream2: Some(sample_avc420(b"chroma-nalu")),
    };
    let buf = encode_avc444(&stream);

    let decoded = Avc444BitmapStream::decode(&buf).expect("avc444 decode");
    assert_eq!(decoded.encoding.bits(), Encoding::luma_and_chroma().bits());
    assert_eq!(decoded.stream1.data, b"luma-nalu".as_slice());
    let stream2 = decoded.stream2.as_ref().expect("stream2 present for LUMA_AND_CHROMA");
    assert_eq!(stream2.data, b"chroma-nalu".as_slice());
}

#[test]
fn avc444_round_trip_luma_only() {
    let stream = Avc444BitmapStream {
        encoding: Encoding::luma(),
        stream1: sample_avc420(b"luma-only"),
        stream2: None,
    };
    let buf = encode_avc444(&stream);

    let decoded = Avc444BitmapStream::decode(&buf).expect("avc444 decode");
    assert_eq!(decoded.encoding.bits(), Encoding::luma().bits());
    assert_eq!(decoded.stream1.data, b"luma-only".as_slice());
    assert!(decoded.stream2.is_none(), "LUMA carries no chroma sub-stream");
}

#[test]
fn avc444_round_trip_chroma_only() {
    let stream = Avc444BitmapStream {
        encoding: Encoding::chroma(),
        stream1: sample_avc420(b"chroma-only"),
        stream2: None,
    };
    let buf = encode_avc444(&stream);

    let decoded = Avc444BitmapStream::decode(&buf).expect("avc444 decode");
    assert_eq!(decoded.encoding.bits(), Encoding::chroma().bits());
    assert_eq!(decoded.stream1.data, b"chroma-only".as_slice());
    assert!(decoded.stream2.is_none(), "CHROMA carries no second sub-stream");
}

#[test]
fn avc444_decode_rejects_reserved_encoding() {
    let bytes = [0x00, 0x00, 0x00, 0xC0];
    assert!(
        Avc444BitmapStream::decode(&bytes).is_err(),
        "reserved encoding value must be rejected"
    );
}

#[test]
fn avc444_decode_rejects_zero_len_luma_and_chroma() {
    let bytes = [0x00, 0x00, 0x00, 0x00];
    assert!(
        Avc444BitmapStream::decode(&bytes).is_err(),
        "zero-length LUMA_AND_CHROMA must be rejected"
    );
}

#[test]
fn avc444_stream_info_layout() {
    let stream = Avc444BitmapStream {
        encoding: Encoding::luma(),
        stream1: sample_avc420(b"x"),
        stream2: None,
    };
    let buf = encode_avc444(&stream);
    // stream1 is 4 + 10 + 1 = 15 bytes; encoding LUMA sits in bits 30..32.
    assert_eq!(&buf[0..4], &[15, 0, 0, 0x40]);
}

#[test]
fn avc_to_annex_b_prefixes_start_codes() {
    let avc = [0, 0, 0, 2, 0x67, 0x42, 0, 0, 0, 1, 0x68];
    assert_eq!(avc_to_annex_b(&avc), vec![0, 0, 0, 1, 0x67, 0x42, 0, 0, 0, 1, 0x68]);
}

#[test]
fn avc_to_annex_b_drops_truncated_unit() {
    let avc = [0, 0, 0, 1, 0x65, 0, 0, 0, 9, 1, 2];
    assert_eq!(avc_to_annex_b(&avc), vec![0, 0, 0, 1, 0x65]);
    assert_eq!(avc_to_annex_b(&[0, 0, 1]), Vec::<u8>::new());
}

#[test]
fn avc_round_trips_through_annex_b() {
    let annex_b = [0, 0, 0, 1, 0x67, 0x42, 0, 0, 1, 0x68, 0xce];
    let avc = annex_b_to_avc(&annex_b);
    assert_eq!(avc_to_annex_b(&avc), vec![0, 0, 0, 1, 0x67, 0x42, 0, 0, 0, 1, 0x68, 0xce]);
}

#[test]
fn annex_b_units_keep_their_bytes_and_order() {
    let units: [&[u8]; 3] = [&[0x67, 0x42, 0x00, 0x1f], &[0x68, 0xce], &[0x65, 0x00, 0x00, 0x03, 0x01]];
    let mut annex_b = Vec::new();
    let mut expected = Vec::new();
    for u in units {
        annex_b.extend_from_slice(&[0, 0, 0, 1]);
        annex_b.extend_from_slice(u);
        expected.extend_from_slice(&(u.len() as u32).to_be_bytes());
        expected.extend_from_slice(u);
    }
    assert_eq!(annex_b_to_avc(&annex_b), expected);
}
