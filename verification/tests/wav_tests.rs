use dictation::errors::DictationError;
use dictation::wav::{create_wav, parse_wav};

/// Quantization used when normalized float samples enter the core,
/// mirroring the capture path.
fn quantize(x: f32) -> i16 {
    (x * i16::MAX as f32) as i16
}

#[test]
fn wav_round_trip_metadata_and_samples() {
    let floats: Vec<f32> = vec![0.0, 0.25, -0.25, 1.0, -1.0, 0.5, -0.999, 0.001];
    let samples: Vec<i16> = floats.iter().map(|&x| quantize(x)).collect();
    let bytes = create_wav(&samples, 48000).expect("encodable");

    let reader = hound::WavReader::new(std::io::Cursor::new(&bytes)).expect("valid wav");
    let spec = reader.spec();
    assert_eq!(spec.sample_rate, 48000);
    assert_eq!(spec.channels, 1);
    assert_eq!(spec.bits_per_sample, 16);
    assert_eq!(spec.sample_format, hound::SampleFormat::Int);
    let decoded: Vec<i16> = reader.into_samples::<i16>().map(|s| s.unwrap()).collect();
    assert_eq!(decoded.len(), floats.len());
    assert_eq!(decoded, samples);
    // each decoded value is within one quantization step of the original
    for (d, x) in decoded.iter().zip(floats.iter()) {
        let ideal = x * i16::MAX as f32;
        assert!((*d as f32 - ideal).abs() <= 1.0);
    }
}

#[test]
fn wav_parse_matches_own_encoder() {
    let samples: Vec<i16> = vec![1000, -1000, 0, i16::MAX, i16::MIN, 7];
    let bytes = create_wav(&samples, 44100).expect("encodable");
    let parsed = parse_wav(&bytes).expect("well formed");
    assert_eq!(parsed.channels, 1);
    assert_eq!(parsed.bits_per_sample, 16);
    assert_eq!(parsed.sample_rate, 44100);
    assert_eq!(parsed.samples, samples);
}

#[test]
fn wav_bytes_are_canonical() {
    // 2 samples at 8000 Hz: 44-byte header, 4 payload bytes
    let samples: Vec<i16> = vec![1000, -2];
    let bytes = create_wav(&samples, 8000).expect("encodable");
    let expected: Vec<u8> = vec![
        b'R', b'I', b'F', b'F', 40, 0, 0, 0, // riff size 36 + 4
        b'W', b'A', b'V', b'E', b'f', b'm', b't', b' ', 16, 0, 0, 0, // fmt size
        1, 0, // pcm
        1, 0, // mono
        0x40, 0x1f, 0, 0, // 8000
        0x80, 0x3e, 0, 0, // byte rate 16000
        2, 0, // block align
        16, 0, // bits
        b'd', b'a', b't', b'a', 4, 0, 0, 0, // data size
        0xe8, 0x03, // 1000
        0xfe, 0xff, // -2
    ];
    assert_eq!(bytes, expected);
}

#[test]
fn wav_empty_buffer_still_encodes() {
    let samples: Vec<i16> = Vec::new();
    let bytes = create_wav(&samples, 44100).expect("encodable");
    assert_eq!(bytes.len(), 44);
    let parsed = parse_wav(&bytes).expect("well formed");
    assert_eq!(parsed.samples.len(), 0);
}

#[test]
fn wav_oversized_rate_is_encoding_error() {
    let samples: Vec<i16> = vec![0];
    let r = create_wav(&samples, 0x8000_0000);
    assert!(matches!(r, Err(DictationError::EncodingError)));
}

#[test]
fn wav_parse_rejects_garbage() {
    assert!(parse_wav(&vec![]).is_none());
    assert!(parse_wav(&vec![0u8; 43]).is_none());
    let mut not_riff = vec![0u8; 44];
    not_riff[0] = b'X';
    assert!(parse_wav(&not_riff).is_none());
    // a valid container with one flipped size byte
    let samples: Vec<i16> = vec![5, 6];
    let mut bytes = create_wav(&samples, 8000).expect("encodable");
    bytes[4] = bytes[4].wrapping_add(1);
    assert!(parse_wav(&bytes).is_none());
}
