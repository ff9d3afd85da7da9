use spectral_events::accumulator::FrameAccumulator;
use spectral_events::constants::{FFT_LENGTH, FFT_LENGTH_BYTES};
use spectral_events::samples::decode_samples;

#[test]
fn accumulator_fills_across_short_reads() {
    let mut acc = FrameAccumulator::new();
    assert!(!acc.is_full());

    let full = acc.push(&vec![0xAAu8; 5000]);
    assert!(!full);

    // the second chunk overshoots; only the remaining 3192 bytes are taken
    let full = acc.push(&vec![0xBBu8; 5000]);
    assert!(full);
    assert!(acc.is_full());

    let frame = acc.frame();
    assert_eq!(frame.len(), FFT_LENGTH_BYTES);
    assert!(frame[..5000].iter().all(|&b| b == 0xAA));
    assert!(frame[5000..].iter().all(|&b| b == 0xBB));
}

#[test]
fn accumulator_ignores_empty_chunks() {
    let mut acc = FrameAccumulator::new();
    let full = acc.push(&Vec::new());
    assert!(!full);
    let full = acc.push(&vec![1u8; FFT_LENGTH_BYTES]);
    assert!(full);
}

#[test]
fn accumulator_reset_clears_progress() {
    let mut acc = FrameAccumulator::new();
    acc.push(&vec![7u8; 100]);
    acc.reset();
    // after the reset a whole frame is needed again
    let full = acc.push(&vec![9u8; FFT_LENGTH_BYTES - 1]);
    assert!(!full);
    let full = acc.push(&vec![9u8; 1]);
    assert!(full);
}

#[test]
fn accumulator_takes_exact_frame_in_one_read() {
    let mut acc = FrameAccumulator::new();
    let full = acc.push(&vec![3u8; FFT_LENGTH_BYTES]);
    assert!(full);
    assert!(acc.frame().iter().all(|&b| b == 3));
}

#[test]
fn decode_reads_little_endian_signed_samples() {
    let mut frame = vec![0u8; FFT_LENGTH_BYTES];
    // first sample: a negative little-endian word
    frame[0] = 0x01;
    frame[1] = 0x02;
    frame[2] = 0x03;
    frame[3] = 0x84;
    // second sample: a positive one
    frame[4] = 0xFF;
    frame[5] = 0x00;
    frame[6] = 0x00;
    frame[7] = 0x00;
    let samples = decode_samples(&frame);
    assert_eq!(samples.len(), FFT_LENGTH);
    assert_eq!(samples[0], i32::from_le_bytes([0x01, 0x02, 0x03, 0x84]));
    assert!(samples[0] < 0);
    assert_eq!(samples[1], 255);
    assert!(samples[2..].iter().all(|&s| s == 0));
}

#[test]
fn decode_zero_frame_gives_zero_samples() {
    let frame = vec![0u8; FFT_LENGTH_BYTES];
    let samples = decode_samples(&frame);
    assert!(samples.iter().all(|&s| s == 0));
}

#[test]
fn decode_roundtrips_i32_le_encoding() {
    let values: Vec<i32> = (0..FFT_LENGTH as i32).map(|i| i.wrapping_mul(1_234_567) - 777).collect();
    let mut frame = Vec::with_capacity(FFT_LENGTH_BYTES);
    for v in &values {
        frame.extend_from_slice(&v.to_le_bytes());
    }
    let samples = decode_samples(&frame);
    assert_eq!(samples, values);
}
