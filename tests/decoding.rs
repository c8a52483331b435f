use realtime_audio::decode::{DecodeError, Decoder, Progress};
use realtime_audio::pcm::samples_to_bytes;

fn bytes_of(samples: &[i16]) -> Vec<u8> {
    let mut out = Vec::new();
    for s in samples {
        out.extend_from_slice(&s.to_ne_bytes());
    }
    out
}

fn unit(start: i16, len: usize) -> Vec<i16> {
    (0..len).map(|i| start + i as i16).collect()
}

/// Runs the decoder against a list of units until it hands out a run or ends.
fn next_run(
    dec: &mut Decoder,
    units: &mut Vec<(Vec<i16>, Vec<i16>)>,
    max_len: usize,
) -> Result<(Vec<u8>, Vec<u8>), DecodeError> {
    loop {
        match dec.decode_until(max_len) {
            Progress::Chunk(l, r) => return Ok((l, r)),
            Progress::Ended(e) => return Err(e),
            Progress::NeedUnit => {
                if units.is_empty() {
                    dec.end_of_stream();
                } else {
                    let (l, r) = units.remove(0);
                    dec.push_unit(&l, &r);
                }
            }
        }
    }
}

#[test]
fn samples_render_two_bytes_each() {
    let s = vec![1i16, 256, -2, 0];
    let b = samples_to_bytes(&s);
    assert_eq!(b.len(), 8);
    assert_eq!(b, bytes_of(&s));
    assert_eq!(&b[6..8], &[0u8, 0u8]);
}

#[test]
fn samples_render_empty() {
    assert!(samples_to_bytes(&Vec::new()).is_empty());
}

#[test]
fn layout_mono_and_stereo_accepted() {
    assert!(Decoder::new(1).is_ok());
    assert!(Decoder::new(2).is_ok());
}

#[test]
fn layout_other_rejected() {
    assert!(matches!(Decoder::new(0), Err(DecodeError::ChannelLayoutMismatch)));
    assert!(matches!(Decoder::new(6), Err(DecodeError::ChannelLayoutMismatch)));
}

#[test]
fn fresh_decoder_asks_for_a_unit() {
    let mut d = Decoder::new(2).ok().unwrap();
    assert!(matches!(d.decode_until(4), Progress::NeedUnit));
    assert_eq!(d.pending_len(), 0);
}

#[test]
fn exact_length_runs_with_carry_over() {
    let mut d = Decoder::new(2).ok().unwrap();
    // units of 3 samples (6 bytes) against runs of 4 bytes
    let mut units = vec![(unit(0, 3), unit(100, 3)), (unit(3, 3), unit(103, 3)), (unit(6, 3), unit(106, 3))];
    let mut lens = Vec::new();
    loop {
        match next_run(&mut d, &mut units, 4) {
            Ok((l, r)) => {
                assert_eq!(l.len(), r.len());
                lens.push(l.len());
            }
            Err(e) => {
                assert_eq!(e, DecodeError::EndOfStream);
                break;
            }
        }
    }
    // 18 bytes per channel: four runs of 4 and a final run of 2
    assert_eq!(lens, vec![4, 4, 4, 4, 2]);
}

#[test]
fn runs_join_to_the_whole_decode() {
    let mut d = Decoder::new(2).ok().unwrap();
    let left: Vec<i16> = unit(-50, 11);
    let right: Vec<i16> = unit(300, 11);
    let mut units = vec![
        (left[..5].to_vec(), right[..5].to_vec()),
        (left[5..6].to_vec(), right[5..6].to_vec()),
        (left[6..].to_vec(), right[6..].to_vec()),
    ];
    let mut joined_l = Vec::new();
    let mut joined_r = Vec::new();
    while let Ok((l, r)) = next_run(&mut d, &mut units, 6) {
        joined_l.extend_from_slice(&l);
        joined_r.extend_from_slice(&r);
    }
    assert_eq!(joined_l, bytes_of(&left));
    assert_eq!(joined_r, bytes_of(&right));
}

#[test]
fn unit_exactly_one_run() {
    let mut d = Decoder::new(2).ok().unwrap();
    d.push_unit(&unit(1, 2), &unit(5, 2));
    match d.decode_until(4) {
        Progress::Chunk(l, r) => {
            assert_eq!(l, bytes_of(&unit(1, 2)));
            assert_eq!(r, bytes_of(&unit(5, 2)));
        }
        _ => panic!("expected a run"),
    }
    assert_eq!(d.pending_len(), 0);
}

#[test]
fn end_with_nothing_left_is_end_of_stream() {
    let mut d = Decoder::new(2).ok().unwrap();
    d.end_of_stream();
    assert!(d.has_ended());
    assert!(matches!(d.decode_until(4), Progress::Ended(DecodeError::EndOfStream)));
    assert!(matches!(d.decode_until(4), Progress::Ended(DecodeError::EndOfStream)));
}

#[test]
fn end_hands_out_a_short_final_run() {
    let mut d = Decoder::new(2).ok().unwrap();
    d.push_unit(&unit(0, 1), &unit(9, 1));
    d.end_of_stream();
    match d.decode_until(8) {
        Progress::Chunk(l, r) => {
            assert_eq!(l.len(), 2);
            assert_eq!(r, bytes_of(&[9]));
        }
        _ => panic!("expected the final run"),
    }
    assert!(matches!(d.decode_until(8), Progress::Ended(DecodeError::EndOfStream)));
}

#[test]
fn fault_is_final() {
    let mut d = Decoder::new(2).ok().unwrap();
    d.push_unit(&unit(0, 8), &unit(0, 8));
    d.fault();
    assert!(matches!(d.decode_until(4), Progress::Ended(DecodeError::DecodeFault)));
    d.end_of_stream();
    assert!(matches!(d.decode_until(4), Progress::Ended(DecodeError::DecodeFault)));
}

#[test]
fn samples_render_in_one_byte_order() {
    let b = samples_to_bytes(&vec![0x0102i16, -2]);
    let little = vec![0x02u8, 0x01, 0xFE, 0xFF];
    let big = vec![0x01u8, 0x02, 0xFF, 0xFE];
    assert!(b == little || b == big);
}
