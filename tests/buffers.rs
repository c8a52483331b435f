use realtime_audio::audio::{ChannelID, DoubleBuffer, Music, SessionState, Status, Tick, Wave};
use realtime_audio::decode::{DecodeError, Decoder, Progress};
use realtime_audio::play::Player;

fn samples(start: i16, len: usize) -> Vec<i16> {
    (0..len).map(|i| start + i as i16).collect()
}

fn bytes_of(samples: &[i16]) -> Vec<u8> {
    let mut out = Vec::new();
    for s in samples {
        out.extend_from_slice(&s.to_ne_bytes());
    }
    out
}

/// Drives the session's decoder against a list of units until a chunk comes
/// out or the stream ends.
fn next_chunk(music: &mut Music, units: &mut Vec<(Vec<i16>, Vec<i16>)>) -> Result<(Vec<u8>, Vec<u8>), DecodeError> {
    loop {
        match music.decode_step() {
            Progress::Chunk(l, r) => return Ok((l, r)),
            Progress::Ended(e) => return Err(e),
            Progress::NeedUnit => {
                if units.is_empty() {
                    music.end_of_stream();
                } else {
                    let (l, r) = units.remove(0);
                    music.push_unit(&l, &r);
                }
            }
        }
    }
}

fn slot_bytes(music: &Music, channel: ChannelID, second: bool) -> Vec<u8> {
    music.buffer(channel).slot(second).get_buffer().clone()
}

#[test]
fn new_double_buffer_is_zeroed_and_free() {
    let b = DoubleBuffer::new(6);
    assert!(!b.is_second());
    assert!(b.is_free());
    assert!(!b.should_altern());
    assert_eq!(b.current().get_buffer(), &vec![0u8; 6]);
    assert_eq!(b.slot(true).len(), 6);
}

#[test]
fn altern_twice_returns_to_first_slot() {
    let mut b = DoubleBuffer::new(4);
    b.write(&vec![1, 2]);
    let before = b.current().get_buffer().clone();
    b.altern();
    assert!(b.is_second());
    assert_eq!(b.current().get_buffer(), &vec![0u8; 4]);
    b.altern();
    assert!(!b.is_second());
    assert_eq!(b.current().get_buffer(), &before);
}

#[test]
fn write_keeps_the_tail() {
    let mut b = DoubleBuffer::new(4);
    b.write(&vec![9, 9, 9, 9]);
    b.write(&vec![1, 2]);
    assert_eq!(b.current().get_buffer(), &vec![1, 2, 9, 9]);
}

#[test]
fn queued_slot_is_not_freed_by_the_engine() {
    let mut b = DoubleBuffer::new(2);
    b.queue();
    b.report(Status::Free);
    assert_eq!(b.current().status(), Status::Queued);
    b.report(Status::Done);
    assert!(b.should_altern());
    b.report(Status::Free);
    assert_eq!(b.current().status(), Status::Done);
}

#[test]
fn wave_new_is_free() {
    let w = Wave::new(3);
    assert_eq!(w.status(), Status::Free);
    assert_eq!(w.get_buffer(), &vec![0u8; 3]);
}

#[test]
fn default_session_holds_one_second() {
    let m = Music::new(Decoder::new(2).ok().unwrap());
    assert_eq!(m.buffer_len(), 176400);
    assert_eq!(m.session_state(), SessionState::Playing);
}

#[test]
fn write_single_channel_refuses_a_queued_slot() {
    let mut m = Music::with_capacity(Decoder::new(2).ok().unwrap(), 4);
    assert!(m.write_single_channel(ChannelID::FrontRight, &vec![5, 6]).is_ok());
    assert_eq!(slot_bytes(&m, ChannelID::FrontRight, false), vec![5, 6, 0, 0]);
    assert_eq!(slot_bytes(&m, ChannelID::FrontLeft, false), vec![0, 0, 0, 0]);
    assert_eq!(m.play(Status::Free, Status::Free), Tick::Prime(false));
    assert_eq!(m.write_single_channel(ChannelID::FrontLeft, &vec![7, 7]), Err(Status::Queued));
    assert_eq!(slot_bytes(&m, ChannelID::FrontLeft, false), vec![0, 0, 0, 0]);
}

#[test]
fn one_drained_channel_changes_nothing() {
    let mut m = Music::with_capacity(Decoder::new(2).ok().unwrap(), 4);
    assert_eq!(m.play(Status::Free, Status::Free), Tick::Prime(false));
    let before_l = slot_bytes(&m, ChannelID::FrontLeft, false);
    assert_eq!(m.play(Status::Done, Status::Queued), Tick::Idle);
    assert_eq!(m.play(Status::Done, Status::Queued), Tick::Idle);
    assert!(m.buffer(ChannelID::FrontLeft).should_altern());
    assert!(!m.buffer(ChannelID::FrontRight).should_altern());
    assert_eq!(slot_bytes(&m, ChannelID::FrontLeft, false), before_l);
    assert!(!m.buffer(ChannelID::FrontLeft).is_second());
    assert_eq!(m.play(Status::Done, Status::Done), Tick::Refill);
}

#[test]
fn three_units_then_end_of_stream() {
    let buf_len: usize = 8;
    let mut m = Music::with_capacity(Decoder::new(2).ok().unwrap(), buf_len);
    // units of buf_len, buf_len and buf_len / 2 bytes per channel
    let mut units = vec![
        (samples(0, 4), samples(50, 4)),
        (samples(4, 4), samples(54, 4)),
        (samples(8, 2), samples(58, 2)),
    ];
    // first two runs fill both slots before playback starts
    let c1 = next_chunk(&mut m, &mut units).unwrap();
    assert_eq!(c1.0.len(), buf_len);
    let c2 = next_chunk(&mut m, &mut units).unwrap();
    assert_eq!(c2.1, bytes_of(&samples(54, 4)));
    assert_eq!(m.prefill(Ok(c1), Ok(c2)), Ok(()));
    assert_eq!(slot_bytes(&m, ChannelID::FrontLeft, true), bytes_of(&samples(4, 4)));
    assert!(!m.buffer(ChannelID::FrontLeft).is_second());
    assert_eq!(m.play(Status::Free, Status::Free), Tick::Prime(false));
    assert_eq!(m.play(Status::Queued, Status::Queued), Tick::Idle);
    // third cycle: the short run
    assert_eq!(m.play(Status::Done, Status::Done), Tick::Refill);
    let c3 = next_chunk(&mut m, &mut units).unwrap();
    assert_eq!(c3.0.len(), buf_len / 2);
    assert_eq!(m.refill(Ok(c3)), Ok(false));
    assert_eq!(
        slot_bytes(&m, ChannelID::FrontLeft, false),
        [bytes_of(&samples(8, 2)), bytes_of(&samples(2, 2))].concat()
    );
    // fourth attempt: end of stream, the session drains
    assert_eq!(m.play(Status::Done, Status::Done), Tick::Refill);
    let c4 = next_chunk(&mut m, &mut units);
    assert_eq!(c4, Err(DecodeError::EndOfStream));
    assert_eq!(m.refill(c4), Err(DecodeError::EndOfStream));
    assert_eq!(m.session_state(), SessionState::Draining);
    let left = slot_bytes(&m, ChannelID::FrontLeft, true);
    assert_eq!(m.play(Status::Done, Status::Done), Tick::Idle);
    assert_eq!(m.play(Status::Done, Status::Done), Tick::Idle);
    assert_eq!(slot_bytes(&m, ChannelID::FrontLeft, true), left);
    assert!(m.buffer(ChannelID::FrontRight).is_second());
}

#[test]
fn decode_fault_stops_the_session() {
    let mut m = Music::with_capacity(Decoder::new(2).ok().unwrap(), 4);
    assert_eq!(m.play(Status::Free, Status::Free), Tick::Prime(false));
    assert_eq!(m.play(Status::Done, Status::Done), Tick::Refill);
    m.fault();
    assert!(m.has_ended());
    assert!(matches!(m.decode_step(), Progress::Ended(DecodeError::DecodeFault)));
    assert_eq!(m.refill(Err(DecodeError::DecodeFault)), Err(DecodeError::DecodeFault));
    assert_eq!(m.session_state(), SessionState::Faulted);
    assert_eq!(m.play(Status::Done, Status::Done), Tick::Fault);
}

#[test]
fn player_without_music_is_idle() {
    let mut p = Player::new();
    assert!(!p.is_loaded());
    assert_eq!(p.play(Status::Done, Status::Done), Tick::Idle);
    assert_eq!(p.refill(Err(DecodeError::EndOfStream)), None);
    assert!(!p.push_unit(&vec![1], &vec![1]));
    assert!(matches!(p.decode_step(), Progress::Ended(DecodeError::EndOfStream)));
}

#[test]
fn player_drives_loaded_music() {
    let mut p = Player::new();
    p.load_music(Music::with_capacity(Decoder::new(2).ok().unwrap(), 4));
    assert!(p.is_loaded());
    assert_eq!(p.play(Status::Free, Status::Free), Tick::Prime(false));
    assert_eq!(p.refill(Ok((vec![1, 2], vec![3, 4]))), None);
    assert_eq!(p.play(Status::Done, Status::Done), Tick::Refill);
    assert!(matches!(p.decode_step(), Progress::NeedUnit));
    assert!(!p.push_unit(&vec![1, 2], &vec![1]));
    assert!(p.push_unit(&vec![1, 2], &vec![3, 4]));
    match p.decode_step() {
        Progress::Chunk(l, r) => {
            assert_eq!(l, bytes_of(&[1, 2]));
            assert_eq!(p.refill(Ok((l, r))), Some(Ok(false)));
        }
        _ => panic!("expected a chunk"),
    }
    p.end_of_stream();
    assert!(matches!(p.decode_step(), Progress::Ended(DecodeError::EndOfStream)));
}

#[test]
fn channel_from_mask() {
    assert_eq!(ChannelID::try_from_mask(0x1), Ok(ChannelID::FrontLeft));
    assert_eq!(ChannelID::try_from_mask(0x2), Ok(ChannelID::FrontRight));
    assert_eq!(ChannelID::try_from_mask(0x3), Err(()));
    assert_eq!(ChannelID::try_from_mask(0), Err(()));
}

#[test]
fn prefill_failure_changes_nothing() {
    let mut m = Music::with_capacity(Decoder::new(2).ok().unwrap(), 4);
    let r = m.prefill(Ok((vec![1, 2], vec![3, 4])), Err(DecodeError::EndOfStream));
    assert_eq!(r, Err(DecodeError::EndOfStream));
    assert_eq!(slot_bytes(&m, ChannelID::FrontLeft, false), vec![0, 0, 0, 0]);
    assert_eq!(m.prefill(Err(DecodeError::DecodeFault), Ok((vec![], vec![]))), Err(DecodeError::DecodeFault));
}

#[test]
fn prefill_fills_both_slots() {
    let mut m = Music::with_capacity(Decoder::new(2).ok().unwrap(), 4);
    assert_eq!(m.prefill(Ok((vec![1, 2, 3, 4], vec![5, 6])), Ok((vec![7, 8], vec![9, 9, 9, 9]))), Ok(()));
    assert_eq!(slot_bytes(&m, ChannelID::FrontLeft, false), vec![1, 2, 3, 4]);
    assert_eq!(slot_bytes(&m, ChannelID::FrontRight, false), vec![5, 6, 0, 0]);
    assert_eq!(slot_bytes(&m, ChannelID::FrontLeft, true), vec![7, 8, 0, 0]);
    assert_eq!(slot_bytes(&m, ChannelID::FrontRight, true), vec![9, 9, 9, 9]);
}

#[test]
fn push_checked_refuses_bad_units() {
    let mut m = Music::with_capacity(Decoder::new(2).ok().unwrap(), 4);
    assert!(!m.push_checked(&vec![1, 2], &vec![1]));
    assert_eq!(m.pending_len(), 0);
    assert!(m.push_checked(&vec![1], &vec![2]));
    assert_eq!(m.pending_len(), 2);
    m.end_of_stream();
    assert!(!m.push_checked(&vec![1], &vec![2]));
    assert_eq!(m.pending_len(), 2);
}

#[test]
fn session_short_run_takes_all_that_is_left() {
    let mut m = Music::with_capacity(Decoder::new(2).ok().unwrap(), 8);
    assert!(m.push_checked(&samples(1, 3), &samples(7, 3)));
    assert!(matches!(m.decode_step(), Progress::NeedUnit));
    m.end_of_stream();
    match m.decode_step() {
        Progress::Chunk(l, r) => {
            assert_eq!(l, bytes_of(&samples(1, 3)));
            assert_eq!(r, bytes_of(&samples(7, 3)));
        }
        _ => panic!("expected the final run"),
    }
    assert_eq!(m.pending_len(), 0);
    assert!(matches!(m.decode_step(), Progress::Ended(DecodeError::EndOfStream)));
}
