use barista::pcm::{PcmData, PcmError, WaveStatus, SAMPLES_PER_BUF};
use barista::source::{AudioSource, MemorySource, SourceError};

fn bytes(len: usize) -> Vec<u8> {
    (0..len).map(|i| 100 + i as u8).collect()
}

fn engine(len: usize, n: usize, lp: Option<[u64; 2]>) -> PcmData<MemorySource> {
    PcmData::with_buffer_size(MemorySource::new(bytes(len)), 32728, lp, n).unwrap()
}

#[test]
fn finite_source_fills_then_pads() {
    let mut e = engine(10, 4, None);
    e.read_samples(0).unwrap();
    assert_eq!(e.wave(0), &vec![100, 101, 102, 103]);
    assert_eq!(e.source().position(), 4);
    e.read_samples(1).unwrap();
    assert_eq!(e.wave(1), &vec![104, 105, 106, 107]);
    assert_eq!(e.source().position(), 8);
    assert!(!e.is_finished());
    e.read_samples(0).unwrap();
    assert_eq!(e.wave(0), &vec![108, 109, 0, 0]);
    assert_eq!(e.source().position(), 10);
    assert!(e.is_finished());
}

#[test]
fn init_queues_both_when_not_finished() {
    let mut e = engine(10, 4, None);
    assert_eq!(e.init(), Ok(true));
    assert_eq!(e.active_buffer(), 0);
    assert_eq!(e.wave(0), &vec![100, 101, 102, 103]);
    assert_eq!(e.wave(1), &vec![104, 105, 106, 107]);
    assert!(!e.is_finished());
    assert_eq!(e.reload_buffers(WaveStatus::Done), Ok(Some(1)));
    assert_eq!(e.wave(0), &vec![108, 109, 0, 0]);
    assert!(e.is_finished());
}

#[test]
fn init_queues_only_first_when_first_fill_ends() {
    let mut e = engine(3, 4, None);
    assert_eq!(e.init(), Ok(false));
    assert_eq!(e.wave(0), &vec![100, 101, 102, 0]);
    assert_eq!(e.wave(1), &vec![0, 0, 0, 0]);
    assert!(e.is_finished());
}

#[test]
fn init_queues_second_when_second_fill_ends() {
    let mut e = engine(6, 4, None);
    assert_eq!(e.init(), Ok(true));
    assert_eq!(e.wave(0), &vec![100, 101, 102, 103]);
    assert_eq!(e.wave(1), &vec![104, 105, 0, 0]);
    assert!(e.is_finished());
}

#[test]
fn init_starts_over_from_the_beginning() {
    let mut src = MemorySource::new(bytes(20));
    src.seek(12).unwrap();
    let mut e = PcmData::with_buffer_size(src, 48000, None, 4).unwrap();
    e.reload_buffers(WaveStatus::Done).unwrap();
    assert_eq!(e.active_buffer(), 1);
    assert_eq!(e.init(), Ok(true));
    assert_eq!(e.active_buffer(), 0);
    assert_eq!(e.wave(0), &vec![100, 101, 102, 103]);
    assert_eq!(e.source().position(), 8);
}

#[test]
fn loop_wrap_mid_buffer() {
    let mut src = MemorySource::new(bytes(10));
    src.seek(6).unwrap();
    let mut e = PcmData::with_buffer_size(src, 32728, Some([2, 8]), 4).unwrap();
    e.read_samples(0).unwrap();
    assert_eq!(e.wave(0), &vec![106, 107, 102, 103]);
    assert_eq!(e.source().position(), 4);
    assert!(!e.is_finished());
}

#[test]
fn loop_wrap_exact_formula() {
    // L = 16, loop [3, 11), N = 5, p = 9: source[9..11] ++ source[3..6], cursor 6.
    let mut src = MemorySource::new(bytes(16));
    src.seek(9).unwrap();
    let mut e = PcmData::with_buffer_size(src, 32728, Some([3, 11]), 5).unwrap();
    e.read_samples(1).unwrap();
    assert_eq!(e.wave(1), &vec![109, 110, 103, 104, 105]);
    assert_eq!(e.wave(0), &vec![0, 0, 0, 0, 0]);
    assert_eq!(e.source().position(), 6);
}

#[test]
fn loop_end_at_buffer_end_does_not_wrap() {
    let mut src = MemorySource::new(bytes(10));
    src.seek(4).unwrap();
    let mut e = PcmData::with_buffer_size(src, 32728, Some([2, 8]), 4).unwrap();
    e.read_samples(0).unwrap();
    assert_eq!(e.wave(0), &vec![104, 105, 106, 107]);
    assert_eq!(e.source().position(), 8);
    e.read_samples(1).unwrap();
    assert_eq!(e.wave(1), &vec![102, 103, 104, 105]);
    assert_eq!(e.source().position(), 6);
}

#[test]
fn looping_source_never_finishes() {
    let mut e = engine(10, 4, Some([0, 10]));
    assert_eq!(e.init(), Ok(true));
    for _ in 0..10 {
        assert!(e.reload_buffers(WaveStatus::Done).unwrap().is_some());
    }
    assert!(!e.is_finished());
}

#[test]
fn loop_start_too_near_end_fails() {
    // The jump back to 9 needs 3 bytes, but only 1 is left.
    let mut src = MemorySource::new(bytes(10));
    src.seek(7).unwrap();
    let mut e = PcmData::with_buffer_size(src, 32728, Some([9, 8]), 4).unwrap();
    assert_eq!(
        e.read_samples(0),
        Err(PcmError::Source(SourceError::UnexpectedEof))
    );
    assert!(!e.is_finished());
}

#[test]
fn fills_after_finish_change_nothing() {
    let mut e = engine(5, 4, None);
    e.read_samples(0).unwrap();
    e.read_samples(1).unwrap();
    assert!(e.is_finished());
    assert_eq!(e.wave(1), &vec![104, 0, 0, 0]);
    let before = (e.wave(0).clone(), e.wave(1).clone(), e.source().position());
    for i in 0..5 {
        e.read_samples(i % 2).unwrap();
    }
    assert_eq!((e.wave(0).clone(), e.wave(1).clone(), e.source().position()), before);
    assert!(e.is_finished());
    assert_eq!(e.reload_buffers(WaveStatus::Done), Ok(None));
    assert_eq!(e.active_buffer(), 0);
}

#[test]
fn reload_alternates_buffers() {
    let mut e = engine(100, 4, None);
    assert_eq!(e.init(), Ok(true));
    let mut expected = 1;
    for _ in 0..6 {
        let refilled = e.active_buffer();
        assert_eq!(e.reload_buffers(WaveStatus::Done), Ok(Some(expected)));
        assert_eq!(e.active_buffer(), expected);
        assert_ne!(refilled, expected);
        expected = 1 - expected;
    }
}

#[test]
fn reload_waits_until_done() {
    let mut e = engine(100, 4, None);
    e.init().unwrap();
    let before = (e.wave(0).clone(), e.wave(1).clone(), e.source().position());
    for status in [WaveStatus::Free, WaveStatus::Queued, WaveStatus::Playing] {
        assert_eq!(e.reload_buffers(status), Ok(None));
        assert_eq!(e.active_buffer(), 0);
        assert_eq!((e.wave(0).clone(), e.wave(1).clone(), e.source().position()), before);
    }
    assert_eq!(e.reload_buffers(WaveStatus::Done), Ok(Some(1)));
    assert_eq!(e.wave(0), &vec![108, 109, 110, 111]);
    assert_eq!(e.wave(1), &before.1);
}

#[test]
fn loop_end_beyond_source_is_refused() {
    let r = PcmData::with_buffer_size(MemorySource::new(bytes(10)), 32728, Some([2, 11]), 4);
    assert_eq!(
        r.err(),
        Some(PcmError::LoopPoints { stream_len: 10, loop_start: 2, loop_end: 11 })
    );
}

#[test]
fn loop_start_beyond_source_is_refused() {
    let r = PcmData::new(MemorySource::new(bytes(10)), 32728, Some([12, 4]));
    assert_eq!(
        r.err(),
        Some(PcmError::LoopPoints { stream_len: 10, loop_start: 12, loop_end: 4 })
    );
}

#[test]
fn loop_points_at_source_end_are_accepted() {
    assert!(PcmData::with_buffer_size(MemorySource::new(bytes(10)), 1, Some([10, 10]), 4).is_ok());
}

#[test]
fn new_uses_default_buffer_size() {
    let e = PcmData::new(MemorySource::new(bytes(10)), 44100, None).unwrap();
    assert_eq!(e.wave(0).len(), SAMPLES_PER_BUF);
    assert_eq!(e.wave(1).len(), SAMPLES_PER_BUF);
    assert!(e.wave(0).iter().all(|b| *b == 0));
    assert_eq!(e.sample_rate(), 44100);
    assert_eq!(e.active_buffer(), 0);
    assert!(!e.is_finished());
}

#[test]
fn empty_source_pads_whole_buffer() {
    let mut e = engine(0, 4, None);
    assert_eq!(e.init(), Ok(false));
    assert_eq!(e.wave(0), &vec![0, 0, 0, 0]);
    assert!(e.is_finished());
}

#[test]
fn memory_source_reads_and_fails_past_end() {
    let mut src = MemorySource::new(bytes(5));
    assert_eq!(src.stream_len(), Ok(5));
    let mut buf = vec![0u8; 4];
    assert_eq!(src.read_exact(&mut buf, 1, 3), Ok(()));
    assert_eq!(buf, vec![0, 100, 101, 102]);
    assert_eq!(src.stream_position(), Ok(3));
    assert_eq!(src.read_exact(&mut buf, 0, 3), Err(SourceError::UnexpectedEof));
    src.seek(9).unwrap();
    assert_eq!(src.read_exact(&mut buf, 0, 0), Ok(()));
    assert_eq!(src.read_exact(&mut buf, 0, 1), Err(SourceError::UnexpectedEof));
}
