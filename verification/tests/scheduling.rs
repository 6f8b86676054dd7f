//! The scheduler's cursor walk, the liveness hysteresis, and the packet
//! layout.

use std::sync::Arc;
use wled_sequencer::ddp::create_ddp_packet;
use wled_sequencer::error::PlayerError;
use wled_sequencer::fseq::FseqFile;
use wled_sequencer::monitor::MonitorState;
use wled_sequencer::playback::{PlaybackContext, Scheduler, SchedulerPhase};
use wled_sequencer::state::{playback_may_start, StreamState};

fn make_uncompressed(channel_count: u32, frame_count: u32, frames: &[u8]) -> Vec<u8> {
    let mut b = vec![0u8; 32];
    b[0] = 0x50;
    b[1] = 0x53;
    b[2] = 0x45;
    b[3] = 0x51;
    b[4..6].copy_from_slice(&32u16.to_le_bytes());
    b[8..10].copy_from_slice(&32u16.to_le_bytes());
    b[10..14].copy_from_slice(&channel_count.to_le_bytes());
    b[14..18].copy_from_slice(&frame_count.to_le_bytes());
    b[18] = 50;
    b.extend_from_slice(frames);
    b
}

#[test]
fn scheduler_without_looping_finishes() {
    let mut s = Scheduler::new(3, false);
    assert!(matches!(s.phase, SchedulerPhase::Idle));
    s.start();
    assert!(s.is_active());
    for expected in 0..3u32 {
        assert_eq!(s.current_frame(), expected);
        s.advance_after_send();
    }
    assert!(!s.is_active());
    assert!(matches!(s.phase, SchedulerPhase::Finished));
    assert_eq!(s.sequence_run_count, 1);
}

#[test]
fn scheduler_with_looping_wraps_to_frame_zero() {
    let mut s = Scheduler::new(2, true);
    s.start();
    s.advance_after_send();
    assert!(matches!(s.phase, SchedulerPhase::Running));
    s.advance_after_send();
    assert!(matches!(s.phase, SchedulerPhase::Looping));
    assert_eq!(s.current_frame(), 0);
    assert_eq!(s.sequence_run_count, 1);
    assert!(s.is_active());
    // Another full pass.
    s.advance_after_send();
    s.advance_after_send();
    assert_eq!(s.sequence_run_count, 2);
    assert_eq!(s.current_frame(), 0);
}

#[test]
fn paused_observation_halts_before_the_next_frame() {
    let mut s = Scheduler::new(100, true);
    s.start();
    s.advance_after_send();
    let frame_at_transition = s.current_frame();
    s.observe_stream_state(StreamState::Paused);
    assert!(matches!(s.phase, SchedulerPhase::Halted));
    assert!(!s.is_active());
    // The cursor does not move once halted: no frame beyond the one in
    // flight at the transition is requested.
    assert_eq!(s.current_frame(), frame_at_transition);
}

#[test]
fn running_observation_changes_nothing() {
    let mut s = Scheduler::new(100, true);
    s.start();
    s.advance_after_send();
    s.observe_stream_state(StreamState::Running);
    assert!(matches!(s.phase, SchedulerPhase::Running));
    assert_eq!(s.current_frame(), 1);
    assert!(s.is_active());
}

#[test]
fn fetch_frame_decodes_at_the_cursor() {
    let frames: Vec<u8> = (0u8..8u8).collect();
    let file = FseqFile::parse(make_uncompressed(2, 4, &frames)).unwrap();
    let context = PlaybackContext { fseq_file: Arc::new(file), loop_enabled: false };
    let mut s = Scheduler::new(4, false);
    s.start();
    let mut seen = Vec::new();
    while s.is_active() {
        seen.extend_from_slice(&s.fetch_frame(&context).unwrap());
        s.advance_after_send();
    }
    assert_eq!(seen, frames);
}

#[test]
fn fetch_frame_surfaces_decode_errors() {
    // Claims 4 frames but holds only 2.
    let file = FseqFile::parse(make_uncompressed(2, 4, &[7u8; 4])).unwrap();
    let context = PlaybackContext { fseq_file: Arc::new(file), loop_enabled: false };
    let mut s = Scheduler::new(4, false);
    s.start();
    assert!(s.fetch_frame(&context).is_ok());
    s.advance_after_send();
    assert!(s.fetch_frame(&context).is_ok());
    s.advance_after_send();
    assert_eq!(s.fetch_frame(&context), Err(PlayerError::TruncatedFile));
}

#[test]
fn three_consecutive_failures_pause_the_stream() {
    let mut m = MonitorState::new();
    assert_eq!(m.observe_probe(false, StreamState::Running), None);
    assert_eq!(m.observe_probe(false, StreamState::Running), None);
    assert_eq!(
        m.observe_probe(false, StreamState::Running),
        Some(StreamState::Paused)
    );
}

#[test]
fn success_after_two_failures_resets_the_counter() {
    let mut m = MonitorState::new();
    assert_eq!(m.observe_probe(false, StreamState::Running), None);
    assert_eq!(m.observe_probe(false, StreamState::Running), None);
    assert_eq!(m.observe_probe(true, StreamState::Running), None);
    assert_eq!(m.consecutive_failures, 0);
    // The stream stayed running; three fresh failures are needed again.
    assert_eq!(m.observe_probe(false, StreamState::Running), None);
    assert_eq!(m.observe_probe(false, StreamState::Running), None);
    assert_eq!(
        m.observe_probe(false, StreamState::Running),
        Some(StreamState::Paused)
    );
}

#[test]
fn success_rearms_a_paused_stream() {
    let mut m = MonitorState::new();
    assert_eq!(
        m.observe_probe(true, StreamState::Paused),
        Some(StreamState::Running)
    );
    assert_eq!(m.consecutive_failures, 0);
}

#[test]
fn failures_while_paused_are_ignored() {
    let mut m = MonitorState::new();
    for _ in 0..10 {
        assert_eq!(m.observe_probe(false, StreamState::Paused), None);
    }
    assert_eq!(m.consecutive_failures, 0);
}

#[test]
fn stream_state_starts_paused() {
    let s = StreamState::initial();
    assert_eq!(s, StreamState::Paused);
    assert!(!playback_may_start(s));
    assert!(playback_may_start(StreamState::Running));
}

#[test]
fn ddp_packet_layout_is_exact() {
    let packet = create_ddp_packet(0x01020304, 0x0506, &[0xAA, 0xBB, 0xCC]);
    assert_eq!(
        packet,
        vec![0x41, 0x01, 0x00, 0x01, 0x01, 0x02, 0x03, 0x04, 0x05, 0x06, 0xAA, 0xBB, 0xCC]
    );
}

#[test]
fn ddp_packet_with_empty_payload_is_the_bare_header() {
    let packet = create_ddp_packet(0, 0, &[]);
    assert_eq!(packet, vec![0x41, 0x01, 0x00, 0x01, 0, 0, 0, 0, 0, 0]);
    let packet = create_ddp_packet(u32::MAX, u16::MAX, &[]);
    assert_eq!(
        packet,
        vec![0x41, 0x01, 0x00, 0x01, 0xFF, 0xFF, 0xFF, 0xFF, 0xFF, 0xFF]
    );
}

#[test]
fn looping_playback_fetches_across_the_wrap() {
    let frames: Vec<u8> = (10u8..16u8).collect();
    let file = FseqFile::parse(make_uncompressed(2, 3, &frames)).unwrap();
    let context = PlaybackContext { fseq_file: Arc::new(file), loop_enabled: true };
    let mut s = Scheduler::new(3, true);
    s.start();
    let mut seen = Vec::new();
    for _ in 0..6 {
        assert!(s.is_active());
        seen.extend_from_slice(&s.fetch_frame(&context).unwrap());
        s.advance_after_send();
    }
    // Two full passes, byte for byte.
    let mut expected = frames.clone();
    expected.extend_from_slice(&frames);
    assert_eq!(seen, expected);
    assert_eq!(s.sequence_run_count, 2);
}

#[test]
fn empty_sequence_fails_on_the_first_fetch() {
    let file = FseqFile::parse(make_uncompressed(2, 0, &[])).unwrap();
    let context = PlaybackContext { fseq_file: Arc::new(file), loop_enabled: true };
    let mut s = Scheduler::new(0, true);
    s.start();
    assert_eq!(s.fetch_frame(&context), Err(PlayerError::FrameOutOfRange));
}
