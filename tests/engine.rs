use crossbeam_channel::unbounded;
use streamplay::control::{PlayerActions, PlayerState, PlayerStatus};
use streamplay::engine::{
    first_supported_track, ignore_end_of_stream_error, DecodeMove, EngineError, NextMove,
    PacketMove, Phase, PlayerEngine, ReadError, SignalInfo, TrackInfo,
};
use streamplay::timing::TimeBase;

const RATE: u64 = 44100;

fn hour_track(id: u32) -> TrackInfo {
    TrackInfo {
        id,
        codec_supported: true,
        time_base: TimeBase::new(1, RATE as u32),
        start_ts: 0,
        n_frames: Some(3600 * RATE),
    }
}

fn null_track(id: u32) -> TrackInfo {
    TrackInfo { id, codec_supported: false, time_base: None, start_ts: 0, n_frames: None }
}

fn signal() -> SignalInfo {
    SignalInfo { channels: 2, rate: 44100, capacity: 1152 }
}

fn end_of_stream() -> ReadError {
    ReadError::Io { unexpected_eof: true, message: "end of stream".to_string() }
}

fn engine() -> (PlayerEngine, crossbeam_channel::Sender<PlayerActions>, crossbeam_channel::Receiver<PlayerStatus>) {
    let (tx, rx) = unbounded();
    let (tx_status, rx_status) = unbounded();
    (PlayerEngine::new(rx, tx_status), tx, rx_status)
}

/// Decodes one packet at `ts` and returns the events it publishes.
fn decode_at(e: &mut PlayerEngine, ts: u64) -> Vec<PlayerStatus> {
    assert_eq!(e.packet(Ok(e.track.unwrap().id)), PacketMove::Decode);
    match e.decoded(ts, Ok(signal())) {
        DecodeMove::Publish(es) => es,
        DecodeMove::OpenSink(s) => {
            assert_eq!(s, signal());
            match e.sink_opened(ts, Ok(())) {
                DecodeMove::Publish(es) => es,
                _ => panic!("expected events"),
            }
        }
        _ => panic!("expected a buffer"),
    }
}

#[test]
fn first_supported_track_skips_null_codec() {
    let tracks = vec![null_track(3), hour_track(5), hour_track(6)];
    assert_eq!(first_supported_track(&tracks), Some(1));
    assert_eq!(first_supported_track(&vec![null_track(1)]), None);
}

#[test]
fn open_selects_requested_or_first_supported_track() {
    let (mut e, _tx, _rx) = engine();
    let tracks = vec![null_track(3), hour_track(5), hour_track(6)];
    assert_eq!(e.open(&tracks, None).unwrap(), 5);
    assert!(matches!(e.phase, Phase::Running));
    assert!(e.playing);
    let (mut e2, _tx2, _rx2) = engine();
    assert_eq!(e2.open(&tracks, Some(2)).unwrap(), 6);
    let (mut e3, _tx3, _rx3) = engine();
    assert_eq!(e3.open(&tracks, Some(9)).unwrap(), 5);
}

#[test]
fn open_without_supported_track_fails() {
    let (mut e, _tx, _rx) = engine();
    assert!(matches!(e.open(&vec![null_track(1)], None), Err(EngineError::UnsupportedCodec)));
    assert!(matches!(e.phase, Phase::Idle));
}

#[test]
fn hour_long_track_pause_play_seek() {
    let (mut e, tx, _rx) = engine();
    e.open(&vec![hour_track(1)], None).unwrap();
    let mut state = PlayerState::new();

    state.apply_all(&decode_at(&mut e, 0));
    assert_eq!(state.duration, 3_600_000);
    assert_eq!(state.position, 0);

    tx.send(PlayerActions::Pause).unwrap();
    let (cmds, step) = e.poll();
    assert_eq!(cmds, vec![PlayerActions::Pause]);
    assert_eq!(step.next, NextMove::Wait);
    state.apply_all(&step.events);
    assert!(!state.playing);
    let (_, step) = e.poll();
    assert_eq!(step.next, NextMove::Wait);
    assert_eq!(state.position, 0);

    tx.send(PlayerActions::Resume).unwrap();
    let (_, step) = e.poll();
    assert_eq!(step.next, NextMove::Pull);
    state.apply_all(&step.events);
    assert!(state.playing);
    state.apply_all(&decode_at(&mut e, 1152));
    assert_eq!(state.position, 26);

    tx.send(PlayerActions::Seek(1_800_000)).unwrap();
    let (_, step) = e.poll();
    assert_eq!(step.seek, Some(1_800_000));
    assert_eq!(step.next, NextMove::Pull);
    state.apply_all(&decode_at(&mut e, 1800 * RATE));
    assert!(state.position >= 1_800_000);
    assert_eq!(state.duration, 3_600_000);
}

#[test]
fn pause_and_seek_back_to_back_both_apply() {
    let (mut e, tx, _rx) = engine();
    e.open(&vec![hour_track(1)], None).unwrap();
    tx.send(PlayerActions::Pause).unwrap();
    tx.send(PlayerActions::Seek(600_000)).unwrap();
    let (cmds, step) = e.poll();
    assert_eq!(cmds.len(), 2);
    assert!(!e.playing);
    assert_eq!(step.seek, Some(600_000));
    assert_eq!(step.next, NextMove::Wait);
    assert_eq!(step.events, vec![PlayerStatus::SendPlaying(false)]);
}

#[test]
fn decode_error_does_not_stop_playback() {
    let (mut e, _tx, _rx) = engine();
    e.open(&vec![hour_track(1)], None).unwrap();
    decode_at(&mut e, 0);
    assert!(matches!(e.decoded(44100, Err(ReadError::Decode("bad frame".to_string()))), DecodeMove::Skip));
    assert!(matches!(e.phase, Phase::Running));
    let es = decode_at(&mut e, 88200);
    assert_eq!(es, vec![PlayerStatus::SendDuration(3_600_000), PlayerStatus::SendPosition(2000)]);
}

#[test]
fn packet_of_another_track_is_skipped() {
    let (mut e, _tx, _rx) = engine();
    e.open(&vec![hour_track(1)], None).unwrap();
    assert_eq!(e.packet(Ok(2)), PacketMove::Skip);
    assert!(matches!(e.phase, Phase::Running));
}

#[test]
fn end_of_stream_ends_normally_and_flushes() {
    let (mut e, _tx, _rx) = engine();
    e.open(&vec![hour_track(1)], None).unwrap();
    decode_at(&mut e, 0);
    assert_eq!(e.packet(Err(end_of_stream())), PacketMove::Finish);
    assert!(matches!(e.phase, Phase::Ended));
    let f = e.finish();
    assert!(f.flush);
    assert!(f.result.is_ok());
    assert!(matches!(e.phase, Phase::Idle));
    assert!(e.track.is_none());
}

#[test]
fn read_error_is_fatal() {
    let (mut e, _tx, _rx) = engine();
    e.open(&vec![hour_track(1)], None).unwrap();
    let err = ReadError::Io { unexpected_eof: false, message: "connection reset".to_string() };
    assert_eq!(e.packet(Err(err)), PacketMove::Finish);
    let f = e.finish();
    assert!(!f.flush);
    assert!(matches!(f.result, Err(EngineError::Read(ReadError::Io { unexpected_eof: false, .. }))));
}

#[test]
fn other_decoder_error_is_fatal() {
    let (mut e, _tx, _rx) = engine();
    e.open(&vec![hour_track(1)], None).unwrap();
    assert!(matches!(e.decoded(0, Err(ReadError::ResetRequired)), DecodeMove::Finish));
    assert!(matches!(e.finish().result, Err(EngineError::Read(ReadError::ResetRequired))));
}

#[test]
fn sink_failure_is_fatal() {
    let (mut e, _tx, _rx) = engine();
    e.open(&vec![hour_track(1)], None).unwrap();
    assert!(matches!(e.decoded(0, Ok(signal())), DecodeMove::OpenSink(_)));
    assert!(matches!(e.sink_opened(0, Err(EngineError::NoOutputDevice)), DecodeMove::Finish));
    let f = e.finish();
    assert!(!f.flush);
    assert!(matches!(f.result, Err(EngineError::NoOutputDevice)));
}

#[test]
fn write_failure_is_fatal() {
    let (mut e, _tx, _rx) = engine();
    e.open(&vec![hour_track(1)], None).unwrap();
    decode_at(&mut e, 0);
    assert!(e.written(true));
    assert!(!e.written(false));
    let f = e.finish();
    assert!(f.flush);
    assert!(matches!(f.result, Err(EngineError::Write)));
}

#[test]
fn stop_finishes_the_loop() {
    let (mut e, tx, _rx) = engine();
    e.open(&vec![hour_track(1)], None).unwrap();
    tx.send(PlayerActions::Stop).unwrap();
    let (_, step) = e.poll();
    assert_eq!(step.next, NextMove::Finish);
    assert!(e.finish().result.is_ok());
}

#[test]
fn emit_publishes_in_order() {
    let (mut e, _tx, rx) = engine();
    let es = vec![PlayerStatus::SendDuration(7), PlayerStatus::SendPosition(3)];
    assert_eq!(e.emit(&es), 2);
    assert_eq!(rx.try_recv().unwrap(), PlayerStatus::SendDuration(7));
    assert_eq!(rx.try_recv().unwrap(), PlayerStatus::SendPosition(3));
}

#[test]
fn end_of_stream_signal_is_not_an_error() {
    assert!(ignore_end_of_stream_error(Err(end_of_stream())).is_ok());
    let other = ReadError::Io { unexpected_eof: true, message: "truncated".to_string() };
    assert!(ignore_end_of_stream_error(Err(other)).is_err());
    assert!(ignore_end_of_stream_error(Err(ReadError::Seek)).is_err());
    assert!(ignore_end_of_stream_error(Ok(())).is_ok());
}

#[test]
fn seek_just_before_end_keeps_playing_until_end_of_stream() {
    let (mut e, tx, _rx) = engine();
    e.open(&vec![hour_track(1)], None).unwrap();
    let mut state = PlayerState::new();
    state.apply_all(&decode_at(&mut e, 0));
    assert_eq!(state.duration, 3_600_000);
    tx.send(PlayerActions::Seek(state.duration - 1)).unwrap();
    let (_, step) = e.poll();
    assert_eq!(step.seek, Some(3_599_999));
    assert_eq!(step.next, NextMove::Pull);
    assert!(matches!(e.phase, Phase::Running));
    state.apply_all(&decode_at(&mut e, 3600 * RATE - 44));
    assert_eq!(state.position, 3_599_999);
    assert_eq!(e.packet(Err(end_of_stream())), PacketMove::Finish);
    assert!(e.finish().result.is_ok());
}

#[test]
fn relative_seek_from_published_position() {
    let (mut e, tx, _rx) = engine();
    e.open(&vec![hour_track(1)], None).unwrap();
    let mut state = PlayerState::new();
    state.apply_all(&decode_at(&mut e, 10 * RATE));
    assert_eq!(state.position, 10_000);
    let target = streamplay::timing::seek_relative_target(state.position, 30_000);
    tx.send(PlayerActions::Seek(target)).unwrap();
    let (_, step) = e.poll();
    assert_eq!(step.seek, Some(40_000));
    state.apply_all(&decode_at(&mut e, 40 * RATE));
    assert!(state.position >= 40_000);
}

#[test]
fn redundant_pause_changes_nothing_downstream() {
    let (mut a, tx_a, _rx_a) = engine();
    let (mut b, tx_b, _rx_b) = engine();
    a.open(&vec![hour_track(1)], None).unwrap();
    b.open(&vec![hour_track(1)], None).unwrap();
    for c in [PlayerActions::Pause, PlayerActions::Seek(5000), PlayerActions::Resume] {
        tx_a.send(c).unwrap();
    }
    for c in [PlayerActions::Pause, PlayerActions::Pause, PlayerActions::Seek(5000), PlayerActions::Resume] {
        tx_b.send(c).unwrap();
    }
    let (_, sa) = a.poll();
    let (cmds_b, sb) = b.poll();
    assert_eq!(cmds_b.len(), 4);
    assert_eq!(sa.events, sb.events);
    assert_eq!(sa.seek, sb.seek);
    assert_eq!(sa.next, sb.next);
    assert_eq!(a.playing, b.playing);
    assert_eq!(decode_at(&mut a, 5 * RATE), decode_at(&mut b, 5 * RATE));
}

#[test]
fn new_engine_uses_the_given_queues() {
    let (mut e, tx, rx) = engine();
    assert!(!e.playing);
    assert!(matches!(e.phase, Phase::Idle));
    e.open(&vec![hour_track(1)], None).unwrap();
    tx.send(PlayerActions::Pause).unwrap();
    let (cmds, step) = e.poll();
    assert_eq!(cmds, vec![PlayerActions::Pause]);
    assert_eq!(e.emit(&step.events), 1);
    assert_eq!(rx.try_recv().unwrap(), PlayerStatus::SendPlaying(false));
}

#[test]
fn emit_never_blocks_on_a_full_queue() {
    let (_tx, rx) = unbounded();
    let (tx_status, rx_status) = crossbeam_channel::bounded(1);
    let mut e = PlayerEngine::new(rx, tx_status);
    let es = vec![PlayerStatus::SendDuration(7), PlayerStatus::SendPosition(3)];
    assert_eq!(e.emit(&es), 1);
    assert_eq!(rx_status.try_recv().unwrap(), PlayerStatus::SendDuration(7));
    assert!(rx_status.try_recv().is_err());
}

#[test]
fn emit_never_blocks_on_a_zero_capacity_queue() {
    let (_tx, rx) = unbounded();
    let (tx_status, _rx_status) = crossbeam_channel::bounded(0);
    let mut e = PlayerEngine::new(rx, tx_status);
    assert_eq!(e.emit(&vec![PlayerStatus::SendPlaying(true)]), 0);
}

#[test]
fn poll_takes_queued_commands_in_arrival_order() {
    let (mut e, tx, _rx) = engine();
    e.open(&vec![hour_track(1)], None).unwrap();
    for c in [PlayerActions::Seek(1), PlayerActions::Pause, PlayerActions::Seek(2)] {
        tx.send(c).unwrap();
    }
    let (cmds, step) = e.poll();
    assert_eq!(cmds, vec![PlayerActions::Seek(1), PlayerActions::Pause, PlayerActions::Seek(2)]);
    assert_eq!(step.seek, Some(2));
    let (cmds, _) = e.poll();
    assert!(cmds.is_empty());
}
