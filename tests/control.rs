use sequence_player::{
    delivery_result, CueMetadata, Engine, OperationResult, PlaybackCommand, Sequence,
    SequencerError, SequencerState, StopMetadata, SwapMetadata, Trig,
};

fn pattern(len: u32, trig_count: usize) -> Sequence {
    let trigs = (0..trig_count)
        .map(|i| Trig { note: None, track: i as u32, step: 0, offset: 0, length: 100 })
        .collect();
    Sequence { sequence_length: len, bpm: 120, trig_subdivision: None, trigs }
}

fn started(cmd: Result<PlaybackCommand, SequencerError>) -> Sequence {
    match cmd {
        Ok(PlaybackCommand::Start(s)) => s,
        other => panic!("expected a start command, got {:?}", other),
    }
}

#[test]
fn cue_then_start_makes_the_pattern_current() {
    let mut status = SequencerState::new();
    let mut engine = Engine::new(0);
    let cued = pattern(7, 3);
    let meta = status.cue_sequence(cued.clone(), true).unwrap();
    assert_eq!(meta, CueMetadata { replaced_existing: false, remaining_steps: 7 });
    let s = started(status.start_sequence(true));
    assert_eq!(s, cued);
    engine.iterate(Some(PlaybackCommand::Start(s)), 0, &mut status);
    assert_eq!(status.current_sequence_info(), Some((7, 3)));
    assert!(status.is_playing());
    assert!(!status.has_cued());
}

#[test]
fn second_cue_replaces_the_first() {
    let mut status = SequencerState::new();
    let first = status.cue_sequence(pattern(4, 1), true).unwrap();
    assert!(!first.replaced_existing);
    let second = status.cue_sequence(pattern(9, 2), true).unwrap();
    assert!(second.replaced_existing);
    assert_eq!(started(status.start_sequence(true)), pattern(9, 2));
}

#[test]
fn start_without_cue_fails_and_changes_nothing() {
    let mut status = SequencerState::new();
    let mut engine = Engine::new(0);
    engine.iterate(Some(PlaybackCommand::Start(pattern(4, 2))), 0, &mut status);
    assert!(matches!(status.start_sequence(true), Err(SequencerError::NoSequenceCued)));
    assert!(status.is_playing());
    assert_eq!(status.current_step(), 0);
    assert_eq!(status.current_sequence_info(), Some((4, 2)));
    assert!(!status.has_cued());
    assert!(engine.is_playing());
}

#[test]
fn uninitialized_playback_is_reported() {
    let mut status = SequencerState::new();
    assert_eq!(status.cue_sequence(pattern(4, 0), false), Err(SequencerError::PlaybackNotInitialized));
    assert!(!status.has_cued());
    assert!(matches!(status.stop_sequence(false), Err(SequencerError::PlaybackNotInitialized)));
    assert!(matches!(
        status.swap_sequence(pattern(4, 0), false),
        Err(SequencerError::PlaybackNotInitialized)
    ));
    status.cue_sequence(pattern(4, 0), true).unwrap();
    assert!(matches!(status.start_sequence(false), Err(SequencerError::PlaybackNotInitialized)));
    assert!(status.has_cued());
}

#[test]
fn empty_patterns_are_refused() {
    let mut status = SequencerState::new();
    assert!(matches!(status.cue_sequence(pattern(0, 0), true), Err(SequencerError::Other(_))));
    assert!(!status.has_cued());
    assert!(matches!(status.swap_sequence(pattern(0, 0), true), Err(SequencerError::Other(_))));
}

#[test]
fn remaining_steps_count_the_rest_of_the_playing_pattern() {
    let mut status = SequencerState::new();
    let mut engine = Engine::new(0);
    engine.iterate(Some(PlaybackCommand::Start(pattern(8, 0))), 0, &mut status);
    engine.iterate(None, 125_000, &mut status);
    engine.iterate(None, 250_000, &mut status);
    assert_eq!(status.current_step(), 2);
    let meta = status.cue_sequence(pattern(3, 0), true).unwrap();
    assert_eq!(meta.remaining_steps, 6);
}

#[test]
fn stop_reports_the_current_trig_count() {
    let mut status = SequencerState::new();
    match status.stop_sequence(true) {
        Ok((PlaybackCommand::Stop, meta)) => assert_eq!(meta, StopMetadata { trig_count: None }),
        other => panic!("unexpected {:?}", other),
    }
    let mut engine = Engine::new(0);
    engine.iterate(Some(PlaybackCommand::Start(pattern(4, 5))), 0, &mut status);
    match status.stop_sequence(true) {
        Ok((PlaybackCommand::Stop, meta)) => assert_eq!(meta.trig_count, Some(5)),
        other => panic!("unexpected {:?}", other),
    }
}

#[test]
fn swap_reports_whether_a_pattern_was_current() {
    let mut status = SequencerState::new();
    match status.swap_sequence(pattern(4, 0), true) {
        Ok((PlaybackCommand::Swap(s), meta)) => {
            assert_eq!(s, pattern(4, 0));
            assert_eq!(meta, SwapMetadata { replaced_existing: false });
        }
        other => panic!("unexpected {:?}", other),
    }
    let mut engine = Engine::new(0);
    engine.iterate(Some(PlaybackCommand::Start(pattern(4, 0))), 0, &mut status);
    match status.swap_sequence(pattern(2, 0), true) {
        Ok((_, meta)) => assert!(meta.replaced_existing),
        other => panic!("unexpected {:?}", other),
    }
}

#[test]
fn failed_delivery_is_command_send_failed() {
    assert_eq!(delivery_result(true, 5u32), Ok(5));
    assert_eq!(delivery_result(false, 5u32), Err(SequencerError::CommandSendFailed));
}

#[test]
fn operation_result_flags() {
    let ok = OperationResult::success(3u8);
    assert!(ok.is_success() && !ok.is_failure());
    assert_eq!(ok.data, Some(3));
    let empty = OperationResult::<u8>::success_empty();
    assert!(empty.success);
    assert_eq!(empty.data, Some(()));
    let bad = OperationResult::<u8>::failure();
    assert!(bad.is_failure() && !bad.is_success());
    assert_eq!(bad.data, None);
}
