use media_browser::{AudioControl, AudioPlayer, PlayerStatus, WorkerAction, WorkerEvent, WorkerState};

#[test]
fn replay_supersedes_the_previous_session() {
    let mut player = AudioPlayer::default();

    let first = player.play("/music/track.mp3".to_string(), "track.mp3".to_string());
    let (first_worker, started) = WorkerState::new().step(WorkerEvent::Loaded);
    assert_eq!(first_worker, WorkerState::Playing);
    assert_eq!(started, WorkerAction::StartVoice);
    assert_eq!(player.audio_file_name(), "track.mp3");

    let second = player.play("/music/other.mp3".to_string(), "other.mp3".to_string());
    assert_ne!(first.session, second.session);
    assert_eq!(second.full_path, "/music/other.mp3");

    let (first_worker, action) = first_worker.step(WorkerEvent::Disconnected);
    assert!(first_worker.has_ended());
    assert_eq!(action, WorkerAction::Nothing);

    assert_eq!(player.audio_file_name(), "other.mp3");
    assert_eq!(player.current_status(), PlayerStatus::Active);
    assert_eq!(player.current_session(), second.session);
}

#[test]
fn two_toggles_leave_the_engine_pause_flag_as_it_was() {
    let mut player = AudioPlayer::default();
    player.play("/music/track.mp3".to_string(), "track.mp3".to_string());

    let (mut worker, started) = WorkerState::new().step(WorkerEvent::Loaded);
    let mut engine_paused = started.pause_after(false);
    let before = engine_paused;
    assert!(!before);

    let first = player.toggle_pause_resume();
    let second = player.toggle_pause_resume();
    assert_eq!(first, Some(AudioControl::Pause));
    assert_eq!(second, Some(AudioControl::Play));

    for command in [first, second].into_iter().flatten() {
        let (next, action) = worker.step(WorkerEvent::Received(command));
        engine_paused = action.pause_after(engine_paused);
        worker = next;
    }

    assert_eq!(engine_paused, before);
    assert_eq!(worker, WorkerState::Playing);
    assert!(!player.is_paused());
}

#[test]
fn missing_file_puts_the_controller_in_the_failed_state() {
    let mut player = AudioPlayer::default();
    let launch = player.play("/missing/file.mp3".to_string(), "file.mp3".to_string());
    assert_eq!(player.audio_file_name(), "file.mp3");

    let (worker, action) = WorkerState::new().step(WorkerEvent::LoadFailed);
    assert_eq!(worker, WorkerState::Failed);
    assert!(worker.has_ended());
    assert_eq!(action, WorkerAction::ReportLoadFailure);

    assert!(player.report_load_failure(launch.session));
    assert_eq!(player.current_status(), PlayerStatus::Failed);
    assert_ne!(player.audio_file_name(), "file.mp3");
    assert_eq!(player.audio_file_name(), "Audio could not be loaded");
}

#[test]
fn stop_reaches_the_worker_before_the_channel_closes() {
    let mut player = AudioPlayer::default();
    player.play("/music/track.mp3".to_string(), "track.mp3".to_string());
    let sent = player.stop();
    assert_eq!(sent, Some(AudioControl::Stop));

    let events = vec![
        WorkerEvent::Loaded,
        WorkerEvent::Received(AudioControl::Stop),
        WorkerEvent::Disconnected,
    ];
    let (worker, actions) = WorkerState::new().run(&events);
    assert_eq!(worker, WorkerState::Stopped);
    assert_eq!(
        actions,
        vec![WorkerAction::StartVoice, WorkerAction::StopVoice, WorkerAction::Nothing]
    );
}

#[test]
fn two_toggles_cancel_after_a_paused_session_was_superseded() {
    let mut player = AudioPlayer::default();
    player.play("/music/track.mp3".to_string(), "track.mp3".to_string());
    assert_eq!(player.toggle_pause_resume(), Some(AudioControl::Pause));
    player.play("/music/other.mp3".to_string(), "other.mp3".to_string());

    let (mut worker, started) = WorkerState::new().step(WorkerEvent::Loaded);
    let mut engine_paused = started.pause_after(true);
    let before = engine_paused;
    assert!(!before);
    assert_eq!(player.is_paused(), before);

    let first = player.toggle_pause_resume();
    let second = player.toggle_pause_resume();
    assert_eq!(first, Some(AudioControl::Pause));
    assert_eq!(second, Some(AudioControl::Play));

    for command in [first, second].into_iter().flatten() {
        let (next, action) = worker.step(WorkerEvent::Received(command));
        engine_paused = action.pause_after(engine_paused);
        worker = next;
    }

    assert_eq!(engine_paused, before);
    assert_eq!(worker, WorkerState::Playing);
    assert!(!player.is_paused());
}
