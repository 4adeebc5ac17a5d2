use facewinunlock::attempt::RunResult;
use facewinunlock::channel::{classify, ControlMessage};
use facewinunlock::config::{Mode, SessionConfig, StoredOptions};
use facewinunlock::controller::{
    control, control_at, lock, prepare_before, read_notification, run_before,
    timer_fired, timer_fired_at, disarm, AttemptReport, Command, Notification, PrepareError,
    StoreRead,
};
use facewinunlock::governor::Governor;
use facewinunlock::state::{
    get_face_aligned_mode, get_face_recognition_mode, get_global_log_path, root_for,
    set_face_aligned_mode, set_face_recognition_mode, set_global_log_path, ControllerState, Phase,
};

fn options(kind: Option<&str>) -> StoredOptions {
    StoredOptions {
        face_recog_type: kind.map(|k| k.to_string()),
        face_recog_delay_ms: Some(2_500),
        camera: Some("1".to_string()),
        retry_delay_ms: Some(5_000),
        liveness_enabled: Some("true".to_string()),
        liveness_threshold_pct: Some(70),
    }
}

fn store(kind: Option<&str>) -> StoreRead {
    StoreRead::Loaded { face_count: 2, initialized: Some("true".to_string()), options: options(kind) }
}

fn armed(kind: Option<&str>) -> ControllerState {
    let mut state = ControllerState::new();
    lock(&mut state, &store(kind));
    assert_eq!(state.phase(), Phase::Armed);
    state
}

fn running() -> ControllerState {
    let mut state = armed(Some("operation"));
    let command = control_at(&mut state, ControlMessage::Run, 100_000);
    assert!(matches!(command, Command::RunAttempt { .. }));
    assert_eq!(state.phase(), Phase::Running);
    state
}

#[test]
fn new_controller_is_unarmed_with_defaults() {
    let state = ControllerState::new();
    assert_eq!(state.phase(), Phase::Unarmed);
    assert!(!state.timer_pending());
    assert_eq!(state.fail_count(), 0);
    assert_eq!(state.governor(), Governor { fail_count: 0, last_attempt: 0 });
    assert_eq!(
        state.config(),
        SessionConfig {
            mode: Mode::Immediate,
            delay_ms: 10_000,
            camera_index: 0,
            retry_delay_ms: 10_000,
            liveness_enabled: false,
            liveness_threshold_pct: 50,
        }
    );
    assert_eq!(get_face_recognition_mode(&state), "operation");
    assert_eq!(get_face_aligned_mode(&state), "default");
    assert_eq!(get_global_log_path(&state), "");
}

#[test]
fn lock_arms_in_immediate_mode_and_waits_for_run() {
    let mut state = ControllerState::new();
    let command = lock(&mut state, &store(Some("operation")));
    assert!(matches!(command, Command::Nothing));
    assert_eq!(state.phase(), Phase::Armed);
    assert!(!state.timer_pending());
    assert_eq!(state.config().mode, Mode::Immediate);
    assert_eq!(state.config().camera_index, 1);
    assert_eq!(state.config().retry_delay_ms, 5_000);
    assert!(state.config().liveness_enabled);
    assert_eq!(state.config().liveness_threshold_pct, 70);
}

#[test]
fn lock_in_delayed_mode_starts_timer() {
    let mut state = ControllerState::new();
    let command = lock(&mut state, &store(Some("delay")));
    assert!(matches!(command, Command::StartTimer { delay_ms: 2_500 }));
    assert_eq!(state.phase(), Phase::Armed);
    assert!(state.timer_pending());
    assert_eq!(state.config().mode, Mode::Delayed);
    assert_eq!(get_face_recognition_mode(&state), "delay");
}

#[test]
fn lock_with_unavailable_store_stays_unarmed() {
    let mut state = ControllerState::new();
    let command = lock(&mut state, &StoreRead::Unavailable);
    assert!(matches!(command, Command::Nothing));
    assert_eq!(state.phase(), Phase::Unarmed);
    assert!(matches!(control_at(&mut state, ControlMessage::Run, 100_000), Command::Nothing));
    assert_eq!(state.phase(), Phase::Unarmed);
}

#[test]
fn lock_with_uninitialized_installation_stays_unarmed() {
    for initialized in [None, Some("false".to_string())] {
        let mut state = ControllerState::new();
        let read = StoreRead::Loaded { face_count: 1, initialized, options: options(Some("delay")) };
        assert!(matches!(lock(&mut state, &read), Command::Nothing));
        assert_eq!(state.phase(), Phase::Unarmed);
        assert_eq!(state.config().mode, Mode::Immediate);
    }
}

#[test]
fn lock_without_templates_loads_the_configuration_all_the_same() {
    let mut state = ControllerState::new();
    let read = StoreRead::Loaded { face_count: 0, initialized: None, options: options(Some("delay")) };
    assert!(matches!(lock(&mut state, &read), Command::StartTimer { delay_ms: 2_500 }));
    assert_eq!(state.phase(), Phase::Armed);
    assert_eq!(state.config(), SessionConfig::from_options(&options(Some("delay"))));
    assert_eq!(get_face_recognition_mode(&state), "delay");
}

#[test]
fn every_arm_loads_the_configuration_afresh() {
    for face_count in [0, 2] {
        let mut state = armed(Some("delay"));
        assert_eq!(state.config().camera_index, 1);
        disarm(&mut state);
        let mut edited = options(Some("operation"));
        edited.camera = Some("3".to_string());
        edited.retry_delay_ms = None;
        edited.liveness_enabled = Some("false".to_string());
        edited.face_recog_delay_ms = Some(7_000);
        let read = StoreRead::Loaded {
            face_count,
            initialized: Some("true".to_string()),
            options: edited,
        };
        assert!(matches!(lock(&mut state, &read), Command::Nothing));
        assert_eq!(
            state.config(),
            SessionConfig {
                mode: Mode::Immediate,
                delay_ms: 7_000,
                camera_index: 3,
                retry_delay_ms: 10_000,
                liveness_enabled: false,
                liveness_threshold_pct: 70,
            }
        );
    }
}

#[test]
fn end_of_attempt_keeps_the_time_of_permission() {
    for report in [
        AttemptReport::CameraUnavailable,
        AttemptReport::Ran(RunResult::Unlocked),
        AttemptReport::Ran(RunResult::Rejected),
        AttemptReport::Ran(RunResult::Failed),
    ] {
        let mut state = running();
        assert_eq!(state.governor().last_attempt, 100_000);
        run_before(&mut state, report);
        assert_eq!(state.governor().last_attempt, 100_000);
        assert_eq!(state.phase(), Phase::Unarmed);
    }
}

#[test]
fn lock_clears_failure_count() {
    let mut state = running();
    run_before(&mut state, AttemptReport::Ran(RunResult::Rejected));
    assert_eq!(state.fail_count(), 1);
    lock(&mut state, &store(Some("operation")));
    assert_eq!(state.fail_count(), 0);
    assert_eq!(state.governor().last_attempt, 100_000);
}

#[test]
fn lock_clears_failure_count_even_when_store_fails() {
    let mut state = running();
    run_before(&mut state, AttemptReport::Ran(RunResult::Rejected));
    lock(&mut state, &StoreRead::Unavailable);
    assert_eq!(state.fail_count(), 0);
    assert_eq!(state.phase(), Phase::Unarmed);
}

#[test]
fn lock_while_running_is_ignored() {
    let mut state = running();
    assert!(matches!(lock(&mut state, &store(Some("delay"))), Command::Nothing));
    assert_eq!(state.phase(), Phase::Running);
    assert_eq!(state.config().mode, Mode::Immediate);
}

#[test]
fn prepare_before_reports_errors() {
    let mut state = ControllerState::new();
    assert_eq!(prepare_before(&mut state, &StoreRead::Unavailable), Err(PrepareError::StoreUnavailable));
    let read = StoreRead::Loaded { face_count: 3, initialized: Some("false".to_string()), options: options(None) };
    assert_eq!(prepare_before(&mut state, &read), Err(PrepareError::NotInitialized));
    let read = StoreRead::Loaded { face_count: 3, initialized: None, options: options(None) };
    assert_eq!(prepare_before(&mut state, &read), Err(PrepareError::NotInitialized));
    let read = StoreRead::Loaded { face_count: 1, initialized: None, options: options(Some("delay")) };
    assert_eq!(prepare_before(&mut state, &read), Err(PrepareError::NotInitialized));
    assert_eq!(state.config(), SessionConfig::new());
    assert_eq!(state.phase(), Phase::Unarmed);
}

#[test]
fn prepare_before_loads_options() {
    let mut state = ControllerState::new();
    let read = StoreRead::Loaded { face_count: 1, initialized: Some("1".to_string()), options: options(None) };
    assert_eq!(prepare_before(&mut state, &read), Ok(()));
    assert_eq!(get_face_recognition_mode(&state), "operation");
    assert_eq!(state.config().delay_ms, 2_500);
    assert_eq!(state.phase(), Phase::Unarmed);
}

#[test]
fn prepare_before_loads_options_without_templates() {
    let mut state = ControllerState::new();
    let read = StoreRead::Loaded { face_count: 0, initialized: None, options: options(Some("delay")) };
    assert_eq!(prepare_before(&mut state, &read), Ok(()));
    assert_eq!(state.config(), SessionConfig::from_options(&options(Some("delay"))));
    let read = StoreRead::Loaded {
        face_count: -1,
        initialized: Some("false".to_string()),
        options: options(None),
    };
    assert_eq!(prepare_before(&mut state, &read), Ok(()));
    assert_eq!(state.config().mode, Mode::Immediate);
    assert_eq!(get_face_recognition_mode(&state), "operation");
}

#[test]
fn run_starts_attempt_when_armed() {
    let mut state = armed(Some("operation"));
    match control_at(&mut state, ControlMessage::Run, 100_000) {
        Command::RunAttempt { config } => assert_eq!(config, state.config()),
        other => panic!("unexpected {:?}", other),
    }
    assert_eq!(state.phase(), Phase::Running);
    assert_eq!(state.governor().last_attempt, 100_000);
}

#[test]
fn run_is_dropped_when_unarmed() {
    let mut state = ControllerState::new();
    assert!(matches!(control_at(&mut state, ControlMessage::Run, 100_000), Command::Nothing));
    assert_eq!(state.phase(), Phase::Unarmed);
    assert_eq!(state.governor().last_attempt, 0);
}

#[test]
fn run_is_dropped_while_running() {
    let mut state = running();
    assert!(matches!(control_at(&mut state, ControlMessage::Run, 900_000), Command::Nothing));
    assert_eq!(state.phase(), Phase::Running);
    assert_eq!(state.governor().last_attempt, 100_000);
}

#[test]
fn run_is_dropped_in_delayed_mode() {
    let mut state = armed(Some("delay"));
    assert!(matches!(control_at(&mut state, ControlMessage::Run, 100_000), Command::Nothing));
    assert_eq!(state.phase(), Phase::Armed);
    assert!(state.timer_pending());
}

#[test]
fn run_refused_by_spacing_leaves_controller_armed() {
    let mut state = running();
    run_before(&mut state, AttemptReport::Ran(RunResult::Failed));
    lock(&mut state, &store(Some("operation")));
    assert!(matches!(control_at(&mut state, ControlMessage::Run, 104_999), Command::Nothing));
    assert_eq!(state.phase(), Phase::Armed);
    assert_eq!(state.governor().last_attempt, 100_000);
    assert!(matches!(control_at(&mut state, ControlMessage::Run, 105_000), Command::RunAttempt { .. }));
    assert_eq!(state.phase(), Phase::Running);
}

#[test]
fn of_two_close_run_messages_one_starts_an_attempt() {
    let mut state = armed(Some("operation"));
    let first = control_at(&mut state, ControlMessage::Run, 100_000);
    run_before(&mut state, AttemptReport::CameraUnavailable);
    lock(&mut state, &store(Some("operation")));
    let second = control_at(&mut state, ControlMessage::Run, 100_500);
    assert!(matches!(first, Command::RunAttempt { .. }));
    assert!(matches!(second, Command::Nothing));
}

#[test]
fn timer_starts_attempt_in_delayed_mode() {
    let mut state = armed(Some("delay"));
    assert!(matches!(timer_fired_at(&mut state, 100_000), Command::RunAttempt { .. }));
    assert_eq!(state.phase(), Phase::Running);
    assert!(!state.timer_pending());
    assert_eq!(state.governor().last_attempt, 100_000);
}

#[test]
fn timer_refused_by_governor_is_dropped() {
    let mut state = armed(Some("delay"));
    timer_fired_at(&mut state, 100_000);
    run_before(&mut state, AttemptReport::Ran(RunResult::Rejected));
    lock(&mut state, &store(Some("delay")));
    assert!(matches!(timer_fired_at(&mut state, 101_000), Command::Nothing));
    assert_eq!(state.phase(), Phase::Armed);
    assert!(!state.timer_pending());
    assert!(matches!(timer_fired_at(&mut state, 900_000), Command::Nothing));
}

#[test]
fn timer_without_pending_timer_is_ignored() {
    let mut state = armed(Some("operation"));
    assert!(matches!(timer_fired_at(&mut state, 100_000), Command::Nothing));
    assert_eq!(state.phase(), Phase::Armed);
    let mut state = ControllerState::new();
    assert!(matches!(timer_fired_at(&mut state, 100_000), Command::Nothing));
    assert_eq!(state.phase(), Phase::Unarmed);
}

#[test]
fn unlock_disarms_and_cancels_timer() {
    let mut state = armed(Some("delay"));
    assert!(matches!(disarm(&mut state), Command::Disarm { abandon: false }));
    assert_eq!(state.phase(), Phase::Unarmed);
    assert!(!state.timer_pending());
    assert!(matches!(timer_fired_at(&mut state, 100_000), Command::Nothing));
    assert_eq!(state.phase(), Phase::Unarmed);
}

#[test]
fn unlock_abandons_running_attempt() {
    let mut state = running();
    assert!(matches!(disarm(&mut state), Command::Disarm { abandon: true }));
    assert_eq!(state.phase(), Phase::Unarmed);
    run_before(&mut state, AttemptReport::Ran(RunResult::Rejected));
    assert_eq!(state.fail_count(), 0);
    assert_eq!(state.governor().last_attempt, 100_000);
}

#[test]
fn unlock_when_unarmed_still_cancels() {
    let mut state = ControllerState::new();
    assert!(matches!(disarm(&mut state), Command::Disarm { abandon: false }));
    assert_eq!(state.phase(), Phase::Unarmed);
}

#[test]
fn success_clears_count_and_unarms() {
    let mut state = running();
    run_before(&mut state, AttemptReport::Ran(RunResult::Unlocked));
    assert_eq!(state.phase(), Phase::Unarmed);
    assert_eq!(state.governor(), Governor { fail_count: 0, last_attempt: 100_000 });
}

#[test]
fn rejection_adds_to_count_and_unarms() {
    let mut state = running();
    run_before(&mut state, AttemptReport::Ran(RunResult::Rejected));
    assert_eq!(state.phase(), Phase::Unarmed);
    assert_eq!(state.governor(), Governor { fail_count: 1, last_attempt: 100_000 });
}

#[test]
fn broken_off_attempt_keeps_count() {
    let mut state = running();
    run_before(&mut state, AttemptReport::Ran(RunResult::Failed));
    assert_eq!(state.phase(), Phase::Unarmed);
    assert_eq!(state.governor(), Governor { fail_count: 0, last_attempt: 100_000 });
}

#[test]
fn unavailable_camera_keeps_count_and_time() {
    let mut state = running();
    run_before(&mut state, AttemptReport::CameraUnavailable);
    assert_eq!(state.phase(), Phase::Unarmed);
    assert_eq!(state.governor(), Governor { fail_count: 0, last_attempt: 100_000 });
}

#[test]
fn exit_terminates_from_every_phase() {
    let mut state = ControllerState::new();
    assert!(matches!(control_at(&mut state, ControlMessage::Exit, 1), Command::Shutdown { abandon: false }));
    assert_eq!(state.phase(), Phase::Terminated);

    let mut state = armed(Some("delay"));
    assert!(matches!(control_at(&mut state, ControlMessage::Exit, 1), Command::Shutdown { abandon: false }));
    assert_eq!(state.phase(), Phase::Terminated);
    assert!(!state.timer_pending());

    let mut state = running();
    assert!(matches!(control_at(&mut state, ControlMessage::Exit, 1), Command::Shutdown { abandon: true }));
    assert_eq!(state.phase(), Phase::Terminated);
}

#[test]
fn terminated_controller_ignores_everything() {
    let mut state = armed(Some("operation"));
    control_at(&mut state, ControlMessage::Exit, 1);
    assert!(matches!(lock(&mut state, &store(Some("operation"))), Command::Nothing));
    assert!(matches!(disarm(&mut state), Command::Nothing));
    assert!(matches!(timer_fired_at(&mut state, 100_000), Command::Nothing));
    assert!(matches!(control_at(&mut state, ControlMessage::Run, 100_000), Command::Nothing));
    assert!(matches!(control_at(&mut state, ControlMessage::Exit, 100_000), Command::Nothing));
    assert!(matches!(
        control_at(&mut state, classify("a::FaceWinUnlock::b"), 100_000),
        Command::Nothing
    ));
    run_before(&mut state, AttemptReport::Ran(RunResult::Rejected));
    assert_eq!(state.phase(), Phase::Terminated);
    assert_eq!(state.fail_count(), 0);
}

#[test]
fn credentials_are_forwarded_to_the_broker() {
    for mut state in [ControllerState::new(), armed(Some("operation")), running()] {
        let phase = state.phase();
        match control_at(&mut state, classify(" alice ::FaceWinUnlock::secret1"), 5) {
            Command::Forward { message } => assert_eq!(message, "alice::FaceWinUnlock::secret1"),
            other => panic!("unexpected {:?}", other),
        }
        assert_eq!(state.phase(), phase);
    }
}

#[test]
fn probe_and_unknown_change_nothing() {
    let mut state = armed(Some("operation"));
    assert!(matches!(control_at(&mut state, classify("hello server"), 5), Command::Nothing));
    assert!(matches!(control_at(&mut state, classify("alice::MARK"), 5), Command::Nothing));
    assert!(matches!(control_at(&mut state, classify("garbage"), 5), Command::Nothing));
    assert_eq!(state.phase(), Phase::Armed);
    assert_eq!(state.governor().last_attempt, 0);
}

#[test]
fn clock_fronts_behave_like_their_timed_forms() {
    let mut state = armed(Some("operation"));
    assert!(matches!(control(&mut state, ControlMessage::Run), Command::RunAttempt { .. }));
    assert!(state.governor().last_attempt > 1_600_000_000_000);
    let started = state.governor().last_attempt;
    run_before(&mut state, AttemptReport::Ran(RunResult::Rejected));
    assert_eq!(state.phase(), Phase::Unarmed);
    assert_eq!(state.fail_count(), 1);
    assert!(state.governor().last_attempt >= started);

    let mut state = armed(Some("delay"));
    assert!(matches!(timer_fired(&mut state), Command::RunAttempt { .. }));
    run_before(&mut state, AttemptReport::CameraUnavailable);
    assert_eq!(state.phase(), Phase::Unarmed);
    assert_eq!(state.fail_count(), 0);
}

#[test]
fn recognition_mode_setter_switches_mode() {
    let mut state = ControllerState::new();
    set_face_recognition_mode(&mut state, "delay".to_string());
    assert_eq!(get_face_recognition_mode(&state), "delay");
    assert_eq!(state.config().mode, Mode::Delayed);
    set_face_recognition_mode(&mut state, "operation".to_string());
    assert_eq!(get_face_recognition_mode(&state), "operation");
    assert_eq!(state.config().mode, Mode::Immediate);
    assert_eq!(state.config().delay_ms, 10_000);
}

#[test]
fn aligned_mode_setter_keeps_the_rest() {
    let mut state = armed(Some("delay"));
    set_face_aligned_mode(&mut state, "manual".to_string());
    assert_eq!(get_face_aligned_mode(&state), "manual");
    assert_eq!(get_face_recognition_mode(&state), "delay");
    assert_eq!(state.phase(), Phase::Armed);
    assert!(state.timer_pending());
}

#[test]
fn log_path_setter_keeps_the_parent() {
    let mut state = ControllerState::new();
    set_global_log_path(&mut state, "/opt/agent/logs/unlock.log");
    assert_eq!(get_global_log_path(&state), "/opt/agent/logs");
    set_global_log_path(&mut state, "/");
    assert_eq!(get_global_log_path(&state), "/");
    set_global_log_path(&mut state, "");
    assert_eq!(get_global_log_path(&state), "");
    set_global_log_path(&mut state, "file");
    assert_eq!(get_global_log_path(&state), "");
    assert_eq!(state.phase(), Phase::Unarmed);
    assert_eq!(get_face_aligned_mode(&state), "default");
}

#[test]
fn root_for_falls_back_to_the_path() {
    assert_eq!(root_for(Some("/a".to_string()), "/a/b"), "/a");
    assert_eq!(root_for(None, "/"), "/");
    assert_eq!(root_for(Some(String::new()), "b"), "");
}

#[test]
fn failure_count_never_passes_ceiling_over_many_cycles() {
    let mut state = ControllerState::new();
    let mut now: u128 = 1_000_000;
    for _ in 0..20 {
        lock(&mut state, &store(Some("operation")));
        control_at(&mut state, ControlMessage::Run, now);
        run_before(&mut state, AttemptReport::Ran(RunResult::Rejected));
        assert!(state.fail_count() <= 3);
        now += 100_000;
    }
}

#[test]
fn window_messages_are_read() {
    assert_eq!(read_notification(689, 7), Notification::SessionLocked);
    assert_eq!(read_notification(689, 8), Notification::SessionUnlocked);
    assert_eq!(read_notification(689, 5), Notification::Other);
    assert_eq!(read_notification(689, 0), Notification::Other);
    assert_eq!(read_notification(275, 1001), Notification::TimerElapsed);
    assert_eq!(read_notification(275, 1000), Notification::Other);
    assert_eq!(read_notification(275, 7), Notification::Other);
    assert_eq!(read_notification(1, 0), Notification::Created);
    assert_eq!(read_notification(2, 99), Notification::Destroyed);
    assert_eq!(read_notification(16, 7), Notification::Other);
    assert_eq!(read_notification(0, 0), Notification::Other);
}

#[test]
fn session_change_counts_by_low_word() {
    let high = (usize::MAX >> 32) << 32;
    assert_eq!(read_notification(689, high | 7), Notification::SessionLocked);
    assert_eq!(read_notification(689, high | 8), Notification::SessionUnlocked);
    assert_eq!(read_notification(275, high | 1001) == Notification::TimerElapsed, high == 0);
}
