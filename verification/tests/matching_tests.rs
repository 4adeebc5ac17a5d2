use facewinunlock::governor::Governor;
use facewinunlock::limits::{FRAME_WAIT_MS, MAX_FAIL, MAX_SUCCESS, NO_FACE_WAIT_MS};
use facewinunlock::matching::{EnrolledTemplate, MatchAction, MatchEvent, MatchOutcome, MatchSession};

fn template(id: i32, name: &str, locked: bool) -> EnrolledTemplate {
    EnrolledTemplate {
        id,
        account_name: name.to_string(),
        account_secret: format!("{}-secret", name),
        account_kind: "online".to_string(),
        template_ref: format!("{}-token", name),
        alias: name.to_string(),
        match_threshold_bits: 0,
        detection_threshold_bits: 0,
        locked,
        visible: true,
    }
}

fn frame(session: &mut MatchSession, matched: bool) -> MatchAction {
    let a = session.step(MatchEvent::FaceFound);
    assert!(matches!(a, MatchAction::Compare { .. }));
    session.step(MatchEvent::Compared(matched))
}

#[test]
fn limits_are_three() {
    assert_eq!(MAX_SUCCESS, 3);
    assert_eq!(MAX_FAIL, 3);
    assert_eq!(NO_FACE_WAIT_MS, 200);
    assert_eq!(FRAME_WAIT_MS, 50);
}

#[test]
fn session_starts_with_first_template() {
    let s = MatchSession::new(vec![template(1, "a", false), template(2, "b", false)], false);
    assert_eq!(s.pending(), MatchAction::LoadTemplate { index: 0 });
    assert!(!s.is_finished());
    assert_eq!(s.outcome(), None);
    assert_eq!(s.templates().len(), 2);
}

#[test]
fn empty_template_list_ends_without_match() {
    let s = MatchSession::new(vec![], true);
    assert_eq!(s.pending(), MatchAction::Finish(MatchOutcome::NoMatch));
    assert!(s.is_finished());
    assert_eq!(s.outcome(), Some(MatchOutcome::NoMatch));
}

#[test]
fn locked_templates_are_skipped() {
    let mut s = MatchSession::new(
        vec![template(1, "a", true), template(2, "b", false), template(3, "c", true), template(4, "d", false)],
        false,
    );
    assert_eq!(s.pending(), MatchAction::LoadTemplate { index: 1 });
    assert_eq!(s.step(MatchEvent::TemplateLoaded(false)), MatchAction::LoadTemplate { index: 3 });
    assert_eq!(s.step(MatchEvent::TemplateLoaded(false)), MatchAction::Finish(MatchOutcome::NoMatch));
}

#[test]
fn all_locked_ends_without_match() {
    let s = MatchSession::new(vec![template(1, "a", true), template(2, "b", true)], false);
    assert_eq!(s.outcome(), Some(MatchOutcome::NoMatch));
}

#[test]
fn match_on_third_frame_needs_three_consecutive_matches() {
    let mut s = MatchSession::new(vec![template(1, "a", false), template(2, "b", false)], false);
    assert_eq!(s.step(MatchEvent::TemplateLoaded(true)), MatchAction::Capture { index: 0, wait_ms: 0 });
    assert_eq!(frame(&mut s, false), MatchAction::Capture { index: 0, wait_ms: 50 });
    assert_eq!(frame(&mut s, false), MatchAction::Capture { index: 0, wait_ms: 50 });
    assert_eq!(frame(&mut s, true), MatchAction::Capture { index: 0, wait_ms: 50 });
    assert!(!s.is_finished());
    assert_eq!(frame(&mut s, true), MatchAction::Capture { index: 0, wait_ms: 50 });
    assert!(!s.is_finished());
    assert_eq!(frame(&mut s, true), MatchAction::Finish(MatchOutcome::Matched { index: 0 }));
    assert_eq!(s.outcome(), Some(MatchOutcome::Matched { index: 0 }));
}

#[test]
fn three_matches_in_a_row_confirm_at_once() {
    let mut s = MatchSession::new(vec![template(1, "a", false)], false);
    s.step(MatchEvent::TemplateLoaded(true));
    assert_eq!(frame(&mut s, true), MatchAction::Capture { index: 0, wait_ms: 50 });
    assert_eq!(frame(&mut s, true), MatchAction::Capture { index: 0, wait_ms: 50 });
    assert_eq!(frame(&mut s, true), MatchAction::Finish(MatchOutcome::Matched { index: 0 }));
}

#[test]
fn a_miss_breaks_the_streak() {
    let mut s = MatchSession::new(vec![template(1, "a", false)], false);
    s.step(MatchEvent::TemplateLoaded(true));
    frame(&mut s, true);
    frame(&mut s, true);
    frame(&mut s, false);
    frame(&mut s, true);
    assert_eq!(frame(&mut s, true), MatchAction::Capture { index: 0, wait_ms: 50 });
    assert_eq!(frame(&mut s, true), MatchAction::Finish(MatchOutcome::Matched { index: 0 }));
}

#[test]
fn misses_add_up_across_matches() {
    let mut s = MatchSession::new(vec![template(1, "a", false)], false);
    s.step(MatchEvent::TemplateLoaded(true));
    frame(&mut s, false);
    frame(&mut s, true);
    frame(&mut s, false);
    frame(&mut s, true);
    assert_eq!(frame(&mut s, false), MatchAction::Finish(MatchOutcome::NoMatch));
}

#[test]
fn three_misses_advance_to_next_template() {
    let mut s = MatchSession::new(vec![template(1, "a", false), template(2, "b", false)], false);
    s.step(MatchEvent::TemplateLoaded(true));
    assert_eq!(frame(&mut s, false), MatchAction::Capture { index: 0, wait_ms: 50 });
    assert_eq!(frame(&mut s, false), MatchAction::Capture { index: 0, wait_ms: 50 });
    assert_eq!(frame(&mut s, false), MatchAction::LoadTemplate { index: 1 });
    assert_eq!(s.step(MatchEvent::TemplateLoaded(true)), MatchAction::Capture { index: 1, wait_ms: 0 });
    frame(&mut s, true);
    frame(&mut s, true);
    assert_eq!(frame(&mut s, true), MatchAction::Finish(MatchOutcome::Matched { index: 1 }));
}

#[test]
fn next_template_starts_with_fresh_streaks() {
    let mut s = MatchSession::new(vec![template(1, "a", false), template(2, "b", false)], false);
    s.step(MatchEvent::TemplateLoaded(true));
    frame(&mut s, true);
    frame(&mut s, true);
    frame(&mut s, false);
    frame(&mut s, false);
    assert_eq!(frame(&mut s, false), MatchAction::LoadTemplate { index: 1 });
    s.step(MatchEvent::TemplateLoaded(true));
    assert_eq!(frame(&mut s, false), MatchAction::Capture { index: 1, wait_ms: 50 });
    assert_eq!(frame(&mut s, false), MatchAction::Capture { index: 1, wait_ms: 50 });
    assert_eq!(frame(&mut s, true), MatchAction::Capture { index: 1, wait_ms: 50 });
    assert_eq!(frame(&mut s, false), MatchAction::Finish(MatchOutcome::NoMatch));
}

#[test]
fn all_templates_exhausted_ends_without_match() {
    let mut s = MatchSession::new(vec![template(1, "a", false), template(2, "b", false)], false);
    for index in 0..2usize {
        assert_eq!(s.pending(), MatchAction::LoadTemplate { index });
        s.step(MatchEvent::TemplateLoaded(true));
        frame(&mut s, false);
        frame(&mut s, false);
        frame(&mut s, false);
    }
    assert_eq!(s.outcome(), Some(MatchOutcome::NoMatch));
}

#[test]
fn liveness_failure_on_first_frame_aborts_before_any_comparison() {
    let mut s = MatchSession::new(vec![template(1, "a", false), template(2, "b", false)], true);
    let mut asked = vec![s.pending()];
    asked.push(s.step(MatchEvent::TemplateLoaded(true)));
    asked.push(s.step(MatchEvent::FaceFound));
    assert_eq!(asked[2], MatchAction::CheckLiveness { index: 0 });
    asked.push(s.step(MatchEvent::Liveness(false)));
    assert_eq!(asked[3], MatchAction::Finish(MatchOutcome::NoMatch));
    assert!(asked.iter().all(|a| !matches!(a, MatchAction::Compare { .. })));
    assert_eq!(s.outcome(), Some(MatchOutcome::NoMatch));
    let entry = s.log_entry(true, Some("snap.faceimg".to_string())).unwrap();
    assert_eq!(entry.template_id, -1);
    assert!(!entry.succeeded);
    assert_eq!(entry.snapshot_ref.as_deref(), Some("snap.faceimg"));
}

#[test]
fn passed_liveness_leads_to_comparison() {
    let mut s = MatchSession::new(vec![template(1, "a", false)], true);
    s.step(MatchEvent::TemplateLoaded(true));
    assert_eq!(s.step(MatchEvent::FaceFound), MatchAction::CheckLiveness { index: 0 });
    assert_eq!(s.step(MatchEvent::Liveness(true)), MatchAction::Compare { index: 0 });
    assert_eq!(s.step(MatchEvent::Compared(true)), MatchAction::Capture { index: 0, wait_ms: 50 });
}

#[test]
fn liveness_is_not_checked_when_disabled() {
    let mut s = MatchSession::new(vec![template(1, "a", false)], false);
    s.step(MatchEvent::TemplateLoaded(true));
    assert_eq!(s.step(MatchEvent::FaceFound), MatchAction::Compare { index: 0 });
}

#[test]
fn no_face_retries_same_template_without_counting() {
    let mut s = MatchSession::new(vec![template(1, "a", false)], false);
    s.step(MatchEvent::TemplateLoaded(true));
    for _ in 0..10 {
        assert_eq!(s.step(MatchEvent::NoFace), MatchAction::Capture { index: 0, wait_ms: 200 });
    }
    frame(&mut s, true);
    frame(&mut s, true);
    assert_eq!(s.step(MatchEvent::NoFace), MatchAction::Capture { index: 0, wait_ms: 200 });
    assert_eq!(frame(&mut s, true), MatchAction::Finish(MatchOutcome::Matched { index: 0 }));
}

#[test]
fn camera_failure_aborts_the_whole_run() {
    let mut s = MatchSession::new(vec![template(1, "a", false), template(2, "b", false)], false);
    s.step(MatchEvent::TemplateLoaded(true));
    assert_eq!(s.step(MatchEvent::CameraFailed), MatchAction::Finish(MatchOutcome::CameraFailure));
    assert_eq!(s.broker_message(), None);
    assert!(s.log_entry(true, None).is_none());
}

#[test]
fn engine_failure_aborts_at_every_stage() {
    let mut s = MatchSession::new(vec![template(1, "a", false)], true);
    s.step(MatchEvent::TemplateLoaded(true));
    assert_eq!(s.step(MatchEvent::EngineFailed), MatchAction::Finish(MatchOutcome::EngineFailure));

    let mut s = MatchSession::new(vec![template(1, "a", false)], true);
    s.step(MatchEvent::TemplateLoaded(true));
    s.step(MatchEvent::FaceFound);
    assert_eq!(s.step(MatchEvent::EngineFailed), MatchAction::Finish(MatchOutcome::EngineFailure));

    let mut s = MatchSession::new(vec![template(1, "a", false)], true);
    s.step(MatchEvent::TemplateLoaded(true));
    s.step(MatchEvent::FaceFound);
    s.step(MatchEvent::Liveness(true));
    assert_eq!(s.step(MatchEvent::EngineFailed), MatchAction::Finish(MatchOutcome::EngineFailure));
}

#[test]
fn template_that_fails_to_load_is_skipped() {
    let mut s = MatchSession::new(vec![template(1, "a", false), template(2, "b", false)], false);
    assert_eq!(s.step(MatchEvent::TemplateLoaded(false)), MatchAction::LoadTemplate { index: 1 });
}

#[test]
fn cancel_abandons_from_any_stage() {
    let mut s = MatchSession::new(vec![template(1, "a", false)], true);
    assert_eq!(s.step(MatchEvent::Cancelled), MatchAction::Finish(MatchOutcome::Abandoned));
    let mut s = MatchSession::new(vec![template(1, "a", false)], true);
    s.step(MatchEvent::TemplateLoaded(true));
    s.step(MatchEvent::FaceFound);
    assert_eq!(s.step(MatchEvent::Cancelled), MatchAction::Finish(MatchOutcome::Abandoned));
    assert_eq!(s.broker_message(), None);
}

#[test]
fn event_that_answers_nothing_changes_nothing() {
    let mut s = MatchSession::new(vec![template(1, "a", false)], true);
    assert_eq!(s.step(MatchEvent::Compared(true)), MatchAction::LoadTemplate { index: 0 });
    assert_eq!(s.step(MatchEvent::FaceFound), MatchAction::LoadTemplate { index: 0 });
    s.step(MatchEvent::TemplateLoaded(true));
    assert_eq!(s.step(MatchEvent::Compared(true)), MatchAction::Capture { index: 0, wait_ms: 0 });
    assert_eq!(s.step(MatchEvent::Liveness(false)), MatchAction::Capture { index: 0, wait_ms: 0 });
    assert_eq!(s.step(MatchEvent::TemplateLoaded(false)), MatchAction::Capture { index: 0, wait_ms: 0 });
    s.step(MatchEvent::FaceFound);
    assert_eq!(s.step(MatchEvent::CameraFailed), MatchAction::CheckLiveness { index: 0 });
}

#[test]
fn finished_session_stays_finished() {
    let mut s = MatchSession::new(vec![template(1, "a", false)], false);
    s.step(MatchEvent::TemplateLoaded(true));
    frame(&mut s, true);
    frame(&mut s, true);
    frame(&mut s, true);
    for e in [
        MatchEvent::TemplateLoaded(true),
        MatchEvent::CameraFailed,
        MatchEvent::NoFace,
        MatchEvent::FaceFound,
        MatchEvent::Liveness(false),
        MatchEvent::Compared(false),
        MatchEvent::EngineFailed,
        MatchEvent::Cancelled,
    ] {
        assert_eq!(s.step(e), MatchAction::Finish(MatchOutcome::Matched { index: 0 }));
    }
}

#[test]
fn advancing_to_next_template_leaves_global_failure_count() {
    let governor = Governor { fail_count: 2, last_attempt: 5_000 };
    let before = governor;
    let mut s = MatchSession::new(vec![template(1, "a", false), template(2, "b", false)], false);
    s.step(MatchEvent::TemplateLoaded(true));
    frame(&mut s, false);
    frame(&mut s, false);
    assert_eq!(frame(&mut s, false), MatchAction::LoadTemplate { index: 1 });
    assert_eq!(governor, before);
    assert_eq!(governor.fail_count, 2);
    assert!(!s.is_finished());
}
