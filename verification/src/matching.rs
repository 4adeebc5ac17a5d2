//! The matching loop of one attempt, as a state machine.
//!
//! The session walks the enrolled templates in order and asks its driver for
//! one piece of outside work at a time: load a template, capture a frame,
//! score liveness, compare features. The driver answers with an event, and the
//! session decides what comes next. Reading the camera, running the biometric
//! engine and sleeping are the driver's business; every decision is taken here.

use vstd::prelude::*;
use crate::limits::{FRAME_WAIT_MS, MAX_FAIL, MAX_SUCCESS, NO_FACE_WAIT_MS};

verus! {

/// One enrolled template as loaded for an attempt. The two thresholds are
/// carried as the bit patterns of the single-precision numbers in the store;
/// the session never interprets them.
pub struct EnrolledTemplate {
    pub id: i32,
    pub account_name: String,
    pub account_secret: String,
    pub account_kind: String,
    pub template_ref: String,
    pub alias: String,
    pub match_threshold_bits: u32,
    pub detection_threshold_bits: u32,
    pub locked: bool,
    pub visible: bool,
}

/// How a session ended.
#[derive(Clone, Copy, Debug, PartialEq, Eq, Structural)]
pub enum MatchOutcome {
    /// The template at `index` was confirmed.
    Matched { index: usize },
    /// No template was confirmed, or the live subject failed the liveness check.
    NoMatch,
    /// A frame could not be read from the camera.
    CameraFailure,
    /// The biometric engine failed with something other than "no face found".
    EngineFailure,
    /// The session was cancelled from outside.
    Abandoned,
}

/// The outside work that the session asks for next.
#[derive(Clone, Copy, Debug, PartialEq, Eq, Structural)]
pub enum MatchAction {
    /// Load the reference features of the template at `index`.
    LoadTemplate { index: usize },
    /// Wait `wait_ms` milliseconds, read one frame and extract the features of
    /// the face in it, with the detection threshold of the template at `index`.
    Capture { index: usize, wait_ms: u64 },
    /// Score the liveness of the face just captured.
    CheckLiveness { index: usize },
    /// Compare the features just captured with the template at `index`.
    Compare { index: usize },
    /// Nothing more to do: the session has ended.
    Finish(MatchOutcome),
}

/// The driver's answer to an action.
#[derive(Clone, Copy, Debug, PartialEq, Eq, Structural)]
pub enum MatchEvent {
    /// Answer to `LoadTemplate`: whether the reference features could be loaded.
    TemplateLoaded(bool),
    /// Answer to `Capture`: the camera gave no frame.
    CameraFailed,
    /// Answer to `Capture`: the frame holds no face.
    NoFace,
    /// Answer to `Capture`: a face was found and its features extracted.
    FaceFound,
    /// Answer to `CheckLiveness`: whether the subject passed.
    Liveness(bool),
    /// Answer to `Compare`: whether the similarity reached the template's threshold.
    Compared(bool),
    /// Answer to `Capture`, `CheckLiveness` or `Compare`: the engine failed.
    EngineFailed,
    /// The attempt was cancelled; accepted in answer to any action.
    Cancelled,
}

/// Index of the first template at or after `from` that is not locked, or the
/// number of templates if there is none.
pub open spec fn first_unlocked(templates: Seq<EnrolledTemplate>, from: int) -> int
    decreases templates.len() - from,
{
    if from < 0 || from >= templates.len() {
        templates.len() as int
    } else if !templates[from].locked {
        from
    } else {
        first_unlocked(templates, from + 1)
    }
}

/// `first_unlocked` skips exactly the locked templates.
pub proof fn lemma_first_unlocked(templates: Seq<EnrolledTemplate>, from: int)
    requires
        0 <= from <= templates.len(),
    ensures
        from <= first_unlocked(templates, from) <= templates.len(),
        forall|k: int| from <= k < first_unlocked(templates, from) ==> templates[k].locked,
        first_unlocked(templates, from) < templates.len() ==> !templates[first_unlocked(
            templates,
            from,
        )].locked,
    decreases templates.len() - from,
{
    if from < templates.len() && templates[from].locked {
        lemma_first_unlocked(templates, from + 1);
    }
}

/// The mathematical state of a session.
pub struct SessionModel {
    pub templates: Seq<EnrolledTemplate>,
    pub liveness_enabled: bool,
    /// The action that the driver was last asked for.
    pub pending: MatchAction,
    /// Consecutive matching frames for the current template.
    pub success_streak: int,
    /// Non-matching frames for the current template.
    pub fail_streak: int,
}

impl SessionModel {
    /// The session turns to the first unlocked template at or after `from`
    /// with fresh streaks, or ends without a match if none is left.
    pub open spec fn select(self, from: int) -> SessionModel {
        let next = first_unlocked(self.templates, from);
        if next < self.templates.len() {
            SessionModel {
                pending: MatchAction::LoadTemplate { index: next as usize },
                success_streak: 0,
                fail_streak: 0,
                ..self
            }
        } else {
            self.finish(MatchOutcome::NoMatch)
        }
    }

    pub open spec fn finish(self, outcome: MatchOutcome) -> SessionModel {
        SessionModel { pending: MatchAction::Finish(outcome), ..self }
    }

    pub open spec fn ask(self, action: MatchAction) -> SessionModel {
        SessionModel { pending: action, ..self }
    }

    /// A fresh session over `templates`.
    pub open spec fn start(templates: Seq<EnrolledTemplate>, liveness_enabled: bool) -> SessionModel {
        SessionModel {
            templates,
            liveness_enabled,
            pending: MatchAction::Finish(MatchOutcome::NoMatch),
            success_streak: 0,
            fail_streak: 0,
        }.select(0)
    }

    /// The session has ended.
    pub open spec fn finished(self) -> bool {
        self.pending is Finish
    }

    /// The state after the driver answered the pending action with `event`.
    /// An event that does not answer the pending action changes nothing.
    pub open spec fn after(self, event: MatchEvent) -> SessionModel {
        match (self.pending, event) {
            (MatchAction::Finish(_), _) => self,
            (_, MatchEvent::Cancelled) => self.finish(MatchOutcome::Abandoned),
            (MatchAction::LoadTemplate { index }, MatchEvent::TemplateLoaded(loaded)) => {
                if loaded {
                    self.ask(MatchAction::Capture { index, wait_ms: 0 })
                } else {
                    self.select(index + 1)
                }
            },
            (MatchAction::Capture { index, .. }, MatchEvent::CameraFailed) => self.finish(
                MatchOutcome::CameraFailure,
            ),
            (MatchAction::Capture { index, .. }, MatchEvent::EngineFailed) => self.finish(
                MatchOutcome::EngineFailure,
            ),
            (MatchAction::Capture { index, .. }, MatchEvent::NoFace) => self.ask(
                MatchAction::Capture { index, wait_ms: NO_FACE_WAIT_MS },
            ),
            (MatchAction::Capture { index, .. }, MatchEvent::FaceFound) => {
                if self.liveness_enabled {
                    self.ask(MatchAction::CheckLiveness { index })
                } else {
                    self.ask(MatchAction::Compare { index })
                }
            },
            (MatchAction::CheckLiveness { index }, MatchEvent::Liveness(live)) => {
                if live {
                    self.ask(MatchAction::Compare { index })
                } else {
                    self.finish(MatchOutcome::NoMatch)
                }
            },
            (MatchAction::CheckLiveness { index }, MatchEvent::EngineFailed) => self.finish(
                MatchOutcome::EngineFailure,
            ),
            (MatchAction::Compare { index }, MatchEvent::Compared(matched)) => {
                if matched {
                    let confirmed = SessionModel {
                        success_streak: self.success_streak + 1,
                        ..self
                    };
                    if confirmed.success_streak >= MAX_SUCCESS {
                        confirmed.finish(MatchOutcome::Matched { index })
                    } else {
                        confirmed.ask(MatchAction::Capture { index, wait_ms: FRAME_WAIT_MS })
                    }
                } else {
                    let missed = SessionModel {
                        success_streak: 0,
                        fail_streak: self.fail_streak + 1,
                        ..self
                    };
                    if missed.fail_streak >= MAX_FAIL {
                        missed.select(index + 1)
                    } else {
                        missed.ask(MatchAction::Capture { index, wait_ms: FRAME_WAIT_MS })
                    }
                }
            },
            (MatchAction::Compare { index }, MatchEvent::EngineFailed) => self.finish(
                MatchOutcome::EngineFailure,
            ),
            _ => self,
        }
    }

    /// The template that the pending action is about, if it is about one.
    pub open spec fn current(self) -> Option<int> {
        match self.pending {
            MatchAction::LoadTemplate { index } => Some(index as int),
            MatchAction::Capture { index, .. } => Some(index as int),
            MatchAction::CheckLiveness { index } => Some(index as int),
            MatchAction::Compare { index } => Some(index as int),
            MatchAction::Finish(MatchOutcome::Matched { index }) => Some(index as int),
            MatchAction::Finish(_) => None,
        }
    }

    /// What holds of every state that a session can reach: the pending action
    /// names an unlocked template, liveness is scored only where it is
    /// enabled, and while the session runs neither streak has reached its limit.
    pub open spec fn wf(self) -> bool {
        &&& self.templates.len() <= usize::MAX
        &&& 0 <= self.success_streak <= MAX_SUCCESS
        &&& 0 <= self.fail_streak <= MAX_FAIL
        &&& self.current() matches Some(index) ==> 0 <= index < self.templates.len()
            && !self.templates[index].locked
        &&& self.pending is CheckLiveness ==> self.liveness_enabled
        &&& !self.finished() ==> self.success_streak < MAX_SUCCESS && self.fail_streak < MAX_FAIL
        &&& self.pending matches MatchAction::Finish(MatchOutcome::Matched { .. })
            ==> self.success_streak == MAX_SUCCESS
    }
}

/// Selecting the next template keeps the session well formed.
pub proof fn lemma_select_wf(s: SessionModel, from: int)
    requires
        s.templates.len() <= usize::MAX,
        0 <= s.success_streak <= MAX_SUCCESS,
        0 <= s.fail_streak <= MAX_FAIL,
        0 <= from <= s.templates.len(),
        !(s.pending matches MatchAction::Finish(MatchOutcome::Matched { .. })),
    ensures
        s.select(from).wf(),
{
    lemma_first_unlocked(s.templates, from);
}

/// Every step keeps the session well formed.
pub proof fn lemma_after_wf(s: SessionModel, event: MatchEvent)
    requires
        s.wf(),
    ensures
        s.after(event).wf(),
{
    match (s.pending, event) {
        (MatchAction::LoadTemplate { index }, MatchEvent::TemplateLoaded(false)) => {
            lemma_select_wf(s, index + 1);
        },
        (MatchAction::Compare { index }, MatchEvent::Compared(false)) => {
            let missed = SessionModel {
                success_streak: 0,
                fail_streak: s.fail_streak + 1,
                ..s
            };
            lemma_select_wf(missed, index + 1);
        },
        _ => {},
    }
}

/// A fresh session is well formed.
pub proof fn lemma_start_wf(templates: Seq<EnrolledTemplate>, liveness_enabled: bool)
    requires
        templates.len() <= usize::MAX,
    ensures
        SessionModel::start(templates, liveness_enabled).wf(),
{
    let blank = SessionModel {
        templates,
        liveness_enabled,
        pending: MatchAction::Finish(MatchOutcome::NoMatch),
        success_streak: 0,
        fail_streak: 0,
    };
    lemma_select_wf(blank, 0);
}

impl SessionModel {
    /// The state after the driver gave the answers `events`, one after the other.
    pub open spec fn after_all(self, events: Seq<MatchEvent>) -> SessionModel
        decreases events.len(),
    {
        if events.len() == 0 {
            self
        } else {
            self.after_all(events.drop_last()).after(events.last())
        }
    }
}

/// A session that has ended stays as it is, whatever events follow.
pub proof fn lemma_finished_stays(s: SessionModel, events: Seq<MatchEvent>)
    requires
        s.finished(),
    ensures
        s.after_all(events) == s,
    decreases events.len(),
{
    if events.len() > 0 {
        lemma_finished_stays(s, events.drop_last());
    }
}

/// A template is declared matched only by the matching frame that brings its
/// streak of consecutive matching frames to `MAX_SUCCESS`.
pub proof fn lemma_match_completes_streak(s: SessionModel, event: MatchEvent)
    requires
        s.wf(),
        !s.finished(),
        s.after(event).pending is Finish,
        s.after(event).pending->Finish_0 is Matched,
    ensures
        event == MatchEvent::Compared(true),
        s.pending == (MatchAction::Compare { index: s.after(event).pending->Finish_0->index }),
        s.success_streak + 1 == MAX_SUCCESS,
{
    lemma_after_wf(s, event);
}

/// The streak of a template counts its consecutive matching frames: a
/// matching frame adds one, a frame that does not match starts it again at
/// zero, and nothing else touches it while the session stays with the template.
pub proof fn lemma_streak_counts_consecutive_matches(s: SessionModel, event: MatchEvent)
    requires
        s.wf(),
        !s.finished(),
    ensures
        s.pending is Compare && event == MatchEvent::Compared(true) ==> s.after(
            event,
        ).success_streak == s.success_streak + 1,
        s.pending is Compare && event == MatchEvent::Compared(false) ==> s.after(
            event,
        ).success_streak == 0,
        !(s.pending is Compare && event is Compared) && s.after(event).current() == s.current()
            ==> s.after(event).success_streak == s.success_streak && s.after(event).fail_streak
            == s.fail_streak,
        s.after(event).pending is LoadTemplate && s.after(event).pending != s.pending ==> s.after(
            event,
        ).success_streak == 0 && s.after(event).fail_streak == 0,
{
    lemma_after_wf(s, event);
    match s.pending {
        MatchAction::LoadTemplate { index } => {
            lemma_first_unlocked(s.templates, index + 1);
        },
        _ => {},
    }
}

/// The frame that brings the count of frames that do not match to `MAX_FAIL`
/// ends the work on this template only: the session turns to the next
/// unlocked template with fresh streaks, and ends without a match only if
/// none is left.
pub proof fn lemma_failures_advance(s: SessionModel, index: usize)
    requires
        s.wf(),
        s.pending == (MatchAction::Compare { index }),
        s.fail_streak + 1 == MAX_FAIL,
    ensures
        ({
            let next = first_unlocked(s.templates, index + 1);
            let t = s.after(MatchEvent::Compared(false));
            if next < s.templates.len() {
                t.pending == (MatchAction::LoadTemplate { index: next as usize }) && next > index
                    && t.success_streak == 0 && t.fail_streak == 0
            } else {
                t.pending == MatchAction::Finish(MatchOutcome::NoMatch)
            }
        }),
{
    lemma_first_unlocked(s.templates, index + 1);
}

/// A failed liveness check ends the whole session without a match, however
/// many templates are left.
pub proof fn lemma_liveness_failure_ends_session(s: SessionModel)
    requires
        s.pending is CheckLiveness,
    ensures
        s.after(MatchEvent::Liveness(false)).pending == MatchAction::Finish(MatchOutcome::NoMatch),
{
}

/// Where liveness is checked, features are compared only after the live
/// subject has passed: a comparison is asked for in answer to a passed check
/// and to nothing else.
pub proof fn lemma_liveness_precedes_comparison(s: SessionModel, event: MatchEvent)
    requires
        s.wf(),
        s.liveness_enabled,
        !(s.pending is Compare),
        s.after(event).pending is Compare,
    ensures
        s.pending is CheckLiveness,
        event == MatchEvent::Liveness(true),
{
}

/// A camera failure ends the whole session, whichever template it is at.
pub proof fn lemma_camera_failure_ends_session(s: SessionModel)
    requires
        s.pending is Capture,
    ensures
        s.after(MatchEvent::CameraFailed).pending == MatchAction::Finish(
            MatchOutcome::CameraFailure,
        ),
{
}

/// A frame without a face changes neither streak: the same template is tried
/// again after the longer pause.
pub proof fn lemma_no_face_retries(s: SessionModel, index: usize, wait_ms: u64)
    requires
        s.pending == (MatchAction::Capture { index, wait_ms }),
    ensures
        s.after(MatchEvent::NoFace) == s.ask(
            MatchAction::Capture { index, wait_ms: NO_FACE_WAIT_MS },
        ),
{
}

/// Locked templates are never worked on: every action names an unlocked one.
pub proof fn lemma_locked_templates_skipped(s: SessionModel, events: Seq<MatchEvent>)
    requires
        s.wf(),
    ensures
        s.after_all(events).wf(),
        s.after_all(events).current() matches Some(index) ==> !s.after_all(
            events,
        ).templates[index].locked,
    decreases events.len(),
{
    if events.len() > 0 {
        lemma_locked_templates_skipped(s, events.drop_last());
        lemma_after_wf(s.after_all(events.drop_last()), events.last());
    }
}

/// The events by which a driver reports one frame with a live face in it,
/// whose features match the template or do not.
pub open spec fn frame_events(liveness_enabled: bool, matched: bool) -> Seq<MatchEvent> {
    if liveness_enabled {
        seq![MatchEvent::FaceFound, MatchEvent::Liveness(true), MatchEvent::Compared(matched)]
    } else {
        seq![MatchEvent::FaceFound, MatchEvent::Compared(matched)]
    }
}

/// The events by which a driver reports a run of such frames, given by
/// their verdicts.
pub open spec fn frames_events(liveness_enabled: bool, verdicts: Seq<bool>) -> Seq<MatchEvent>
    decreases verdicts.len(),
{
    if verdicts.len() == 0 {
        Seq::empty()
    } else {
        frames_events(liveness_enabled, verdicts.drop_last()) + frame_events(
            liveness_enabled,
            verdicts.last(),
        )
    }
}

/// The number of matching frames at the end of a run of verdicts.
pub open spec fn trailing_matches(verdicts: Seq<bool>) -> int
    decreases verdicts.len(),
{
    if verdicts.len() == 0 || !verdicts.last() {
        0
    } else {
        1 + trailing_matches(verdicts.drop_last())
    }
}

/// The number of frames in a run of verdicts that do not match.
pub open spec fn misses(verdicts: Seq<bool>) -> int
    decreases verdicts.len(),
{
    if verdicts.len() == 0 {
        0
    } else {
        misses(verdicts.drop_last()) + if verdicts.last() {
            0int
        } else {
            1int
        }
    }
}

/// A run of verdicts that decides nothing yet: it ends in fewer than
/// `MAX_SUCCESS` matching frames and holds fewer than `MAX_FAIL` others.
pub open spec fn undecided(verdicts: Seq<bool>) -> bool {
    trailing_matches(verdicts) < MAX_SUCCESS && misses(verdicts) < MAX_FAIL
}

/// Events taken one run after the other are taken as one run.
pub proof fn lemma_after_all_joined(s: SessionModel, first: Seq<MatchEvent>, second: Seq<MatchEvent>)
    ensures
        s.after_all(first + second) == s.after_all(first).after_all(second),
    decreases second.len(),
{
    if second.len() == 0 {
        assert(first + second =~= first);
    } else {
        lemma_after_all_joined(s, first, second.drop_last());
        assert((first + second).drop_last() =~= first + second.drop_last());
    }
}

/// One frame with a verdict, taken by a session that is about to capture:
/// the state is the one after the face was found, passed the liveness check
/// where there is one, and was compared.
pub proof fn lemma_frame_taken(s: SessionModel, matched: bool)
    requires
        s.wf(),
        s.pending is Capture,
    ensures
        s.after_all(frame_events(s.liveness_enabled, matched)) == s.ask(
            MatchAction::Compare { index: s.pending->Capture_index },
        ).after(MatchEvent::Compared(matched)),
{
    let events = frame_events(s.liveness_enabled, matched);
    let index = s.pending->Capture_index;
    if s.liveness_enabled {
        let two = events.drop_last();
        let one = two.drop_last();
        assert(one.drop_last() =~= Seq::<MatchEvent>::empty());
        assert(s.after_all(one.drop_last()) == s);
        assert(s.after_all(one) == s.after(MatchEvent::FaceFound));
        assert(s.after_all(two) == s.after(MatchEvent::FaceFound).after(MatchEvent::Liveness(true)));
        assert(s.after_all(two) == s.ask(MatchAction::Compare { index }));
    } else {
        let one = events.drop_last();
        assert(one.drop_last() =~= Seq::<MatchEvent>::empty());
        assert(s.after_all(one.drop_last()) == s);
        assert(s.after_all(one) == s.after(MatchEvent::FaceFound));
        assert(s.after_all(one) == s.ask(MatchAction::Compare { index }));
    }
}

/// What a run of frames decides for a template. Where no earlier frame of
/// the run had decided, the session declares the template matched exactly
/// when the run ends in `MAX_SUCCESS` matching frames in a row; it leaves the
/// template for the next unlocked one exactly when the run holds `MAX_FAIL`
/// frames that do not match; and otherwise it stays with the template, its
/// streak being the number of matching frames at the end of the run.
pub proof fn lemma_verdicts_decide(s: SessionModel, index: usize, verdicts: Seq<bool>)
    requires
        s.wf(),
        s.pending is Capture,
        s.pending->Capture_index == index,
        s.success_streak == 0,
        s.fail_streak == 0,
        verdicts.len() > 0,
        forall|k: int| 0 <= k < verdicts.len() ==> undecided(#[trigger] verdicts.take(k)),
    ensures
        ({
            let t = s.after_all(frames_events(s.liveness_enabled, verdicts));
            let next = first_unlocked(s.templates, index + 1);
            &&& t.wf()
            &&& t.templates == s.templates
            &&& t.liveness_enabled == s.liveness_enabled
            &&& if trailing_matches(verdicts) >= MAX_SUCCESS {
                t.pending == MatchAction::Finish(MatchOutcome::Matched { index })
            } else if misses(verdicts) >= MAX_FAIL {
                if next < s.templates.len() {
                    t.pending == (MatchAction::LoadTemplate { index: next as usize })
                } else {
                    t.pending == MatchAction::Finish(MatchOutcome::NoMatch)
                }
            } else {
                &&& t.pending == (MatchAction::Capture { index, wait_ms: FRAME_WAIT_MS })
                &&& t.success_streak == trailing_matches(verdicts)
                &&& t.fail_streak == misses(verdicts)
            }
        }),
    decreases verdicts.len(),
{
    let earlier = verdicts.drop_last();
    let matched = verdicts.last();
    assert(earlier =~= verdicts.take(verdicts.len() - 1));
    assert(undecided(earlier));
    let before = s.after_all(frames_events(s.liveness_enabled, earlier));
    if earlier.len() == 0 {
        assert(before == s);
    } else {
        assert forall|k: int| 0 <= k < earlier.len() implies undecided(
            #[trigger] earlier.take(k),
        ) by {
            assert(earlier.take(k) =~= verdicts.take(k));
        }
        lemma_verdicts_decide(s, index, earlier);
    }
    assert(before.pending is Capture && before.pending->Capture_index == index);
    assert(before.success_streak == trailing_matches(earlier));
    assert(before.fail_streak == misses(earlier));
    lemma_after_all_joined(
        s,
        frames_events(s.liveness_enabled, earlier),
        frame_events(s.liveness_enabled, matched),
    );
    lemma_frame_taken(before, matched);
    lemma_after_wf(before.ask(MatchAction::Compare { index }), MatchEvent::Compared(matched));
    if !matched {
        lemma_first_unlocked(s.templates, index + 1);
    }
}

/// The matching loop of one attempt over a read-only snapshot of the enrolled
/// templates.
pub struct MatchSession {
    templates: Vec<EnrolledTemplate>,
    liveness_enabled: bool,
    pending: MatchAction,
    success_streak: usize,
    fail_streak: usize,
}

impl View for MatchSession {
    type V = SessionModel;

    closed spec fn view(&self) -> SessionModel {
        SessionModel {
            templates: self.templates@,
            liveness_enabled: self.liveness_enabled,
            pending: self.pending,
            success_streak: self.success_streak as int,
            fail_streak: self.fail_streak as int,
        }
    }
}

impl MatchSession {
    /// Starts a session. The first action is `pending()`: to load the first
    /// unlocked template, or to finish without a match if every template is locked.
    pub fn new(templates: Vec<EnrolledTemplate>, liveness_enabled: bool) -> (session: MatchSession)
        ensures
            session@ == SessionModel::start(templates@, liveness_enabled),
            session@.wf(),
    {
        let count = templates.len();
        let mut session = MatchSession {
            templates,
            liveness_enabled,
            pending: MatchAction::Finish(MatchOutcome::NoMatch),
            success_streak: 0,
            fail_streak: 0,
        };
        proof {
            assert(session.templates@.len() == count);
            lemma_start_wf(session.templates@, liveness_enabled);
        }
        session.select_from(0);
        session
    }

    /// Turns to the first unlocked template at or after `from`.
    fn select_from(&mut self, from: usize)
        requires
            from <= old(self).templates.len(),
        ensures
            final(self)@ == old(self)@.select(from as int),
    {
        let mut next: usize = from;
        while next < self.templates.len() && self.templates[next].locked
            invariant
                from <= next <= self.templates.len(),
                *self == *old(self),
                first_unlocked(self.templates@, from as int) == first_unlocked(
                    self.templates@,
                    next as int,
                ),
            decreases self.templates.len() - next,
        {
            next = next + 1;
        }
        if next < self.templates.len() {
            self.pending = MatchAction::LoadTemplate { index: next };
            self.success_streak = 0;
            self.fail_streak = 0;
        } else {
            self.pending = MatchAction::Finish(MatchOutcome::NoMatch);
        }
    }

    /// The action that the driver has to carry out next.
    pub fn pending(&self) -> (action: MatchAction)
        ensures
            action == self@.pending,
    {
        self.pending
    }

    /// Whether the session has ended.
    pub fn is_finished(&self) -> (done: bool)
        ensures
            done == self@.finished(),
    {
        match self.pending {
            MatchAction::Finish(_) => true,
            _ => false,
        }
    }

    /// How the session ended, once it has.
    pub fn outcome(&self) -> (outcome: Option<MatchOutcome>)
        ensures
            outcome == match self@.pending {
                MatchAction::Finish(o) => Some(o),
                _ => None,
            },
    {
        match self.pending {
            MatchAction::Finish(o) => Some(o),
            _ => None,
        }
    }

    /// The templates of this attempt.
    pub fn templates(&self) -> (templates: &Vec<EnrolledTemplate>)
        ensures
            templates@ == self@.templates,
    {
        &self.templates
    }

    /// Takes the driver's answer to the pending action and returns the next
    /// action.
    pub fn step(&mut self, event: MatchEvent) -> (action: MatchAction)
        requires
            old(self)@.wf(),
        ensures
            final(self)@ == old(self)@.after(event),
            final(self)@.wf(),
            action == final(self)@.pending,
    {
        proof {
            lemma_after_wf(self@, event);
        }
        match (self.pending, event) {
            (MatchAction::Finish(_), _) => {},
            (_, MatchEvent::Cancelled) => {
                self.pending = MatchAction::Finish(MatchOutcome::Abandoned);
            },
            (MatchAction::LoadTemplate { index }, MatchEvent::TemplateLoaded(loaded)) => {
                if loaded {
                    self.pending = MatchAction::Capture { index, wait_ms: 0 };
                } else {
                    self.select_from(index + 1);
                }
            },
            (MatchAction::Capture { .. }, MatchEvent::CameraFailed) => {
                self.pending = MatchAction::Finish(MatchOutcome::CameraFailure);
            },
            (MatchAction::Capture { .. }, MatchEvent::EngineFailed) => {
                self.pending = MatchAction::Finish(MatchOutcome::EngineFailure);
            },
            (MatchAction::Capture { index, .. }, MatchEvent::NoFace) => {
                self.pending = MatchAction::Capture { index, wait_ms: NO_FACE_WAIT_MS };
            },
            (MatchAction::Capture { index, .. }, MatchEvent::FaceFound) => {
                if self.liveness_enabled {
                    self.pending = MatchAction::CheckLiveness { index };
                } else {
                    self.pending = MatchAction::Compare { index };
                }
            },
            (MatchAction::CheckLiveness { index }, MatchEvent::Liveness(live)) => {
                if live {
                    self.pending = MatchAction::Compare { index };
                } else {
                    self.pending = MatchAction::Finish(MatchOutcome::NoMatch);
                }
            },
            (MatchAction::CheckLiveness { .. }, MatchEvent::EngineFailed) => {
                self.pending = MatchAction::Finish(MatchOutcome::EngineFailure);
            },
            (MatchAction::Compare { index }, MatchEvent::Compared(matched)) => {
                if matched {
                    self.success_streak = self.success_streak + 1;
                    if self.success_streak >= MAX_SUCCESS {
                        self.pending = MatchAction::Finish(MatchOutcome::Matched { index });
                    } else {
                        self.pending = MatchAction::Capture { index, wait_ms: FRAME_WAIT_MS };
                    }
                } else {
                    self.success_streak = 0;
                    self.fail_streak = self.fail_streak + 1;
                    if self.fail_streak >= MAX_FAIL {
                        self.select_from(index + 1);
                    } else {
                        self.pending = MatchAction::Capture { index, wait_ms: FRAME_WAIT_MS };
                    }
                }
            },
            (MatchAction::Compare { .. }, MatchEvent::EngineFailed) => {
                self.pending = MatchAction::Finish(MatchOutcome::EngineFailure);
            },
            _ => {},
        }
        self.pending
    }
}

} // verus!
