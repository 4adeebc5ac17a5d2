//! The lock controller: what the agent does when the session is locked or
//! unlocked, when the delay timer runs out, when a message arrives on the
//! control channel, and when an attempt has ended.
//!
//! Each function takes one event, moves the shared state on and returns the
//! command that the caller has to carry out. Timers, channels, stores and the
//! attempt itself are the caller's.

use vstd::prelude::*;
use crate::attempt::RunResult;
use crate::channel::{broker_message, credential_text, ControlMessage, ControlText, MARKER};
use crate::config::{mode_of, Mode, OptionTexts, SessionConfig, StoredOptions, OPERATION};
use crate::governor::get_system_time;
use crate::limits::{
    MAX_RETRY, MESSAGE_CREATE, MESSAGE_DESTROY, MESSAGE_SESSION_CHANGE, MESSAGE_TIMER,
    SESSION_LOCK, SESSION_UNLOCK, TIMER_ID_LOCK_CHECK,
};
use crate::state::{ControllerModel, ControllerState, Phase};
use crate::text::same_text;

verus! {

/// A message of the agent's window, read.
#[derive(Clone, Copy, Debug, PartialEq, Eq, Structural)]
pub enum Notification {
    /// The session was locked.
    SessionLocked,
    /// The session was unlocked.
    SessionUnlocked,
    /// The delay timer ran out.
    TimerElapsed,
    /// The window was created.
    Created,
    /// The window was destroyed: the session notifications end, and so does
    /// the message loop.
    Destroyed,
    /// Anything else; left to the default handling.
    Other,
}

/// The low 32 bits of a message parameter.
pub open spec fn low_word(w_param: usize) -> u32 {
    (w_param as int % 0x1_0000_0000) as u32
}

/// What a window message with its first parameter means to the agent. A
/// session change counts by the kind of change in the low 32 bits of the
/// parameter, a timer only if it is the delay timer.
pub open spec fn notification_of(message: u32, w_param: usize) -> Notification {
    if message == MESSAGE_SESSION_CHANGE {
        if low_word(w_param) == SESSION_LOCK {
            Notification::SessionLocked
        } else if low_word(w_param) == SESSION_UNLOCK {
            Notification::SessionUnlocked
        } else {
            Notification::Other
        }
    } else if message == MESSAGE_TIMER {
        if w_param == TIMER_ID_LOCK_CHECK {
            Notification::TimerElapsed
        } else {
            Notification::Other
        }
    } else if message == MESSAGE_CREATE {
        Notification::Created
    } else if message == MESSAGE_DESTROY {
        Notification::Destroyed
    } else {
        Notification::Other
    }
}

/// Reads a window message.
pub fn read_notification(message: u32, w_param: usize) -> (notification: Notification)
    ensures
        notification == notification_of(message, w_param),
{
    if message == MESSAGE_SESSION_CHANGE {
        let change: u32 = (w_param as u64 % 0x1_0000_0000) as u32;
        if change == SESSION_LOCK {
            Notification::SessionLocked
        } else if change == SESSION_UNLOCK {
            Notification::SessionUnlocked
        } else {
            Notification::Other
        }
    } else if message == MESSAGE_TIMER {
        if w_param == TIMER_ID_LOCK_CHECK {
            Notification::TimerElapsed
        } else {
            Notification::Other
        }
    } else if message == MESSAGE_CREATE {
        Notification::Created
    } else if message == MESSAGE_DESTROY {
        Notification::Destroyed
    } else {
        Notification::Other
    }
}

/// What the caller found in the store when the session was locked.
pub enum StoreRead {
    /// The store could not be reached, or a query failed.
    Unavailable,
    /// The store answered.
    Loaded {
        /// The number of enrolled templates.
        face_count: i32,
        /// The value of the option `is_initialized`, where the store has it.
        initialized: Option<String>,
        options: StoredOptions,
    },
}

/// The mathematical value of a read of the store.
pub enum StoreModel {
    Unavailable,
    Loaded { face_count: i32, initialized: Option<Seq<char>>, options: OptionTexts },
}

impl View for StoreRead {
    type V = StoreModel;

    open spec fn view(&self) -> StoreModel {
        match self {
            StoreRead::Unavailable => StoreModel::Unavailable,
            StoreRead::Loaded { face_count, initialized, options } => StoreModel::Loaded {
                face_count: *face_count,
                initialized: match initialized {
                    Some(text) => Some(text@),
                    None => None,
                },
                options: options@,
            },
        }
    }
}

/// Why the controller could not prepare for an armed cycle.
#[derive(Clone, Copy, Debug, PartialEq, Eq, Structural)]
pub enum PrepareError {
    /// The store could not be read.
    StoreUnavailable,
    /// Templates are enrolled, but the installation was never completed.
    NotInitialized,
}

/// What the caller has to do after an event.
#[derive(Debug)]
pub enum Command {
    Nothing,
    /// Start the one-shot timer; report when it runs out.
    StartTimer { delay_ms: u32 },
    /// Cancel the timer if it runs; if `abandon`, tell the attempt in flight
    /// to stop.
    Disarm { abandon: bool },
    /// Run one attempt with this configuration and report how it ended.
    RunAttempt { config: SessionConfig },
    /// Send `message` to the broker.
    Forward { message: String },
    /// Cancel the timer, leave the listener loop and end the agent; if
    /// `abandon`, tell the attempt in flight to stop.
    Shutdown { abandon: bool },
}

/// The mathematical value of a command.
pub enum CommandModel {
    Nothing,
    StartTimer { delay_ms: u32 },
    Disarm { abandon: bool },
    RunAttempt { config: SessionConfig },
    Forward { message: Seq<char> },
    Shutdown { abandon: bool },
}

impl View for Command {
    type V = CommandModel;

    open spec fn view(&self) -> CommandModel {
        match self {
            Command::Nothing => CommandModel::Nothing,
            Command::StartTimer { delay_ms } => CommandModel::StartTimer { delay_ms: *delay_ms },
            Command::Disarm { abandon } => CommandModel::Disarm { abandon: *abandon },
            Command::RunAttempt { config } => CommandModel::RunAttempt { config: *config },
            Command::Forward { message } => CommandModel::Forward { message: message@ },
            Command::Shutdown { abandon } => CommandModel::Shutdown { abandon: *abandon },
        }
    }
}

/// How an attempt that the controller had started came to its end.
#[derive(Clone, Copy, Debug, PartialEq, Eq, Structural)]
pub enum AttemptReport {
    /// No camera backend gave a frame; the matching loop never ran.
    CameraUnavailable,
    /// The matching loop ran.
    Ran(RunResult),
}

impl ControllerModel {
    /// The state after the configuration was loaded from `store`, or why it
    /// could not be. A store that answered gives every option afresh, with
    /// or without templates; nothing of an earlier configuration is kept.
    /// Where templates are enrolled the installation has to be initialized.
    pub open spec fn prepared(self, store: StoreModel) -> Result<ControllerModel, PrepareError> {
        match store {
            StoreModel::Unavailable => Err(PrepareError::StoreUnavailable),
            StoreModel::Loaded { face_count, initialized, options } => {
                if face_count > 0 && (initialized is None || initialized == Some("false"@)) {
                    Err(PrepareError::NotInitialized)
                } else {
                    Ok(
                        ControllerModel {
                            config: options.config(),
                            face_recog_type: options.recog_type(),
                            ..self
                        },
                    )
                }
            },
        }
    }

    /// The session was locked. The failure count starts again at zero. Where
    /// the configuration loads, an unarmed or armed controller is armed; in
    /// delayed mode the timer starts. Where it does not load, the controller
    /// stays as it is. A running or terminated controller ignores the event.
    pub open spec fn locked(self, store: StoreModel) -> (ControllerModel, CommandModel) {
        if self.phase == Phase::Running || self.phase == Phase::Terminated {
            (self, CommandModel::Nothing)
        } else {
            let cleared = ControllerModel { governor: self.governor.cleared(), ..self };
            match cleared.prepared(store) {
                Err(_) => (cleared, CommandModel::Nothing),
                Ok(loaded) => {
                    let delayed = loaded.config.mode == Mode::Delayed;
                    (
                        ControllerModel { phase: Phase::Armed, timer_pending: delayed, ..loaded },
                        if delayed {
                            CommandModel::StartTimer { delay_ms: loaded.config.delay_ms }
                        } else {
                            CommandModel::Nothing
                        },
                    )
                },
            }
        }
    }

    /// The session was unlocked: the controller is unarmed at once, whatever
    /// it was doing; the timer is cancelled and an attempt in flight abandoned.
    pub open spec fn unlocked(self) -> (ControllerModel, CommandModel) {
        if self.phase == Phase::Terminated {
            (self, CommandModel::Nothing)
        } else {
            (
                ControllerModel { phase: Phase::Unarmed, timer_pending: false, ..self },
                CommandModel::Disarm { abandon: self.phase == Phase::Running },
            )
        }
    }

    /// An attempt is asked for at time `now`, and the controller is armed:
    /// it starts where the governor permits, and the trigger is dropped
    /// where it does not.
    pub open spec fn triggered(self, now: u128) -> (ControllerModel, CommandModel) {
        if self.governor.permits(now, self.config.retry_delay_ms) {
            (
                ControllerModel {
                    phase: Phase::Running,
                    timer_pending: false,
                    governor: self.governor.stamped(now),
                    ..self
                },
                CommandModel::RunAttempt { config: self.config },
            )
        } else {
            (ControllerModel { timer_pending: false, ..self }, CommandModel::Nothing)
        }
    }

    /// The delay timer ran out at time `now`. It counts only while the
    /// controller is armed and waits for it.
    pub open spec fn timer_fired(self, now: u128) -> (ControllerModel, CommandModel) {
        if self.phase == Phase::Armed && self.timer_pending {
            self.triggered(now)
        } else {
            (self, CommandModel::Nothing)
        }
    }

    /// A message arrived on the control channel at time `now`.
    pub open spec fn controlled(self, message: ControlText, now: u128) -> (
        ControllerModel,
        CommandModel,
    ) {
        if self.phase == Phase::Terminated {
            (self, CommandModel::Nothing)
        } else {
            match message {
                ControlText::Exit => (
                    ControllerModel { phase: Phase::Terminated, timer_pending: false, ..self },
                    CommandModel::Shutdown { abandon: self.phase == Phase::Running },
                ),
                ControlText::Run => {
                    if self.phase == Phase::Armed && !self.timer_pending && self.config.mode
                        == Mode::Immediate {
                        self.triggered(now)
                    } else {
                        (self, CommandModel::Nothing)
                    }
                },
                ControlText::Credentials { account_name, account_secret } => (
                    self,
                    CommandModel::Forward {
                        message: credential_text(account_name, MARKER@, account_secret),
                    },
                ),
                ControlText::Probe => (self, CommandModel::Nothing),
                ControlText::Unknown => (self, CommandModel::Nothing),
            }
        }
    }

    /// The attempt that the controller had started has ended. A running
    /// controller is unarmed; a success clears the failure count and a
    /// rejection adds to it. The time of the last attempt stays the time at
    /// which the attempt was permitted. A controller that is no longer
    /// running has abandoned the attempt and ignores its end.
    pub open spec fn closed(self, report: AttemptReport) -> ControllerModel {
        if self.phase != Phase::Running {
            self
        } else {
            ControllerModel {
                phase: Phase::Unarmed,
                governor: match report {
                    AttemptReport::CameraUnavailable => self.governor,
                    AttemptReport::Ran(RunResult::Unlocked) => self.governor.cleared(),
                    AttemptReport::Ran(RunResult::Rejected) => self.governor.after_failure(),
                    AttemptReport::Ran(RunResult::Failed) => self.governor,
                },
                ..self
            }
        }
    }
}

/// One event of the controller, with the time at which it is taken where
/// the time counts.
pub enum ControllerEvent {
    /// The session was locked, and this was read in the store.
    Locked { store: StoreModel },
    /// The session was unlocked.
    Unlocked,
    /// The delay timer ran out.
    TimerFired { now: u128 },
    /// A message arrived on the control channel.
    Control { message: ControlText, now: u128 },
    /// The attempt in flight ended.
    Closed { report: AttemptReport },
}

impl ControllerEvent {
    /// The time at which the event is taken, for events that read the clock.
    pub open spec fn time(self) -> Option<u128> {
        match self {
            ControllerEvent::Locked { .. } => None,
            ControllerEvent::Unlocked => None,
            ControllerEvent::TimerFired { now } => Some(now),
            ControllerEvent::Control { now, .. } => Some(now),
            ControllerEvent::Closed { .. } => None,
        }
    }
}

impl ControllerModel {
    /// State and command after one event.
    pub open spec fn step(self, event: ControllerEvent) -> (ControllerModel, CommandModel) {
        match event {
            ControllerEvent::Locked { store } => self.locked(store),
            ControllerEvent::Unlocked => self.unlocked(),
            ControllerEvent::TimerFired { now } => self.timer_fired(now),
            ControllerEvent::Control { message, now } => self.controlled(message, now),
            ControllerEvent::Closed { report } => (self.closed(report), CommandModel::Nothing),
        }
    }

    /// The state after a run of events.
    pub open spec fn after_all(self, events: Seq<ControllerEvent>) -> ControllerModel
        decreases events.len(),
    {
        if events.len() == 0 {
            self
        } else {
            self.after_all(events.drop_last()).step(events.last()).0
        }
    }
}

/// No event of `events` is taken at a time before `start`.
pub open spec fn not_before(events: Seq<ControllerEvent>, start: u128) -> bool {
    forall|i: int|
        0 <= i < events.len() ==> ((#[trigger] events[i]).time() matches Some(now) ==> now
            >= start)
}

/// Whatever events arrive, in whatever order, the controller stays well
/// formed: the failure count never passes its ceiling.
pub proof fn lemma_ceiling_holds_forever(s: ControllerModel, events: Seq<ControllerEvent>)
    requires
        s.wf(),
    ensures
        s.after_all(events).wf(),
        s.after_all(events).governor.fail_count <= MAX_RETRY,
    decreases events.len(),
{
    if events.len() > 0 {
        lemma_ceiling_holds_forever(s, events.drop_last());
    }
}

/// While the clock does not run backwards, the time of the last attempt
/// never moves back.
pub proof fn lemma_last_attempt_never_moves_back(
    s: ControllerModel,
    events: Seq<ControllerEvent>,
    start: u128,
)
    requires
        s.governor.last_attempt >= start,
        not_before(events, start),
    ensures
        s.after_all(events).governor.last_attempt >= start,
    decreases events.len(),
{
    if events.len() > 0 {
        assert(not_before(events.drop_last(), start)) by {
            assert forall|i: int| 0 <= i < events.drop_last().len() implies ((
            #[trigger] events.drop_last()[i]).time() matches Some(now) ==> now >= start) by {
                assert(events.drop_last()[i] == events[i]);
            }
        }
        lemma_last_attempt_never_moves_back(s, events.drop_last(), start);
        let last = events[events.len() - 1];
        assert(last.time() matches Some(now) ==> now >= start);
    }
}

/// Attempts are spaced, whatever happens in between. Once an attempt has
/// started at time `first`, no trigger starts another one at a time closer
/// to `first` than the retry delay then in force, whatever events were
/// taken in between at times not before `first`: locks and unlocks, ends of
/// attempts, refused triggers.
pub proof fn lemma_attempts_are_spaced(
    s: ControllerModel,
    first: u128,
    between: Seq<ControllerEvent>,
    trigger: ControllerEvent,
)
    requires
        s.governor.last_attempt == first,
        not_before(between, first),
        trigger.time() matches Some(second) && second - first
            < crate::governor::effective_delay(s.after_all(between).config.retry_delay_ms),
    ensures
        !(s.after_all(between).step(trigger).1 is RunAttempt),
{
    lemma_last_attempt_never_moves_back(s, between, first);
}

/// The event clears the failure count: a lock, or the end of an attempt
/// that unlocked.
pub open spec fn clears_failures(event: ControllerEvent) -> bool {
    event is Locked || event == (ControllerEvent::Closed {
        report: AttemptReport::Ran(RunResult::Unlocked),
    })
}

/// A lockout lasts until the failure count is cleared. Once the ceiling is
/// reached, no event starts an attempt and the lockout stays, however many
/// events follow, as long as none of them is a lock or a success.
pub proof fn lemma_lockout_lasts(s: ControllerModel, events: Seq<ControllerEvent>)
    requires
        s.governor.locked_out(),
        forall|i: int| 0 <= i < events.len() ==> !clears_failures(#[trigger] events[i]),
    ensures
        s.after_all(events).governor.locked_out(),
        forall|i: int|
            0 <= i < events.len() ==> !((#[trigger] s.after_all(events.take(i))).step(
                events[i],
            ).1 is RunAttempt),
    decreases events.len(),
{
    if events.len() > 0 {
        let earlier = events.drop_last();
        assert forall|i: int| 0 <= i < earlier.len() implies !clears_failures(
            #[trigger] earlier[i],
        ) by {
            assert(earlier[i] == events[i]);
        }
        lemma_lockout_lasts(s, earlier);
        assert(!clears_failures(events[events.len() - 1]));
        assert forall|i: int| 0 <= i < events.len() implies !((#[trigger] s.after_all(
            events.take(i),
        )).step(events[i]).1 is RunAttempt) by {
            let before = events.take(i);
            assert forall|k: int| 0 <= k < before.len() implies !clears_failures(
                #[trigger] before[k],
            ) by {
                assert(before[k] == events[k]);
            }
            lemma_lockout_lasts(s, before);
            assert(!clears_failures(events[i]));
        }
    }
}

/// Every event keeps the controller well formed; so the failure count never
/// passes its ceiling.
pub proof fn lemma_controller_stays_wf(
    s: ControllerModel,
    store: StoreModel,
    message: ControlText,
    report: AttemptReport,
    now: u128,
)
    requires
        s.wf(),
    ensures
        s.locked(store).0.wf(),
        s.unlocked().0.wf(),
        s.timer_fired(now).0.wf(),
        s.controlled(message, now).0.wf(),
        s.closed(report).wf(),
{
}

/// While the lockout gate is closed no event starts an attempt: neither the
/// timer nor a message on the control channel moves the controller to
/// running, and the failure count stays until a lock or a success clears it.
pub proof fn lemma_lockout_blocks_attempts(s: ControllerModel, message: ControlText, now: u128)
    requires
        s.governor.locked_out(),
    ensures
        !(s.timer_fired(now).1 is RunAttempt),
        !(s.controlled(message, now).1 is RunAttempt),
        s.timer_fired(now).0.governor == s.governor,
        s.controlled(message, now).0.governor == s.governor,
        s.phase != Phase::Running ==> s.timer_fired(now).0.phase != Phase::Running
            && s.controlled(message, now).0.phase != Phase::Running,
{
}

/// Of two triggers closer to each other than the retry delay, at most one
/// starts an attempt, whether they come from the timer or from the control
/// channel.
pub proof fn lemma_one_attempt_per_spacing(
    s: ControllerModel,
    first_is_timer: bool,
    second_is_timer: bool,
    first: u128,
    second: u128,
)
    requires
        second - first < crate::governor::effective_delay(s.config.retry_delay_ms),
    ensures
        ({
            let one = if first_is_timer {
                s.timer_fired(first)
            } else {
                s.controlled(ControlText::Run, first)
            };
            let two = if second_is_timer {
                one.0.timer_fired(second)
            } else {
                one.0.controlled(ControlText::Run, second)
            };
            !(one.1 is RunAttempt && two.1 is RunAttempt)
        }),
{
}

/// The time of the last attempt is the time of its permission: the end of
/// an attempt, however it ended and whenever, leaves that time alone.
pub proof fn lemma_end_keeps_time_of_permission(s: ControllerModel, report: AttemptReport)
    ensures
        s.closed(report).governor.last_attempt == s.governor.last_attempt,
{
}

/// Every arm loads the configuration afresh: a lock that finds a store
/// that answers, with no template or with an initialized installation,
/// arms the controller with the configuration that the options of the
/// store give, each with its default, whatever the controller held before.
pub proof fn lemma_configuration_loaded_afresh(
    s: ControllerModel,
    face_count: i32,
    initialized: Option<Seq<char>>,
    options: OptionTexts,
)
    requires
        s.phase == Phase::Unarmed || s.phase == Phase::Armed,
        face_count <= 0 || !(initialized is None || initialized == Some("false"@)),
    ensures
        ({
            let after = s.locked(StoreModel::Loaded { face_count, initialized, options }).0;
            &&& after.phase == Phase::Armed
            &&& after.config == options.config()
            &&& after.face_recog_type == options.recog_type()
        }),
{
}

/// The matching loop is never entered again while it runs: a running
/// controller starts no attempt, whatever arrives.
pub proof fn lemma_no_second_attempt_while_running(
    s: ControllerModel,
    store: StoreModel,
    message: ControlText,
    now: u128,
)
    requires
        s.phase == Phase::Running,
    ensures
        !(s.locked(store).1 is RunAttempt),
        !(s.unlocked().1 is RunAttempt),
        !(s.timer_fired(now).1 is RunAttempt),
        !(s.controlled(message, now).1 is RunAttempt),
{
}

/// An unlock disarms at once from every phase but the terminated one, and
/// cancels the timer.
pub proof fn lemma_unlock_disarms(s: ControllerModel)
    requires
        s.phase != Phase::Terminated,
    ensures
        s.unlocked().0.phase == Phase::Unarmed,
        !s.unlocked().0.timer_pending,
        s.unlocked().1 is Disarm,
        s.unlocked().0.governor == s.governor,
{
}

/// The controller never arms without a configuration: where the store
/// cannot be read, or holds templates without the initialization mark, a
/// lock leaves the phase and the configuration as they are.
pub proof fn lemma_no_arming_without_configuration(s: ControllerModel, store: StoreModel)
    requires
        s.prepared(store) is Err,
    ensures
        s.locked(store).0.phase == s.phase,
        s.locked(store).0.config == s.config,
        s.locked(store).1 is Nothing,
{
}

/// An attempt starts only from the armed phase, and only where the governor
/// permits it at that time.
pub proof fn lemma_attempt_needs_permission(s: ControllerModel, message: ControlText, now: u128)
    ensures
        s.timer_fired(now).1 is RunAttempt ==> s.phase == Phase::Armed && s.governor.permits(
            now,
            s.config.retry_delay_ms,
        ),
        s.controlled(message, now).1 is RunAttempt ==> s.phase == Phase::Armed && message is Run
            && s.governor.permits(now, s.config.retry_delay_ms),
{
}

/// Loads the configuration for an armed cycle from what the caller read in
/// the store. On an error nothing changes.
pub fn prepare_before(state: &mut ControllerState, store: &StoreRead) -> (result: Result<
    (),
    PrepareError,
>)
    ensures
        match result {
            Ok(()) => old(state)@.prepared(store@) == Ok::<ControllerModel, PrepareError>(
                final(state)@,
            ),
            Err(e) => old(state)@.prepared(store@) == Err::<ControllerModel, PrepareError>(e)
                && final(state)@ == old(state)@,
        },
{
    match store {
        StoreRead::Unavailable => Err(PrepareError::StoreUnavailable),
        StoreRead::Loaded { face_count, initialized, options } => {
            if *face_count > 0 {
                let ready = match initialized {
                    Some(text) => !same_text(text.as_str(), "false"),
                    None => false,
                };
                if !ready {
                    return Err(PrepareError::NotInitialized);
                }
            }
            state.config = SessionConfig::from_options(options);
            state.face_recog_type = match &options.face_recog_type {
                Some(text) => text.clone(),
                None => OPERATION.to_owned(),
            };
            Ok(())
        },
    }
}

/// Takes the event that the session was locked; see `ControllerModel::locked`.
pub fn lock(state: &mut ControllerState, store: &StoreRead) -> (command: Command)
    requires
        old(state)@.wf(),
    ensures
        (final(state)@, command@) == old(state)@.locked(store@),
        final(state)@.wf(),
{
    match state.phase {
        Phase::Running => {
            return Command::Nothing;
        },
        Phase::Terminated => {
            return Command::Nothing;
        },
        _ => {},
    }
    state.governor.reset();
    match prepare_before(state, store) {
        Err(_) => Command::Nothing,
        Ok(()) => {
            state.phase = Phase::Armed;
            match state.config.mode {
                Mode::Delayed => {
                    state.timer_pending = true;
                    Command::StartTimer { delay_ms: state.config.delay_ms }
                },
                Mode::Immediate => {
                    state.timer_pending = false;
                    Command::Nothing
                },
            }
        },
    }
}

/// Takes the event that the session was unlocked; see
/// `ControllerModel::unlocked`.
pub fn disarm(state: &mut ControllerState) -> (command: Command)
    requires
        old(state)@.wf(),
    ensures
        (final(state)@, command@) == old(state)@.unlocked(),
        final(state)@.wf(),
{
    match state.phase {
        Phase::Terminated => Command::Nothing,
        Phase::Running => {
            state.phase = Phase::Unarmed;
            state.timer_pending = false;
            Command::Disarm { abandon: true }
        },
        _ => {
            state.phase = Phase::Unarmed;
            state.timer_pending = false;
            Command::Disarm { abandon: false }
        },
    }
}

fn trigger(state: &mut ControllerState, now: u128) -> (command: Command)
    requires
        old(state)@.wf(),
        old(state)@.phase == Phase::Armed,
    ensures
        (final(state)@, command@) == old(state)@.triggered(now),
        final(state)@.wf(),
{
    state.timer_pending = false;
    if state.governor.permit(now, state.config.retry_delay_ms) {
        state.phase = Phase::Running;
        Command::RunAttempt { config: state.config }
    } else {
        Command::Nothing
    }
}

/// Takes the event that the delay timer ran out at time `now`; see
/// `ControllerModel::timer_fired`.
pub fn timer_fired_at(state: &mut ControllerState, now: u128) -> (command: Command)
    requires
        old(state)@.wf(),
    ensures
        (final(state)@, command@) == old(state)@.timer_fired(now),
        final(state)@.wf(),
{
    match state.phase {
        Phase::Armed => if state.timer_pending {
            trigger(state, now)
        } else {
            Command::Nothing
        },
        _ => Command::Nothing,
    }
}

/// Takes a message of the control channel that arrived at time `now`; see
/// `ControllerModel::controlled`.
pub fn control_at(state: &mut ControllerState, message: ControlMessage, now: u128) -> (command:
    Command)
    requires
        old(state)@.wf(),
    ensures
        (final(state)@, command@) == old(state)@.controlled(message@, now),
        final(state)@.wf(),
{
    match state.phase {
        Phase::Terminated => {
            return Command::Nothing;
        },
        _ => {},
    }
    match message {
        ControlMessage::Exit => {
            let abandon = match state.phase {
                Phase::Running => true,
                _ => false,
            };
            state.phase = Phase::Terminated;
            state.timer_pending = false;
            Command::Shutdown { abandon }
        },
        ControlMessage::Run => {
            let armed = match state.phase {
                Phase::Armed => true,
                _ => false,
            };
            let immediate = match state.config.mode {
                Mode::Immediate => true,
                Mode::Delayed => false,
            };
            if armed && !state.timer_pending && immediate {
                trigger(state, now)
            } else {
                Command::Nothing
            }
        },
        ControlMessage::Credentials { account_name, account_secret } => Command::Forward {
            message: broker_message(account_name.as_str(), account_secret.as_str()),
        },
        ControlMessage::Probe => Command::Nothing,
        ControlMessage::Unknown => Command::Nothing,
    }
}

/// Takes the event that the delay timer ran out, at the present time:
/// `timer_fired_at` with the reading of the system clock.
pub fn timer_fired(state: &mut ControllerState) -> (command: Command)
    requires
        old(state)@.wf(),
    ensures
        exists|now: u128| (final(state)@, command@) == #[trigger] old(state)@.timer_fired(now),
        final(state)@.wf(),
{
    let now = get_system_time();
    timer_fired_at(state, now)
}

/// Takes a message of the control channel, at the present time: `control_at`
/// with the reading of the system clock.
pub fn control(state: &mut ControllerState, message: ControlMessage) -> (command: Command)
    requires
        old(state)@.wf(),
    ensures
        exists|now: u128|
            (final(state)@, command@) == #[trigger] old(state)@.controlled(message@, now),
        final(state)@.wf(),
{
    let now = get_system_time();
    control_at(state, message, now)
}

/// Takes the end of the attempt that the controller had started; see
/// `ControllerModel::closed`.
pub fn run_before(state: &mut ControllerState, report: AttemptReport)
    requires
        old(state)@.wf(),
    ensures
        final(state)@ == old(state)@.closed(report),
        final(state)@.wf(),
{
    match state.phase {
        Phase::Running => {
            state.phase = Phase::Unarmed;
            match report {
                AttemptReport::CameraUnavailable => {},
                AttemptReport::Ran(RunResult::Unlocked) => {
                    state.governor.record_success();
                },
                AttemptReport::Ran(RunResult::Rejected) => {
                    state.governor.record_failure();
                },
                AttemptReport::Ran(RunResult::Failed) => {},
            }
        },
        _ => {},
    }
}

} // verus!
