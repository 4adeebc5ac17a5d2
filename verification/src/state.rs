//! The shared state of the controller: where it stands in the lock cycle, the
//! configuration of the cycle, the governor's counters, and the settings that
//! the agent keeps for its collaborators.

use vstd::prelude::*;
use crate::config::{mode_for, mode_of, Mode, SessionConfig, OPERATION};
use crate::governor::Governor;

verus! {

/// Where the controller stands in the lock cycle.
#[derive(Clone, Copy, Debug, PartialEq, Eq, Structural)]
pub enum Phase {
    /// No attempt may start.
    Unarmed,
    /// The session is locked and an attempt may start.
    Armed,
    /// An attempt is running.
    Running,
    /// Shutdown was requested; nothing happens any more.
    Terminated,
}

/// The value of the face alignment setting before it is set.
pub const DEFAULT_ALIGNMENT: &'static str = "default";

/// The mathematical state of the controller.
pub struct ControllerModel {
    pub phase: Phase,
    /// The one-shot timer of delayed mode is running.
    pub timer_pending: bool,
    pub governor: Governor,
    pub config: SessionConfig,
    /// The value of the option that selects the mode, as last loaded or set.
    pub face_recog_type: Seq<char>,
    pub face_aligned_type: Seq<char>,
    /// The directory that holds the agent's files.
    pub root_dir: Seq<char>,
}

impl ControllerModel {
    /// The state of a controller that has just been created.
    pub open spec fn initial() -> ControllerModel {
        ControllerModel {
            phase: Phase::Unarmed,
            timer_pending: false,
            governor: Governor { fail_count: 0, last_attempt: 0 },
            config: SessionConfig::initial(),
            face_recog_type: OPERATION@,
            face_aligned_type: DEFAULT_ALIGNMENT@,
            root_dir: Seq::empty(),
        }
    }

    /// What holds of every state that a controller can reach: the failure
    /// count is within its ceiling, a timer is pending only while armed, and
    /// the mode is the one that the mode option selects.
    pub open spec fn wf(self) -> bool {
        &&& self.governor.wf()
        &&& self.timer_pending ==> self.phase == Phase::Armed
        &&& self.config.mode == mode_of(self.face_recog_type)
    }

    /// The state with the mode option set to `mode`.
    pub open spec fn with_recognition_mode(self, mode: Seq<char>) -> ControllerModel {
        ControllerModel {
            face_recog_type: mode,
            config: SessionConfig { mode: mode_of(mode), ..self.config },
            ..self
        }
    }
}

/// The state of the controller, shared by everything that acts on it.
pub struct ControllerState {
    pub(crate) phase: Phase,
    pub(crate) timer_pending: bool,
    pub(crate) governor: Governor,
    pub(crate) config: SessionConfig,
    pub(crate) face_recog_type: String,
    pub(crate) face_aligned_type: String,
    pub(crate) root_dir: String,
}

impl View for ControllerState {
    type V = ControllerModel;

    open(crate) spec fn view(&self) -> ControllerModel {
        ControllerModel {
            phase: self.phase,
            timer_pending: self.timer_pending,
            governor: self.governor,
            config: self.config,
            face_recog_type: self.face_recog_type@,
            face_aligned_type: self.face_aligned_type@,
            root_dir: self.root_dir@,
        }
    }
}

impl ControllerState {
    /// A controller that is unarmed, in immediate mode, with every default.
    pub fn new() -> (state: ControllerState)
        ensures
            state@ == ControllerModel::initial(),
            state@.wf(),
    {
        ControllerState {
            phase: Phase::Unarmed,
            timer_pending: false,
            governor: Governor::new(),
            config: SessionConfig::new(),
            face_recog_type: OPERATION.to_owned(),
            face_aligned_type: DEFAULT_ALIGNMENT.to_owned(),
            root_dir: String::new(),
        }
    }

    pub fn phase(&self) -> (phase: Phase)
        ensures
            phase == self@.phase,
    {
        self.phase
    }

    pub fn timer_pending(&self) -> (pending: bool)
        ensures
            pending == self@.timer_pending,
    {
        self.timer_pending
    }

    pub fn governor(&self) -> (governor: Governor)
        ensures
            governor == self@.governor,
    {
        self.governor
    }

    pub fn config(&self) -> (config: SessionConfig)
        ensures
            config == self@.config,
    {
        self.config
    }

    /// The number of failed attempts since the last reset.
    pub fn fail_count(&self) -> (count: i32)
        ensures
            count == self@.governor.fail_count,
    {
        self.governor.fail_count
    }
}

/// `head` is the beginning of `path`.
pub open spec fn leads(head: Seq<char>, path: Seq<char>) -> bool {
    head.len() <= path.len() && head == path.subrange(0, head.len() as int)
}

/// Calls `Path::parent` on `path`: the path without its final component, or
/// nothing where the path ends in a root or is empty. What counts as a
/// component depends on the platform, so the contract claims only that a
/// parent is the beginning of the path.
#[verifier::external_body]
fn parent_dir(path: &str) -> (parent: Option<String>)
    ensures
        parent matches Some(dir) ==> leads(dir@, path@),
{
    match std::path::Path::new(path).parent() {
        Some(dir) => Some(dir.to_string_lossy().into_owned()),
        None => None,
    }
}

/// The directory to keep for a file at `path`: its parent where it has one,
/// the path itself where it has none.
pub fn root_for(parent: Option<String>, path: &str) -> (root: String)
    ensures
        root@ == match parent {
            Some(dir) => dir@,
            None => path@,
        },
{
    match parent {
        Some(dir) => dir,
        None => path.to_owned(),
    }
}

/// Sets the agent's directory to the parent of `path`, or to `path` where it
/// has no parent: in either case to a beginning of `path`. Nothing else
/// changes.
pub fn set_global_log_path(state: &mut ControllerState, path: &str)
    ensures
        final(state)@ == (ControllerModel { root_dir: final(state)@.root_dir, ..old(state)@ }),
        leads(final(state)@.root_dir, path@),
        old(state)@.wf() ==> final(state)@.wf(),
{
    let parent = parent_dir(path);
    assert(path@.subrange(0, path@.len() as int) =~= path@);
    state.root_dir = root_for(parent, path);
}

/// The agent's directory.
pub fn get_global_log_path(state: &ControllerState) -> (root: String)
    ensures
        root@ == state@.root_dir,
{
    state.root_dir.clone()
}

/// Sets the mode option, and with it the mode: immediate for `operation`,
/// delayed for anything else.
pub fn set_face_recognition_mode(state: &mut ControllerState, mode: String)
    ensures
        final(state)@ == old(state)@.with_recognition_mode(mode@),
        old(state)@.wf() ==> final(state)@.wf(),
{
    state.config.mode = mode_for(mode.as_str());
    state.face_recog_type = mode;
}

/// The mode option as last loaded or set; `operation` at first.
pub fn get_face_recognition_mode(state: &ControllerState) -> (mode: String)
    ensures
        mode@ == state@.face_recog_type,
{
    state.face_recog_type.clone()
}

/// Sets the face alignment setting. Nothing else changes.
pub fn set_face_aligned_mode(state: &mut ControllerState, mode: String)
    ensures
        final(state)@ == (ControllerModel { face_aligned_type: mode@, ..old(state)@ }),
        old(state)@.wf() ==> final(state)@.wf(),
{
    state.face_aligned_type = mode;
}

/// The face alignment setting; `default` at first.
pub fn get_face_aligned_mode(state: &ControllerState) -> (mode: String)
    ensures
        mode@ == state@.face_aligned_type,
{
    state.face_aligned_type.clone()
}

} // verus!
