//! Camera acquisition: which capture backend to try next, and when a device
//! counts as acquired.
//!
//! The plan tries its candidates in order. For each it asks the driver to
//! open the device and, if the device reports that it is open, to read
//! exactly one frame; the backend is accepted only if that read gives a frame
//! that is not empty. The driver owns the handles: it keeps the one that was
//! accepted and releases every other before it opens the next.

use vstd::prelude::*;
use vstd::std_specs::convert::FromSpecImpl;

verus! {

/// A resource of the vision library, held so that it can be shared.
pub struct OpenCVResource<T> {
    pub inner: T,
}

/// A capture backend.
#[derive(Clone, Copy, Debug, PartialEq, Eq, Structural)]
pub enum CameraBackend {
    /// Whatever the vision library picks.
    Any,
    /// DirectShow.
    DShow,
    /// Media Foundation.
    MSMF,
    /// Video for Windows.
    VFW,
}

/// The number by which the vision library knows a backend.
pub open spec fn backend_id(backend: CameraBackend) -> i32 {
    match backend {
        CameraBackend::Any => 0,
        CameraBackend::DShow => 700,
        CameraBackend::MSMF => 1400,
        CameraBackend::VFW => 200,
    }
}

impl From<CameraBackend> for i32 {
    fn from(backend: CameraBackend) -> (id: i32) {
        match backend {
            CameraBackend::Any => 0,
            CameraBackend::DShow => 700,
            CameraBackend::MSMF => 1400,
            CameraBackend::VFW => 200,
        }
    }
}

impl FromSpecImpl<CameraBackend> for i32 {
    open spec fn obeys_from_spec() -> bool {
        true
    }

    open spec fn from_spec(backend: CameraBackend) -> i32 {
        backend_id(backend)
    }
}

/// The backends to try where none is preferred, in this order.
pub open spec fn default_backends() -> Seq<CameraBackend> {
    seq![CameraBackend::DShow, CameraBackend::Any, CameraBackend::MSMF, CameraBackend::VFW]
}

/// The backends to try: the preferred one alone, or the default list.
pub open spec fn candidates_for(preferred: Option<CameraBackend>) -> Seq<CameraBackend> {
    match preferred {
        Some(backend) => seq![backend],
        None => default_backends(),
    }
}

/// The backends to try, in order.
pub fn backends_to_try(preferred: Option<CameraBackend>) -> (candidates: Vec<CameraBackend>)
    ensures
        candidates@ == candidates_for(preferred),
{
    let mut candidates: Vec<CameraBackend> = Vec::new();
    match preferred {
        Some(backend) => {
            candidates.push(backend);
        },
        None => {
            candidates.push(CameraBackend::DShow);
            candidates.push(CameraBackend::Any);
            candidates.push(CameraBackend::MSMF);
            candidates.push(CameraBackend::VFW);
        },
    }
    assert(candidates@ =~= candidates_for(preferred));
    candidates
}

/// Why a backend was rejected.
#[derive(Clone, Copy, Debug, PartialEq, Eq, Structural)]
pub enum ProbeFailure {
    /// The device could not be opened.
    OpenFailed,
    /// The device was opened but reports that it is not open.
    NotOpened,
    /// The frame could not be read.
    ReadFailed,
    /// The frame that was read is empty.
    EmptyFrame,
}

/// What the plan asks of its driver.
#[derive(Clone, Copy, Debug, PartialEq, Eq, Structural)]
pub enum AcquireAction {
    /// Release the handle of the last candidate, if any; open device
    /// `device_index` with `backend` and report whether it is open.
    Open { backend: CameraBackend, device_index: i32 },
    /// Read exactly one frame from the device just opened.
    ReadFrame { backend: CameraBackend },
    /// The device is acquired with `backend`: keep the open handle.
    Keep { backend: CameraBackend },
    /// Every candidate was rejected: release the last handle. The failures
    /// name the backends that were tried.
    GiveUp,
}

/// The driver's answer to an action.
#[derive(Clone, Copy, Debug, PartialEq, Eq, Structural)]
pub enum AcquireEvent {
    /// Answer to `Open`: opening failed.
    OpenFailed,
    /// Answer to `Open`: opening returned, and the device reports this status.
    Opened(bool),
    /// Answer to `ReadFrame`: the read failed.
    ReadFailed,
    /// Answer to `ReadFrame`: a frame was read, empty or not.
    FrameRead { empty: bool },
}

/// One rejected candidate.
#[derive(Clone, Copy, Debug, PartialEq, Eq, Structural)]
pub struct Rejection {
    pub backend: CameraBackend,
    pub failure: ProbeFailure,
}

/// The mathematical state of an acquisition.
pub struct AcquisitionModel {
    pub candidates: Seq<CameraBackend>,
    pub device_index: i32,
    /// The candidates before this position were rejected.
    pub cursor: int,
    pub pending: AcquireAction,
    /// The candidates rejected so far, in the order tried.
    pub rejected: Seq<Rejection>,
}

impl AcquisitionModel {
    /// The plan turns to the candidate at `cursor`, or gives up behind the last.
    pub open spec fn turn_to(self, cursor: int) -> AcquisitionModel {
        AcquisitionModel {
            cursor,
            pending: if 0 <= cursor < self.candidates.len() {
                AcquireAction::Open {
                    backend: self.candidates[cursor],
                    device_index: self.device_index,
                }
            } else {
                AcquireAction::GiveUp
            },
            ..self
        }
    }

    /// A fresh plan.
    pub open spec fn start(candidates: Seq<CameraBackend>, device_index: i32) -> AcquisitionModel {
        AcquisitionModel {
            candidates,
            device_index,
            cursor: 0,
            pending: AcquireAction::GiveUp,
            rejected: Seq::empty(),
        }.turn_to(0)
    }

    /// The current candidate is rejected for `failure`, and the plan moves on.
    pub open spec fn reject(self, failure: ProbeFailure) -> AcquisitionModel {
        AcquisitionModel {
            rejected: self.rejected.push(
                Rejection { backend: self.candidates[self.cursor], failure },
            ),
            ..self
        }.turn_to(self.cursor + 1)
    }

    /// The plan has ended, with a device or without.
    pub open spec fn finished(self) -> bool {
        self.pending is Keep || self.pending is GiveUp
    }

    /// The state after the driver answered the pending action with `event`.
    /// An event that does not answer the pending action changes nothing.
    pub open spec fn after(self, event: AcquireEvent) -> AcquisitionModel {
        match (self.pending, event) {
            (AcquireAction::Open { .. }, AcquireEvent::OpenFailed) => self.reject(
                ProbeFailure::OpenFailed,
            ),
            (AcquireAction::Open { backend, .. }, AcquireEvent::Opened(open)) => {
                if open {
                    AcquisitionModel { pending: AcquireAction::ReadFrame { backend }, ..self }
                } else {
                    self.reject(ProbeFailure::NotOpened)
                }
            },
            (AcquireAction::ReadFrame { .. }, AcquireEvent::ReadFailed) => self.reject(
                ProbeFailure::ReadFailed,
            ),
            (AcquireAction::ReadFrame { backend }, AcquireEvent::FrameRead { empty }) => {
                if empty {
                    self.reject(ProbeFailure::EmptyFrame)
                } else {
                    AcquisitionModel { pending: AcquireAction::Keep { backend }, ..self }
                }
            },
            _ => self,
        }
    }

    /// The state after a run of events.
    pub open spec fn after_all(self, events: Seq<AcquireEvent>) -> AcquisitionModel
        decreases events.len(),
    {
        if events.len() == 0 {
            self
        } else {
            self.after_all(events.drop_last()).after(events.last())
        }
    }

    /// What holds of every state that a plan can reach: the candidates before
    /// the cursor are exactly those rejected, in order, and the pending
    /// action is about the candidate at the cursor.
    pub open spec fn wf(self) -> bool {
        &&& self.candidates.len() <= usize::MAX
        &&& 0 <= self.cursor <= self.candidates.len()
        &&& self.rejected.len() == self.cursor
        &&& forall|i: int|
            0 <= i < self.cursor ==> (#[trigger] self.rejected[i]).backend == self.candidates[i]
        &&& match self.pending {
            AcquireAction::Open { backend, device_index } => self.cursor < self.candidates.len()
                && backend == self.candidates[self.cursor] && device_index == self.device_index,
            AcquireAction::ReadFrame { backend } => self.cursor < self.candidates.len() && backend
                == self.candidates[self.cursor],
            AcquireAction::Keep { backend } => self.cursor < self.candidates.len() && backend
                == self.candidates[self.cursor],
            AcquireAction::GiveUp => self.cursor == self.candidates.len(),
        }
    }
}

/// Every step keeps the plan well formed.
pub proof fn lemma_acquire_after_wf(s: AcquisitionModel, event: AcquireEvent)
    requires
        s.wf(),
    ensures
        s.after(event).wf(),
{
}

/// A fresh plan is well formed.
pub proof fn lemma_acquire_start_wf(candidates: Seq<CameraBackend>, device_index: i32)
    requires
        candidates.len() <= usize::MAX,
    ensures
        AcquisitionModel::start(candidates, device_index).wf(),
{
}

/// Once a backend is kept, no later event changes the plan: no candidate
/// behind the accepted one is ever opened.
pub proof fn lemma_accepted_stays(s: AcquisitionModel, events: Seq<AcquireEvent>)
    requires
        s.pending is Keep,
    ensures
        s.after_all(events) == s,
    decreases events.len(),
{
    if events.len() > 0 {
        lemma_accepted_stays(s, events.drop_last());
    }
}

/// A backend is kept only in answer to a frame that is not empty, read from
/// the device that this backend opened; and a plan gives up only when every
/// candidate was rejected.
pub proof fn lemma_acceptance(s: AcquisitionModel, event: AcquireEvent)
    requires
        s.wf(),
        !s.finished(),
    ensures
        s.after(event).pending is Keep <==> s.pending is ReadFrame && event
            == (AcquireEvent::FrameRead { empty: false }),
        s.after(event).pending matches AcquireAction::Keep { backend } ==> backend
            == s.candidates[s.cursor] && s.after(event).rejected == s.rejected,
        s.after(event).pending is GiveUp ==> s.after(event).rejected.len() == s.candidates.len(),
{
}

/// How the probe of one candidate went.
#[derive(Clone, Copy, Debug, PartialEq, Eq, Structural)]
pub enum ProbeOutcome {
    /// The device opened and gave a frame that is not empty.
    Accepted,
    /// The probe failed in this way.
    Rejected(ProbeFailure),
}

/// The events by which a driver reports the probe of one candidate.
pub open spec fn probe_events(outcome: ProbeOutcome) -> Seq<AcquireEvent> {
    match outcome {
        ProbeOutcome::Accepted => seq![
            AcquireEvent::Opened(true),
            AcquireEvent::FrameRead { empty: false },
        ],
        ProbeOutcome::Rejected(ProbeFailure::OpenFailed) => seq![AcquireEvent::OpenFailed],
        ProbeOutcome::Rejected(ProbeFailure::NotOpened) => seq![AcquireEvent::Opened(false)],
        ProbeOutcome::Rejected(ProbeFailure::ReadFailed) => seq![
            AcquireEvent::Opened(true),
            AcquireEvent::ReadFailed,
        ],
        ProbeOutcome::Rejected(ProbeFailure::EmptyFrame) => seq![
            AcquireEvent::Opened(true),
            AcquireEvent::FrameRead { empty: true },
        ],
    }
}

/// The events by which a driver reports the probes of the first candidates,
/// one after the other.
pub open spec fn probes_events(outcomes: Seq<ProbeOutcome>) -> Seq<AcquireEvent>
    decreases outcomes.len(),
{
    if outcomes.len() == 0 {
        Seq::empty()
    } else {
        probes_events(outcomes.drop_last()) + probe_events(outcomes.last())
    }
}

/// The rejections that a plan records for candidates whose probes all failed.
pub open spec fn rejections_of(candidates: Seq<CameraBackend>, outcomes: Seq<ProbeOutcome>) -> Seq<
    Rejection,
> {
    Seq::new(
        outcomes.len(),
        |i: int| Rejection { backend: candidates[i], failure: outcomes[i]->Rejected_0 },
    )
}

/// Events taken one run after the other are taken as one run.
pub proof fn lemma_after_all_joined(
    s: AcquisitionModel,
    first: Seq<AcquireEvent>,
    second: Seq<AcquireEvent>,
)
    ensures
        s.after_all(first + second) == s.after_all(first).after_all(second),
    decreases second.len(),
{
    if second.len() == 0 {
        assert(first + second =~= first);
    } else {
        lemma_after_all_joined(s, first, second.drop_last());
        assert((first + second).drop_last() =~= first + second.drop_last());
    }
}

/// A plan that is about to open a candidate rejects it on a failed probe and
/// keeps it on an accepted one.
pub proof fn lemma_probe_decides(s: AcquisitionModel, outcome: ProbeOutcome)
    requires
        s.wf(),
        s.pending is Open,
    ensures
        outcome matches ProbeOutcome::Rejected(failure) ==> s.after_all(probe_events(outcome))
            == s.reject(failure),
        outcome is Accepted ==> s.after_all(probe_events(outcome)) == (AcquisitionModel {
            pending: AcquireAction::Keep { backend: s.candidates[s.cursor] },
            ..s
        }),
{
    let events = probe_events(outcome);
    if events.len() == 1 {
        assert(events.drop_last() =~= Seq::<AcquireEvent>::empty());
        assert(s.after_all(events.drop_last()) == s);
    } else {
        assert(events.len() == 2);
        let head = events.drop_last();
        assert(head.len() == 1);
        assert(head.drop_last() =~= Seq::<AcquireEvent>::empty());
        assert(s.after_all(head.drop_last()) == s);
        assert(s.after_all(head) == s.after(events[0]));
        assert(s.after_all(events) == s.after(events[0]).after(events[1]));
    }
}

/// While every probe fails, a fresh plan walks the candidates in order: after
/// the probes of the first candidates it has rejected exactly these, each
/// with its failure, and is about to open the next one, or has given up
/// behind the last.
pub proof fn lemma_rejections_in_order(
    candidates: Seq<CameraBackend>,
    device_index: i32,
    outcomes: Seq<ProbeOutcome>,
)
    requires
        candidates.len() <= usize::MAX,
        outcomes.len() <= candidates.len(),
        forall|i: int| 0 <= i < outcomes.len() ==> #[trigger] outcomes[i] is Rejected,
    ensures
        ({
            let s = AcquisitionModel::start(candidates, device_index).after_all(
                probes_events(outcomes),
            );
            &&& s.wf()
            &&& s.cursor == outcomes.len()
            &&& s.rejected == rejections_of(candidates, outcomes)
            &&& s.candidates == candidates
            &&& s.device_index == device_index
            &&& s.pending == if outcomes.len() < candidates.len() {
                AcquireAction::Open { backend: candidates[outcomes.len() as int], device_index }
            } else {
                AcquireAction::GiveUp
            }
        }),
    decreases outcomes.len(),
{
    let start = AcquisitionModel::start(candidates, device_index);
    if outcomes.len() == 0 {
        assert(start.rejected =~= rejections_of(candidates, outcomes));
    } else {
        let earlier = outcomes.drop_last();
        lemma_rejections_in_order(candidates, device_index, earlier);
        let before = start.after_all(probes_events(earlier));
        lemma_after_all_joined(start, probes_events(earlier), probe_events(outcomes.last()));
        lemma_probe_decides(before, outcomes.last());
        let after = before.after_all(probe_events(outcomes.last()));
        assert(outcomes.last() == outcomes[outcomes.len() - 1]);
        assert(after.rejected =~= rejections_of(candidates, outcomes));
    }
}

/// The first candidate whose probe is accepted is the one kept: where the
/// probes of the candidates before it all failed, the plan keeps it, has
/// rejected exactly the candidates before it, and never opens a candidate
/// behind it, whatever events follow.
pub proof fn lemma_first_accepted_is_kept(
    candidates: Seq<CameraBackend>,
    device_index: i32,
    failures: Seq<ProbeOutcome>,
    later: Seq<AcquireEvent>,
)
    requires
        candidates.len() <= usize::MAX,
        failures.len() < candidates.len(),
        forall|i: int| 0 <= i < failures.len() ==> #[trigger] failures[i] is Rejected,
    ensures
        ({
            let s = AcquisitionModel::start(candidates, device_index).after_all(
                probes_events(failures.push(ProbeOutcome::Accepted)),
            );
            &&& s.pending == AcquireAction::Keep { backend: candidates[failures.len() as int] }
            &&& s.rejected == rejections_of(candidates, failures)
            &&& s.after_all(later) == s
        }),
{
    let start = AcquisitionModel::start(candidates, device_index);
    let outcomes = failures.push(ProbeOutcome::Accepted);
    assert(outcomes.drop_last() =~= failures);
    lemma_rejections_in_order(candidates, device_index, failures);
    let before = start.after_all(probes_events(failures));
    lemma_after_all_joined(start, probes_events(failures), probe_events(ProbeOutcome::Accepted));
    lemma_probe_decides(before, ProbeOutcome::Accepted);
    lemma_accepted_stays(before.after_all(probe_events(ProbeOutcome::Accepted)), later);
}

/// An acquisition in progress.
pub struct Acquisition {
    candidates: Vec<CameraBackend>,
    device_index: i32,
    cursor: usize,
    pending: AcquireAction,
    rejected: Vec<Rejection>,
}

impl View for Acquisition {
    type V = AcquisitionModel;

    closed spec fn view(&self) -> AcquisitionModel {
        AcquisitionModel {
            candidates: self.candidates@,
            device_index: self.device_index,
            cursor: self.cursor as int,
            pending: self.pending,
            rejected: self.rejected@,
        }
    }
}

impl Acquisition {
    /// Plans the acquisition of device `device_index`: with `preferred`
    /// alone where one is given, else with the default backends in order.
    pub fn new(preferred: Option<CameraBackend>, device_index: i32) -> (plan: Acquisition)
        ensures
            plan@ == AcquisitionModel::start(candidates_for(preferred), device_index),
            plan@.wf(),
    {
        let candidates = backends_to_try(preferred);
        let first = candidates[0];
        Acquisition {
            candidates,
            device_index,
            cursor: 0,
            pending: AcquireAction::Open { backend: first, device_index },
            rejected: Vec::new(),
        }
    }

    /// The action that the driver has to carry out next.
    pub fn pending(&self) -> (action: AcquireAction)
        ensures
            action == self@.pending,
    {
        self.pending
    }

    /// The candidates rejected so far, each with the reason, in the order tried.
    pub fn rejected(&self) -> (rejected: &Vec<Rejection>)
        ensures
            rejected@ == self@.rejected,
    {
        &self.rejected
    }

    fn reject(&mut self, failure: ProbeFailure)
        requires
            old(self)@.wf(),
            old(self).cursor < old(self).candidates.len(),
        ensures
            final(self)@ == old(self)@.reject(failure),
    {
        self.rejected.push(Rejection { backend: self.candidates[self.cursor], failure });
        self.cursor = self.cursor + 1;
        if self.cursor < self.candidates.len() {
            self.pending = AcquireAction::Open {
                backend: self.candidates[self.cursor],
                device_index: self.device_index,
            };
        } else {
            self.pending = AcquireAction::GiveUp;
        }
    }

    /// Takes the driver's answer to the pending action and returns the next
    /// action.
    pub fn step(&mut self, event: AcquireEvent) -> (action: AcquireAction)
        requires
            old(self)@.wf(),
        ensures
            final(self)@ == old(self)@.after(event),
            final(self)@.wf(),
            action == final(self)@.pending,
    {
        proof {
            lemma_acquire_after_wf(self@, event);
        }
        match (self.pending, event) {
            (AcquireAction::Open { .. }, AcquireEvent::OpenFailed) => {
                self.reject(ProbeFailure::OpenFailed);
            },
            (AcquireAction::Open { backend, .. }, AcquireEvent::Opened(open)) => {
                if open {
                    self.pending = AcquireAction::ReadFrame { backend };
                } else {
                    self.reject(ProbeFailure::NotOpened);
                }
            },
            (AcquireAction::ReadFrame { .. }, AcquireEvent::ReadFailed) => {
                self.reject(ProbeFailure::ReadFailed);
            },
            (AcquireAction::ReadFrame { backend }, AcquireEvent::FrameRead { empty }) => {
                if empty {
                    self.reject(ProbeFailure::EmptyFrame);
                } else {
                    self.pending = AcquireAction::Keep { backend };
                }
            },
            _ => {},
        }
        self.pending
    }
}

/// What the validation of one device asks of its driver. A validation only
/// finds out whether the device can be opened; it must not keep it.
#[derive(Clone, Copy, Debug, PartialEq, Eq, Structural)]
pub enum ValidationAction {
    /// Open device `device_index` with the backend `Any` and report its status.
    Open { device_index: i32 },
    /// Release the device that was opened.
    Release,
    /// The validation has ended; `listed` says whether the device belongs in the
    /// list of cameras, `valid` whether it could be opened.
    Done { listed: bool, valid: bool },
}

/// The driver's answer to an action of a validation.
#[derive(Clone, Copy, Debug, PartialEq, Eq, Structural)]
pub enum ValidationEvent {
    /// Answer to `Open`: opening failed, or the status could not be read.
    OpenFailed,
    /// Answer to `Open`: the device reports this status.
    Opened(bool),
    /// Answer to `Release`: whether the release went well.
    Released(bool),
}

/// The action that follows `pending` once it was answered with `event`: a
/// device that was opened is released at once, and only then reported as
/// valid; a device whose release fails is left out of the list. An event
/// that does not answer the pending action changes nothing.
pub open spec fn validation_next(pending: ValidationAction, event: ValidationEvent) -> ValidationAction {
    match (pending, event) {
        (ValidationAction::Open { .. }, ValidationEvent::OpenFailed) => ValidationAction::Done {
            listed: false,
            valid: false,
        },
        (ValidationAction::Open { .. }, ValidationEvent::Opened(open)) => if open {
            ValidationAction::Release
        } else {
            ValidationAction::Done { listed: true, valid: false }
        },
        (ValidationAction::Release, ValidationEvent::Released(released)) => ValidationAction::Done {
            listed: released,
            valid: released,
        },
        _ => pending,
    }
}

/// Starts the validation of device `device_index`.
pub fn validation_start(device_index: i32) -> (action: ValidationAction)
    ensures
        action == (ValidationAction::Open { device_index }),
{
    ValidationAction::Open { device_index }
}

/// Takes the driver's answer to `pending` and returns the next action.
pub fn validation_step(pending: ValidationAction, event: ValidationEvent) -> (action: ValidationAction)
    ensures
        action == validation_next(pending, event),
{
    match (pending, event) {
        (ValidationAction::Open { .. }, ValidationEvent::OpenFailed) => ValidationAction::Done {
            listed: false,
            valid: false,
        },
        (ValidationAction::Open { .. }, ValidationEvent::Opened(open)) => if open {
            ValidationAction::Release
        } else {
            ValidationAction::Done { listed: true, valid: false }
        },
        (ValidationAction::Release, ValidationEvent::Released(released)) => ValidationAction::Done {
            listed: released,
            valid: released,
        },
        _ => pending,
    }
}

/// A validation never ends with the device held: a device is reported as valid
/// only in answer to its release.
pub proof fn lemma_validation_releases(pending: ValidationAction, event: ValidationEvent)
    requires
        !(pending is Done),
        validation_next(pending, event) matches ValidationAction::Done { valid, .. } && valid,
    ensures
        pending is Release,
        event == ValidationEvent::Released(true),
{
}

/// The name of a backend.
pub fn backend_name(backend: CameraBackend) -> (name: &'static str)
    ensures
        name@ == backend_text(backend),
{
    match backend {
        CameraBackend::Any => "Any",
        CameraBackend::DShow => "DShow",
        CameraBackend::MSMF => "MSMF",
        CameraBackend::VFW => "VFW",
    }
}

/// The name of a backend, as text.
pub open spec fn backend_text(backend: CameraBackend) -> Seq<char> {
    match backend {
        CameraBackend::Any => "Any"@,
        CameraBackend::DShow => "DShow"@,
        CameraBackend::MSMF => "MSMF"@,
        CameraBackend::VFW => "VFW"@,
    }
}

/// What went wrong with a backend, as text.
pub open spec fn failure_text(failure: ProbeFailure) -> Seq<char> {
    match failure {
        ProbeFailure::OpenFailed => "could not be opened"@,
        ProbeFailure::NotOpened => "opened but not active"@,
        ProbeFailure::ReadFailed => "frame could not be read"@,
        ProbeFailure::EmptyFrame => "read an empty frame"@,
    }
}

/// The text that names the first `count` rejected backends, each with its
/// failure.
pub open spec fn rejections_text(rejected: Seq<Rejection>, count: int) -> Seq<char>
    decreases count,
{
    if count <= 0 {
        "no camera backend could be used:"@
    } else {
        rejections_text(rejected, count - 1) + " ["@ + backend_text(rejected[count - 1].backend)
            + ": "@ + failure_text(rejected[count - 1].failure) + "]"@
    }
}

fn failure_name(failure: ProbeFailure) -> (name: &'static str)
    ensures
        name@ == failure_text(failure),
{
    match failure {
        ProbeFailure::OpenFailed => "could not be opened",
        ProbeFailure::NotOpened => "opened but not active",
        ProbeFailure::ReadFailed => "frame could not be read",
        ProbeFailure::EmptyFrame => "read an empty frame",
    }
}

/// Describes a failed acquisition: every backend that was tried is named,
/// with what went wrong.
pub fn describe_rejections(rejected: &Vec<Rejection>) -> (text: String)
    ensures
        text@ == rejections_text(rejected@, rejected@.len() as int),
{
    let mut text = "no camera backend could be used:".to_owned();
    let mut i: usize = 0;
    while i < rejected.len()
        invariant
            i <= rejected.len(),
            text@ == rejections_text(rejected@, i as int),
        decreases rejected.len() - i,
    {
        text.append(" [");
        text.append(backend_name(rejected[i].backend));
        text.append(": ");
        text.append(failure_name(rejected[i].failure));
        text.append("]");
        i = i + 1;
    }
    text
}

} // verus!
