//! The end of an attempt: what the broker is told, what the attempt log
//! records, and how the attempt counts for the governor.

use vstd::prelude::*;
use crate::channel::{broker_message, credential_text, failure_message, MARKER, NOBODY};
use crate::matching::{EnrolledTemplate, MatchOutcome, MatchSession};
use crate::text::same_text;

verus! {

/// The account kind of an account of the machine itself.
pub const LOCAL_ACCOUNT: &'static str = "local";

/// What stands before the name of a local account at login.
pub const LOCAL_PREFIX: &'static str = ".\\";

/// The template id of a log entry for an attempt that matched no template.
pub const NO_TEMPLATE: i32 = -1;

/// The ending of the file that holds the reference features of a template.
pub const TEMPLATE_SUFFIX: &'static str = ".face";

/// The ending of the file that holds the snapshot of a failed attempt.
pub const SNAPSHOT_SUFFIX: &'static str = ".faceimg";

/// The name by which an account logs on: a local account is marked as such.
pub open spec fn login_text(account_name: Seq<char>, account_kind: Seq<char>) -> Seq<char> {
    if account_kind == LOCAL_ACCOUNT@ {
        LOCAL_PREFIX@ + account_name
    } else {
        account_name
    }
}

/// The name by which the account of `template` logs on.
pub fn login_name(template: &EnrolledTemplate) -> (name: String)
    ensures
        name@ == login_text(template.account_name@, template.account_kind@),
{
    if same_text(template.account_kind.as_str(), LOCAL_ACCOUNT) {
        let mut name = LOCAL_PREFIX.to_owned();
        name.append(template.account_name.as_str());
        name
    } else {
        template.account_name.clone()
    }
}

/// The message that the broker gets for `outcome`: the credentials of the
/// matched template, the failure sentinel where nothing matched, and nothing
/// where the attempt broke off.
pub open spec fn outcome_text(templates: Seq<EnrolledTemplate>, outcome: MatchOutcome) -> Option<
    Seq<char>,
> {
    match outcome {
        MatchOutcome::Matched { index } => Some(
            credential_text(
                login_text(templates[index as int].account_name@, templates[index as int].account_kind@),
                MARKER@,
                templates[index as int].account_secret@,
            ),
        ),
        MatchOutcome::NoMatch => Some(credential_text(NOBODY@, MARKER@, NOBODY@)),
        _ => None,
    }
}

/// How an attempt that ran counts.
#[derive(Clone, Copy, Debug, PartialEq, Eq, Structural)]
pub enum RunResult {
    /// A template matched and the broker got its credentials.
    Unlocked,
    /// No template matched and the broker got the failure sentinel.
    Rejected,
    /// The attempt broke off: the camera or the engine failed, the attempt
    /// was cancelled, or the broker could not be reached.
    Failed,
}

/// How an attempt counts that ended with `outcome`, given whether the broker
/// got its message.
pub open spec fn result_of(outcome: MatchOutcome, delivered: bool) -> RunResult {
    match outcome {
        MatchOutcome::Matched { .. } => if delivered {
            RunResult::Unlocked
        } else {
            RunResult::Failed
        },
        MatchOutcome::NoMatch => if delivered {
            RunResult::Rejected
        } else {
            RunResult::Failed
        },
        _ => RunResult::Failed,
    }
}

/// How an attempt counts that ended with `outcome`.
pub fn run_result(outcome: MatchOutcome, delivered: bool) -> (result: RunResult)
    ensures
        result == result_of(outcome, delivered),
{
    match outcome {
        MatchOutcome::Matched { .. } => if delivered {
            RunResult::Unlocked
        } else {
            RunResult::Failed
        },
        MatchOutcome::NoMatch => if delivered {
            RunResult::Rejected
        } else {
            RunResult::Failed
        },
        _ => RunResult::Failed,
    }
}

/// Whether the last frame of an attempt is kept as a snapshot: only where
/// no template matched, the broker got the failure sentinel, and a frame
/// was captured at all.
pub open spec fn snapshot_due(outcome: MatchOutcome, delivered: bool, frame_at_hand: bool) -> bool {
    outcome is NoMatch && delivered && frame_at_hand
}

/// Whether the last frame of an attempt that ended with `outcome` is to be
/// saved as a snapshot.
pub fn snapshot_wanted(outcome: MatchOutcome, delivered: bool, frame_at_hand: bool) -> (wanted:
    bool)
    ensures
        wanted == snapshot_due(outcome, delivered, frame_at_hand),
{
    match outcome {
        MatchOutcome::NoMatch => delivered && frame_at_hand,
        _ => false,
    }
}

/// One entry of the attempt log.
#[derive(Debug)]
pub struct AttemptLogEntry {
    /// The id of the matched template, or `NO_TEMPLATE`.
    pub template_id: i32,
    pub succeeded: bool,
    /// The file name of the snapshot of the last frame, where one was saved.
    pub snapshot_ref: Option<String>,
}

/// The mathematical value of a log entry.
pub struct EntryModel {
    pub template_id: i32,
    pub succeeded: bool,
    pub snapshot_ref: Option<Seq<char>>,
}

impl View for AttemptLogEntry {
    type V = EntryModel;

    open spec fn view(&self) -> EntryModel {
        EntryModel {
            template_id: self.template_id,
            succeeded: self.succeeded,
            snapshot_ref: match self.snapshot_ref {
                Some(name) => Some(name@),
                None => None,
            },
        }
    }
}

/// The entry that the attempt log gets for an attempt that ended with
/// `outcome`: one for a match and one for no match, each only if the broker
/// got its message; a snapshot belongs to a failure only.
pub open spec fn entry_of(
    templates: Seq<EnrolledTemplate>,
    outcome: MatchOutcome,
    delivered: bool,
    snapshot: Option<Seq<char>>,
) -> Option<EntryModel> {
    match outcome {
        MatchOutcome::Matched { index } => if delivered {
            Some(
                EntryModel {
                    template_id: templates[index as int].id,
                    succeeded: true,
                    snapshot_ref: None,
                },
            )
        } else {
            None
        },
        MatchOutcome::NoMatch => if delivered {
            Some(EntryModel { template_id: NO_TEMPLATE, succeeded: false, snapshot_ref: snapshot })
        } else {
            None
        },
        _ => None,
    }
}

/// The view of an optional log entry.
pub open spec fn entry_view(entry: Option<AttemptLogEntry>) -> Option<EntryModel> {
    match entry {
        Some(e) => Some(e@),
        None => None,
    }
}

/// The view of an optional string.
pub open spec fn name_view(name: Option<String>) -> Option<Seq<char>> {
    match name {
        Some(s) => Some(s@),
        None => None,
    }
}

/// The values of one row of the attempt log table.
#[derive(Debug)]
pub struct LogRow {
    pub face_id: i32,
    /// 1 for a success, 0 for a failure.
    pub is_unlock: i32,
    /// The snapshot's file name; nothing where there is none or it is empty.
    pub block_img: Option<String>,
}

impl AttemptLogEntry {
    /// The row that stands for this entry in the store.
    pub fn row(&self) -> (row: LogRow)
        ensures
            row.face_id == self.template_id,
            row.is_unlock == (if self.succeeded { 1i32 } else { 0i32 }),
            name_view(row.block_img) == match self@.snapshot_ref {
                Some(name) => if name.len() == 0 {
                    None
                } else {
                    Some(name)
                },
                None => None,
            },
    {
        let block_img = match &self.snapshot_ref {
            Some(name) => if name.as_str().unicode_len() == 0 {
                None
            } else {
                Some(name.clone())
            },
            None => None,
        };
        LogRow { face_id: self.template_id, is_unlock: if self.succeeded { 1 } else { 0 }, block_img }
    }
}

impl MatchSession {
    /// The message to send to the broker, once the session has ended; nothing
    /// while it runs or where it broke off.
    pub fn broker_message(&self) -> (message: Option<String>)
        requires
            self@.wf(),
        ensures
            name_view(message) == match self@.pending {
                crate::matching::MatchAction::Finish(outcome) => outcome_text(
                    self@.templates,
                    outcome,
                ),
                _ => None,
            },
    {
        match self.outcome() {
            Some(MatchOutcome::Matched { index }) => {
                let template = &self.templates()[index];
                let name = login_name(template);
                Some(broker_message(name.as_str(), template.account_secret.as_str()))
            },
            Some(MatchOutcome::NoMatch) => Some(failure_message()),
            _ => None,
        }
    }

    /// The entry for the attempt log, once the session has ended. `delivered`
    /// says whether the broker got its message, `snapshot` names the file
    /// that holds the last frame where one was saved.
    pub fn log_entry(&self, delivered: bool, snapshot: Option<String>) -> (entry: Option<
        AttemptLogEntry,
    >)
        requires
            self@.wf(),
        ensures
            entry_view(entry) == match self@.pending {
                crate::matching::MatchAction::Finish(outcome) => entry_of(
                    self@.templates,
                    outcome,
                    delivered,
                    name_view(snapshot),
                ),
                _ => None,
            },
    {
        match self.outcome() {
            Some(MatchOutcome::Matched { index }) => if delivered {
                Some(
                    AttemptLogEntry {
                        template_id: self.templates()[index].id,
                        succeeded: true,
                        snapshot_ref: None,
                    },
                )
            } else {
                None
            },
            Some(MatchOutcome::NoMatch) => if delivered {
                Some(AttemptLogEntry { template_id: NO_TEMPLATE, succeeded: false, snapshot_ref: snapshot })
            } else {
                None
            },
            _ => None,
        }
    }
}

/// `c` is a digit or one of the letters `a` to `f`.
pub open spec fn is_hex_digit(c: char) -> bool {
    ('0' <= c && c <= '9') || ('a' <= c && c <= 'f')
}

/// `id` has the shape of a random identifier in its hyphenated form: 36
/// characters, hyphens at four places and hexadecimal digits elsewhere, of
/// which one says that the identifier is random (version 4) and one that it
/// is of the common variant.
pub open spec fn is_hyphenated_id(id: Seq<char>) -> bool {
    &&& id.len() == 36
    &&& forall|i: int|
        0 <= i < 36 ==> if i == 8 || i == 13 || i == 18 || i == 23 {
            #[trigger] id[i] == '-'
        } else {
            is_hex_digit(id[i])
        }
    &&& id[14] == '4'
    &&& id[19] == '8' || id[19] == '9' || id[19] == 'a' || id[19] == 'b'
}

/// Draws a random identifier and writes it in its hyphenated form. Calls
/// `Uuid::new_v4` and the identifier's `to_string`. The contract states the
/// shape of the text, which holds of every identifier that can be drawn;
/// which one is drawn is left open.
#[verifier::external_body]
fn random_id() -> (id: String)
    ensures
        is_hyphenated_id(id@),
{
    uuid::Uuid::new_v4().to_string()
}

/// A fresh random identifier.
pub fn get_uuid_v4() -> (id: Result<String, String>)
    ensures
        id matches Ok(text) && is_hyphenated_id(text@),
{
    Ok(random_id())
}

/// The name of the file that holds the reference features of the template
/// with reference `template_ref`.
pub fn template_file_name(template_ref: &str) -> (name: String)
    ensures
        name@ == template_ref@ + TEMPLATE_SUFFIX@,
{
    let mut name = template_ref.to_owned();
    name.append(TEMPLATE_SUFFIX);
    name
}

/// The name of the snapshot file for the identifier `id`.
pub fn snapshot_file_name(id: &str) -> (name: String)
    ensures
        name@ == id@ + SNAPSHOT_SUFFIX@,
{
    let mut name = id.to_owned();
    name.append(SNAPSHOT_SUFFIX);
    name
}

/// A fresh name for the snapshot of a failed attempt: a random identifier
/// and the snapshot ending.
pub fn new_snapshot_name() -> (name: String)
    ensures
        name@.len() == 36 + SNAPSHOT_SUFFIX@.len(),
        is_hyphenated_id(name@.subrange(0, 36)),
        name@.subrange(36, name@.len() as int) == SNAPSHOT_SUFFIX@,
{
    let id = random_id();
    let name = snapshot_file_name(id.as_str());
    assert(name@.subrange(0, 36) =~= id@);
    assert(name@.subrange(36, name@.len() as int) =~= SNAPSHOT_SUFFIX@);
    name
}

} // verus!
