//! Fixed limits and defaults of the controller.

use vstd::prelude::*;

verus! {

/// Consecutive matching frames after which a template is declared matched.
pub const MAX_SUCCESS: usize = 3;

/// Non-matching frames after which a template is given up.
pub const MAX_FAIL: usize = 3;

/// Failed attempts after which no further attempt is started. Repeated failed
/// submissions may lock the account on the platform side, so this ceiling is
/// not configurable.
pub const MAX_RETRY: i32 = 3;

/// Pause between two polls of a background loop, in milliseconds.
pub const LOOP_MILLIS: u64 = 50;

/// Identifier of the one-shot timer that delays an attempt after a lock.
pub const TIMER_ID_LOCK_CHECK: usize = 1001;

/// The window message that announces a change of the session.
pub const MESSAGE_SESSION_CHANGE: u32 = 689;

/// The window message of a timer that ran out.
pub const MESSAGE_TIMER: u32 = 275;

/// The window message that a window gets when it is created.
pub const MESSAGE_CREATE: u32 = 1;

/// The window message that a window gets when it is destroyed.
pub const MESSAGE_DESTROY: u32 = 2;

/// The session change "locked".
pub const SESSION_LOCK: u32 = 7;

/// The session change "unlocked".
pub const SESSION_UNLOCK: u32 = 8;

/// Delay before an attempt in delayed mode when the store gives none, in milliseconds.
pub const DEFAULT_FACE_RECOG_DELAY_MS: u32 = 10000;

/// Minimum spacing between two attempts when the store gives none, in milliseconds.
pub const DEFAULT_RETRY_DELAY_MS: i32 = 10000;

/// Liveness threshold when the store gives none, in percent.
pub const DEFAULT_LIVENESS_THRESHOLD_PCT: u32 = 50;

/// Pause before the next frame when no face was found, in milliseconds.
pub const NO_FACE_WAIT_MS: u64 = 200;

/// Pause between two frames of the matching loop, in milliseconds.
pub const FRAME_WAIT_MS: u64 = 50;

} // verus!
