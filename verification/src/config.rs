//! The configuration of a session, built from what the option store holds.
//!
//! The store keeps every option as text. Seconds and probabilities are
//! fractional there; the caller reads them and hands them over as whole
//! milliseconds and whole percent. Everything else is read here, and every
//! option that is missing or malformed falls back to its default.

use vstd::prelude::*;
use crate::limits::{
    DEFAULT_FACE_RECOG_DELAY_MS, DEFAULT_LIVENESS_THRESHOLD_PCT, DEFAULT_RETRY_DELAY_MS,
};
use crate::text::{chars_of, same_text};

verus! {

/// When an attempt starts after the session was locked.
#[derive(Clone, Copy, Debug, PartialEq, Eq, Structural)]
pub enum Mode {
    /// On a `run` message from the control channel.
    Immediate,
    /// When a timer started at the lock runs out.
    Delayed,
}

/// The value of the option `faceRecogType` that selects immediate mode.
pub const OPERATION: &'static str = "operation";

/// The key of the option that selects the mode.
pub const KEY_FACE_RECOG_TYPE: &'static str = "faceRecogType";

/// The key of the delay between lock and attempt, in seconds.
pub const KEY_FACE_RECOG_DELAY: &'static str = "faceRecogDelay";

/// The key of the camera index.
pub const KEY_CAMERA: &'static str = "camera";

/// The key of the minimum spacing between two attempts, in seconds.
pub const KEY_RETRY_DELAY: &'static str = "retryDelay";

/// The key of the switch for the liveness check.
pub const KEY_LIVENESS_ENABLED: &'static str = "livenessEnabled";

/// The key of the liveness threshold, a probability.
pub const KEY_LIVENESS_THRESHOLD: &'static str = "livenessThreshold";

/// The key of the mark that the installation was completed.
pub const KEY_IS_INITIALIZED: &'static str = "is_initialized";

/// The mode that a value of the option `faceRecogType` selects.
pub open spec fn mode_of(face_recog_type: Seq<char>) -> Mode {
    if face_recog_type == OPERATION@ {
        Mode::Immediate
    } else {
        Mode::Delayed
    }
}

/// The configuration of one armed cycle.
#[derive(Clone, Copy, Debug, PartialEq, Eq, Structural)]
pub struct SessionConfig {
    pub mode: Mode,
    /// Delay between lock and attempt in delayed mode, in milliseconds.
    pub delay_ms: u32,
    pub camera_index: i32,
    /// Minimum spacing between two attempts, in milliseconds.
    pub retry_delay_ms: i32,
    pub liveness_enabled: bool,
    /// Liveness threshold in percent.
    pub liveness_threshold_pct: u32,
}

/// The options as read from the store. `None` stands for an option that is
/// missing, and for a number that could not be read.
pub struct StoredOptions {
    /// `faceRecogType`
    pub face_recog_type: Option<String>,
    /// `faceRecogDelay`, in milliseconds
    pub face_recog_delay_ms: Option<u32>,
    /// `camera`
    pub camera: Option<String>,
    /// `retryDelay`, in milliseconds
    pub retry_delay_ms: Option<i32>,
    /// `livenessEnabled`
    pub liveness_enabled: Option<String>,
    /// `livenessThreshold`, in percent
    pub liveness_threshold_pct: Option<u32>,
}

/// `c` is one of the digits `0` to `9`.
pub open spec fn is_digit(c: char) -> bool {
    48 <= c as u32 <= 57
}

/// Every character of `s` is a digit.
pub open spec fn all_digits(s: Seq<char>) -> bool {
    forall|i: int| 0 <= i < s.len() ==> is_digit(#[trigger] s[i])
}

/// The number that the digits of `s` write in base ten.
pub open spec fn digits_value(s: Seq<char>) -> int
    decreases s.len(),
{
    if s.len() == 0 {
        0
    } else {
        digits_value(s.drop_last()) * 10 + (s.last() as u32 - 48)
    }
}

/// The digits of a signed decimal numeral, without its sign.
pub open spec fn numeral_body(s: Seq<char>) -> Seq<char> {
    if s.len() > 0 && (s[0] == '-' || s[0] == '+') {
        s.subrange(1, s.len() as int)
    } else {
        s
    }
}

/// The value of a signed decimal numeral: an optional sign and at least one
/// digit, nothing else, with a value that a 32-bit integer holds.
pub open spec fn decimal_i32(s: Seq<char>) -> Option<i32> {
    let body = numeral_body(s);
    let value = if s.len() > 0 && s[0] == '-' {
        -digits_value(body)
    } else {
        digits_value(body)
    };
    if body.len() > 0 && all_digits(body) && i32::MIN <= value <= i32::MAX {
        Some(value as i32)
    } else {
        None
    }
}

/// Digits write a number that is not negative and does not shrink as more
/// digits follow.
pub proof fn lemma_digits_grow(s: Seq<char>, k: int)
    requires
        all_digits(s),
        0 <= k <= s.len(),
    ensures
        0 <= digits_value(s.take(k)) <= digits_value(s),
    decreases s.len() - k,
{
    lemma_digits_not_negative(s.take(k));
    if k < s.len() {
        lemma_digits_grow(s, k + 1);
        assert(s.take(k + 1).drop_last() =~= s.take(k));
        assert(is_digit(s[k]));
    } else {
        assert(s.take(k) =~= s);
    }
}

/// Digits write a number that is not negative.
pub proof fn lemma_digits_not_negative(s: Seq<char>)
    requires
        all_digits(s),
    ensures
        0 <= digits_value(s),
    decreases s.len(),
{
    if s.len() > 0 {
        lemma_digits_not_negative(s.drop_last());
        assert(is_digit(s[s.len() - 1]));
    }
}

/// Reads a signed decimal numeral.
pub fn parse_i32(text: &str) -> (value: Option<i32>)
    ensures
        value == decimal_i32(text@),
{
    let chars = chars_of(text);
    let n = chars.len();
    if n == 0 {
        return None;
    }
    let negative = chars[0] == '-';
    let start: usize = if chars[0] == '-' || chars[0] == '+' {
        1
    } else {
        0
    };
    let ghost body = numeral_body(text@);
    assert(body =~= chars@.subrange(start as int, n as int));
    if start == n {
        return None;
    }
    let mut magnitude: i64 = 0;
    let mut i: usize = start;
    while i < n
        invariant
            start <= i <= n,
            n == chars@.len(),
            body == chars@.subrange(start as int, n as int),
            body == numeral_body(text@),
            body.len() > 0,
            all_digits(body.take(i - start)),
            magnitude == digits_value(body.take(i - start)),
            0 <= magnitude <= 0x8000_0000,
        decreases n - i,
    {
        let code = chars[i] as u32;
        assert(body[i - start] == chars@[i as int]);
        if code < 48 || code > 57 {
            assert(!is_digit(body[i - start]));
            return None;
        }
        assert(body.take(i - start + 1).drop_last() =~= body.take(i - start));
        let ghost grown = magnitude * 10 + (code - 48);
        assert(grown == digits_value(body.take(i - start + 1)));
        if magnitude * 10 + (code - 48) as i64 > 0x8000_0000 {
            proof {
                if all_digits(body) {
                    lemma_digits_grow(body, i - start + 1);
                }
            }
            return None;
        }
        magnitude = magnitude * 10 + (code - 48) as i64;
        i = i + 1;
    }
    assert(body.take(n - start) =~= body);
    if negative {
        Some((-magnitude) as i32)
    } else if magnitude <= 0x7fff_ffff {
        Some(magnitude as i32)
    } else {
        None
    }
}

/// What the store holds for `options`, as mathematical values.
pub struct OptionTexts {
    pub face_recog_type: Option<Seq<char>>,
    pub face_recog_delay_ms: Option<u32>,
    pub camera: Option<Seq<char>>,
    pub retry_delay_ms: Option<i32>,
    pub liveness_enabled: Option<Seq<char>>,
    pub liveness_threshold_pct: Option<u32>,
}

/// The view of an optional string.
pub open spec fn text_of(value: Option<String>) -> Option<Seq<char>> {
    match value {
        Some(s) => Some(s@),
        None => None,
    }
}

impl View for StoredOptions {
    type V = OptionTexts;

    open spec fn view(&self) -> OptionTexts {
        OptionTexts {
            face_recog_type: text_of(self.face_recog_type),
            face_recog_delay_ms: self.face_recog_delay_ms,
            camera: text_of(self.camera),
            retry_delay_ms: self.retry_delay_ms,
            liveness_enabled: text_of(self.liveness_enabled),
            liveness_threshold_pct: self.liveness_threshold_pct,
        }
    }
}

impl OptionTexts {
    /// The value of `faceRecogType`, or `operation` where it is missing.
    pub open spec fn recog_type(self) -> Seq<char> {
        match self.face_recog_type {
            Some(t) => t,
            None => OPERATION@,
        }
    }

    /// The camera index: the value of `camera` as a number, or 0 where it is
    /// missing or not a number.
    pub open spec fn camera_index(self) -> i32 {
        match self.camera {
            Some(t) => match decimal_i32(t) {
                Some(index) => index,
                None => 0,
            },
            None => 0,
        }
    }

    /// The configuration that these options give, each with its default:
    /// delays of ten seconds, camera 0, liveness off, threshold 50 percent.
    pub open spec fn config(self) -> SessionConfig {
        SessionConfig {
            mode: mode_of(self.recog_type()),
            delay_ms: match self.face_recog_delay_ms {
                Some(ms) => ms,
                None => DEFAULT_FACE_RECOG_DELAY_MS,
            },
            camera_index: self.camera_index(),
            retry_delay_ms: match self.retry_delay_ms {
                Some(ms) => ms,
                None => DEFAULT_RETRY_DELAY_MS,
            },
            liveness_enabled: self.liveness_enabled == Some("true"@),
            liveness_threshold_pct: match self.liveness_threshold_pct {
                Some(pct) => pct,
                None => DEFAULT_LIVENESS_THRESHOLD_PCT,
            },
        }
    }
}

impl SessionConfig {
    /// The configuration before any option was loaded.
    pub open spec fn initial() -> SessionConfig {
        SessionConfig {
            mode: Mode::Immediate,
            delay_ms: DEFAULT_FACE_RECOG_DELAY_MS,
            camera_index: 0,
            retry_delay_ms: DEFAULT_RETRY_DELAY_MS,
            liveness_enabled: false,
            liveness_threshold_pct: DEFAULT_LIVENESS_THRESHOLD_PCT,
        }
    }

    /// The configuration before any option was loaded: immediate mode and
    /// every default.
    pub fn new() -> (config: SessionConfig)
        ensures
            config == SessionConfig::initial(),
    {
        SessionConfig {
            mode: Mode::Immediate,
            delay_ms: DEFAULT_FACE_RECOG_DELAY_MS,
            camera_index: 0,
            retry_delay_ms: DEFAULT_RETRY_DELAY_MS,
            liveness_enabled: false,
            liveness_threshold_pct: DEFAULT_LIVENESS_THRESHOLD_PCT,
        }
    }

    /// Builds the configuration from the options of the store. No input makes
    /// this fail: what is missing or malformed takes its default.
    pub fn from_options(options: &StoredOptions) -> (config: SessionConfig)
        ensures
            config == options@.config(),
    {
        let mode = match &options.face_recog_type {
            Some(t) => mode_for(t.as_str()),
            None => Mode::Immediate,
        };
        let camera_index = match &options.camera {
            Some(t) => match parse_i32(t.as_str()) {
                Some(index) => index,
                None => 0,
            },
            None => 0,
        };
        let liveness_enabled = match &options.liveness_enabled {
            Some(t) => same_text(t.as_str(), "true"),
            None => false,
        };
        SessionConfig {
            mode,
            delay_ms: match options.face_recog_delay_ms {
                Some(ms) => ms,
                None => DEFAULT_FACE_RECOG_DELAY_MS,
            },
            camera_index,
            retry_delay_ms: match options.retry_delay_ms {
                Some(ms) => ms,
                None => DEFAULT_RETRY_DELAY_MS,
            },
            liveness_enabled,
            liveness_threshold_pct: match options.liveness_threshold_pct {
                Some(pct) => pct,
                None => DEFAULT_LIVENESS_THRESHOLD_PCT,
            },
        }
    }
}

/// The mode that a value of the option `faceRecogType` selects: immediate for
/// `operation`, delayed for anything else.
pub fn mode_for(face_recog_type: &str) -> (mode: Mode)
    ensures
        mode == mode_of(face_recog_type@),
{
    if same_text(face_recog_type, OPERATION) {
        Mode::Immediate
    } else {
        Mode::Delayed
    }
}

} // verus!
