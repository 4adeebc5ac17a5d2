//! The text protocol of the credential channel.
//!
//! A message is one short text per exchange. A control peer sends `run`,
//! `exit`, a liveness probe or a credential message; the agent sends the
//! broker a credential message on success and a sentinel on failure. On the
//! wire a message is its UTF-16 code units followed by one zero unit.

use vstd::prelude::*;
use vstd::slice::slice_subrange;
use crate::text::{
    fields, lemma_fields_last, lemma_fields_to_separator, lemma_trimmed_drops_closing_nul,
    same_text, separator_at, split_fields, texts, trim, trimmed, Strip,
};

verus! {

/// The tag that stands between account name and secret in a credential message.
pub const MARKER: &'static str = "FaceWinUnlock";

/// What stands for account name and secret in the failure sentinel.
pub const NOBODY: &'static str = "null";

/// The endpoint on which the agent listens for control messages.
pub const CONTROL_ENDPOINT: &'static str = "\\\\.\\pipe\\MansonWindowsUnlockRustUnlock";

/// The endpoint on which the broker listens for the outcome of an attempt.
pub const BROKER_ENDPOINT: &'static str = "\\\\.\\pipe\\MansonWindowsUnlockRustServer";

/// The number of code units that the buffer of one read holds.
pub const FRAME_UNITS: usize = 256;

/// The separator of the fields of a credential message.
pub open spec fn separator() -> Seq<char> {
    seq![':', ':']
}

/// The text of a credential message.
pub open spec fn credential_text(name: Seq<char>, marker: Seq<char>, secret: Seq<char>) -> Seq<char> {
    name + separator() + marker + separator() + secret
}

/// Account name and secret that `message` carries: it has exactly three
/// fields, the middle one is `marker`, and the outer two are taken without
/// white space at their ends. Any other message carries none.
pub open spec fn credentials_of(message: Seq<char>, marker: Seq<char>) -> Option<
    (Seq<char>, Seq<char>),
> {
    let parts = fields(message);
    if parts.len() == 3 && parts[1] == marker {
        Some((trimmed(parts[0], Strip::WhiteSpace), trimmed(parts[2], Strip::WhiteSpace)))
    } else {
        None
    }
}

/// `s` holds no separator.
pub open spec fn separator_free(s: Seq<char>) -> bool {
    forall|k: int| !separator_at(s, k)
}

/// `s` can stand in front of a separator without colliding with it: it holds
/// none and does not end in a colon.
pub open spec fn closes_cleanly(s: Seq<char>) -> bool {
    separator_free(s) && (s.len() > 0 ==> s[s.len() - 1] != ':')
}

/// A credential message whose parts do not collide with the separator has
/// exactly its three parts as fields.
pub proof fn lemma_credential_fields(name: Seq<char>, marker: Seq<char>, secret: Seq<char>)
    requires
        closes_cleanly(name),
        closes_cleanly(marker),
        separator_free(secret),
    ensures
        fields(credential_text(name, marker, secret)) == seq![name, marker, secret],
{
    let t = credential_text(name, marker, secret);
    let a = name.len() as int;
    let b = a + 2 + marker.len();
    let c = b + 2;
    assert(t.len() == c + secret.len());
    assert forall|k: int| 0 <= k < a implies !separator_at(t, k) by {
        if separator_at(t, k) {
            if k + 1 < a {
                assert(separator_at(name, k));
            }
        }
    }
    assert(separator_at(t, a));
    lemma_fields_to_separator(t, 0, 0, a);
    assert forall|k: int| a + 2 <= k < b implies !separator_at(t, k) by {
        if separator_at(t, k) {
            if k + 1 < b {
                assert(separator_at(marker, k - (a + 2)));
            }
        }
    }
    assert(separator_at(t, b));
    lemma_fields_to_separator(t, a + 2, a + 2, b);
    assert forall|k: int| c <= k implies !separator_at(t, k) by {
        if separator_at(t, k) {
            assert(separator_at(secret, k - c));
        }
    }
    lemma_fields_last(t, c, c);
    assert(t.subrange(0, a) =~= name);
    assert(t.subrange(a + 2, b) =~= marker);
    assert(t.subrange(c, t.len() as int) =~= secret);
    assert(fields(t) =~= seq![name, marker, secret]);
}

/// Writing a credential message and parsing it gives back account name and
/// secret, provided that neither part collides with the separator and that
/// name and secret carry no white space at their ends.
pub proof fn lemma_credentials_round_trip(name: Seq<char>, marker: Seq<char>, secret: Seq<char>)
    requires
        closes_cleanly(name),
        closes_cleanly(marker),
        separator_free(secret),
        trimmed(name, Strip::WhiteSpace) == name,
        trimmed(secret, Strip::WhiteSpace) == secret,
    ensures
        credentials_of(credential_text(name, marker, secret), marker) == Some((name, secret)),
{
    lemma_credential_fields(name, marker, secret);
}

/// A message with fewer than three fields carries no credentials.
pub proof fn lemma_too_few_fields_rejected(message: Seq<char>, marker: Seq<char>)
    requires
        fields(message).len() < 3,
    ensures
        credentials_of(message, marker) is None,
{
}

/// Writes the credential message for `account_name` and `account_secret`.
pub fn credential_message(account_name: &str, marker: &str, account_secret: &str) -> (message:
    String)
    ensures
        message@ == credential_text(account_name@, marker@, account_secret@),
{
    proof {
        reveal_strlit("::");
    }
    assert("::"@ =~= separator());
    let mut message = account_name.to_owned();
    message.append("::");
    message.append(marker);
    message.append("::");
    message.append(account_secret);
    message
}

/// Reads account name and secret out of a credential message, or nothing if
/// `message` is not one.
pub fn parse_credentials(message: &str, marker: &str) -> (parsed: Option<(String, String)>)
    ensures
        match parsed {
            Some((name, secret)) => credentials_of(message@, marker@) == Some((name@, secret@)),
            None => credentials_of(message@, marker@) is None,
        },
{
    let parts = split_fields(message);
    assert(texts(parts@).len() == parts@.len());
    if parts.len() == 3 && same_text(parts[1].as_str(), marker) {
        assert(texts(parts@)[0] == parts@[0]@);
        assert(texts(parts@)[1] == parts@[1]@);
        assert(texts(parts@)[2] == parts@[2]@);
        let name = trim(parts[0].as_str(), Strip::WhiteSpace).to_owned();
        let secret = trim(parts[2].as_str(), Strip::WhiteSpace).to_owned();
        Some((name, secret))
    } else {
        if parts.len() == 3 {
            assert(texts(parts@)[1] == parts@[1]@);
        }
        None
    }
}

/// The message that tells the broker which account to log on.
pub fn broker_message(account_name: &str, account_secret: &str) -> (message: String)
    ensures
        message@ == credential_text(account_name@, MARKER@, account_secret@),
{
    credential_message(account_name, MARKER, account_secret)
}

/// The message that tells the broker to fall back to manual login.
pub fn failure_message() -> (message: String)
    ensures
        message@ == credential_text(NOBODY@, MARKER@, NOBODY@),
{
    credential_message(NOBODY, MARKER, NOBODY)
}

/// A message of the control channel, read.
#[derive(Debug)]
pub enum ControlMessage {
    /// `run`: start an attempt if the governor permits.
    Run,
    /// `exit`: shut the agent down.
    Exit,
    /// `hello server`: a liveness probe; nothing changes.
    Probe,
    /// Credentials supplied by hand, to be forwarded as if matched.
    Credentials { account_name: String, account_secret: String },
    /// Anything else; dropped.
    Unknown,
}

/// The mathematical value of a control message.
pub enum ControlText {
    Run,
    Exit,
    Probe,
    Credentials { account_name: Seq<char>, account_secret: Seq<char> },
    Unknown,
}

impl View for ControlMessage {
    type V = ControlText;

    open spec fn view(&self) -> ControlText {
        match self {
            ControlMessage::Run => ControlText::Run,
            ControlMessage::Exit => ControlText::Exit,
            ControlMessage::Probe => ControlText::Probe,
            ControlMessage::Credentials { account_name, account_secret } => ControlText::Credentials {
                account_name: account_name@,
                account_secret: account_secret@,
            },
            ControlMessage::Unknown => ControlText::Unknown,
        }
    }
}

/// What a text on the control channel means.
pub open spec fn control_text(content: Seq<char>) -> ControlText {
    if content == "exit"@ {
        ControlText::Exit
    } else if content == "run"@ {
        ControlText::Run
    } else if content == "hello server"@ {
        ControlText::Probe
    } else {
        match credentials_of(content, MARKER@) {
            Some((name, secret)) => ControlText::Credentials {
                account_name: name,
                account_secret: secret,
            },
            None => ControlText::Unknown,
        }
    }
}

/// Reads a message of the control channel.
pub fn classify(content: &str) -> (message: ControlMessage)
    ensures
        message@ == control_text(content@),
{
    if same_text(content, "exit") {
        ControlMessage::Exit
    } else if same_text(content, "run") {
        ControlMessage::Run
    } else if same_text(content, "hello server") {
        ControlMessage::Probe
    } else {
        match parse_credentials(content, MARKER) {
            Some((account_name, account_secret)) => ControlMessage::Credentials {
                account_name,
                account_secret,
            },
            None => ControlMessage::Unknown,
        }
    }
}

/// The UTF-16 code units of one character: itself below the supplementary
/// planes, a surrogate pair above.
pub open spec fn utf16_units_of(c: char) -> Seq<u16> {
    let code = c as u32;
    if code < 0x10000 {
        seq![code as u16]
    } else {
        seq![
            (0xD800 + (code - 0x10000) / 0x400) as u16,
            (0xDC00 + (code - 0x10000) % 0x400) as u16,
        ]
    }
}

/// The UTF-16 code units of a text.
pub open spec fn utf16_of(s: Seq<char>) -> Seq<u16>
    decreases s.len(),
{
    if s.len() == 0 {
        Seq::empty()
    } else {
        utf16_of(s.drop_last()) + utf16_units_of(s.last())
    }
}

/// A message as it goes over the wire: its code units and a closing zero.
pub open spec fn frame_of(content: Seq<char>) -> Seq<u16> {
    utf16_of(content) + seq![0u16]
}

/// Encodes a message for the wire.
pub fn encode_frame(content: &str) -> (frame: Vec<u16>)
    ensures
        frame@ == frame_of(content@),
{
    let chars = crate::text::chars_of(content);
    let mut frame: Vec<u16> = Vec::new();
    let mut i: usize = 0;
    while i < chars.len()
        invariant
            i <= chars.len(),
            frame@ == utf16_of(chars@.take(i as int)),
        decreases chars.len() - i,
    {
        let c = chars[i];
        let code = c as u32;
        proof {
            vstd::utf8::char_is_scalar(c);
        }
        let ghost before = frame@;
        if code < 0x10000 {
            frame.push(code as u16);
        } else {
            let rest: u32 = code - 0x10000;
            frame.push((0xD800 + rest / 0x400) as u16);
            frame.push((0xDC00 + rest % 0x400) as u16);
        }
        assert(frame@ =~= before + utf16_units_of(c));
        assert(chars@.take(i + 1).drop_last() =~= chars@.take(i as int));
        i = i + 1;
    }
    assert(chars@.take(i as int) =~= chars@);
    frame.push(0);
    frame
}

/// `unit` is one half of a surrogate pair.
pub open spec fn is_surrogate(unit: u16) -> bool {
    0xD800 <= unit <= 0xDFFF
}

/// No unit of `units` is a surrogate: each stands for a character by itself.
pub open spec fn surrogate_free(units: Seq<u16>) -> bool {
    forall|i: int| 0 <= i < units.len() ==> !is_surrogate(#[trigger] units[i])
}

/// `text` holds, character for character, the code points that `units` hold.
pub open spec fn spells(text: Seq<char>, units: Seq<u16>) -> bool {
    &&& text.len() == units.len()
    &&& forall|i: int| 0 <= i < units.len() ==> (#[trigger] text[i]) as u32 == units[i] as u32
}

/// Every character of `s` lies in the basic plane, so that one code unit
/// holds it.
pub open spec fn basic(s: Seq<char>) -> bool {
    forall|i: int| 0 <= i < s.len() ==> ((#[trigger] s[i]) as u32) < 0x10000
}

/// `s` neither begins nor ends with the zero character.
pub open spec fn unpadded(s: Seq<char>) -> bool {
    s.len() > 0 ==> s[0] != '\0' && s[s.len() - 1] != '\0'
}

/// A text of the basic plane is encoded unit for character, and none of its
/// units is a surrogate.
pub proof fn lemma_basic_text_encodes_plainly(s: Seq<char>)
    requires
        basic(s),
    ensures
        spells(s, utf16_of(s)),
        surrogate_free(utf16_of(s)),
    decreases s.len(),
{
    if s.len() > 0 {
        let head = s.drop_last();
        let last = s.last();
        assert(basic(head)) by {
            assert forall|i: int| 0 <= i < head.len() implies ((#[trigger] head[i]) as u32)
                < 0x10000 by {
                assert(head[i] == s[i]);
            }
        }
        lemma_basic_text_encodes_plainly(head);
        assert(last == s[s.len() - 1]);
        vstd::utf8::char_is_scalar(last);
        assert(utf16_units_of(last) =~= seq![(last as u32) as u16]);
        let units = utf16_of(s);
        assert(units =~= utf16_of(head) + seq![(last as u32) as u16]);
        assert forall|i: int| 0 <= i < units.len() implies (#[trigger] s[i]) as u32
            == units[i] as u32 by {
            if i < head.len() {
                assert(s[i] == head[i]);
            }
        }
        assert forall|i: int| 0 <= i < units.len() implies !is_surrogate(#[trigger] units[i]) by {
            if i < head.len() {
                assert(units[i] == utf16_of(head)[i]);
            }
        }
    }
}

/// Units that hold no surrogate spell one text only.
pub proof fn lemma_spelling_is_unique(first: Seq<char>, second: Seq<char>, units: Seq<u16>)
    requires
        spells(first, units),
        spells(second, units),
    ensures
        first == second,
{
    assert forall|i: int| 0 <= i < first.len() implies first[i] == second[i] by {
        vstd::utf8::char_u32_cast(first[i], first[i] as u32);
        vstd::utf8::char_u32_cast(second[i], second[i] as u32);
    }
    assert(first =~= second);
}

/// The frame of a text of the basic plane is the encoding of the text and
/// its closing zero: a unit for each character, and no surrogate among them.
pub proof fn lemma_frame_spells_text(s: Seq<char>)
    requires
        basic(s),
    ensures
        spells(s.push('\0'), frame_of(s)),
        surrogate_free(frame_of(s)),
{
    let closed = s.push('\0');
    assert(closed.drop_last() =~= s);
    assert(utf16_units_of('\0') =~= seq![0u16]);
    assert(utf16_of(closed) =~= frame_of(s));
    assert(basic(closed));
    lemma_basic_text_encodes_plainly(closed);
}

/// The text that `String::from_utf16_lossy` decodes from `units`.
pub uninterp spec fn utf16_lossy(units: Seq<u16>) -> Seq<char>;

/// Calls `String::from_utf16_lossy`, which decodes UTF-16 and puts the
/// replacement character in place of what is not valid. The contract gives
/// the decoded text the name `utf16_lossy(units)`, and claims of it what
/// the encoding itself fixes: units of which none is a surrogate stand
/// each for the character with that code point.
#[verifier::external_body]
fn decode_utf16_lossy(units: &[u16]) -> (text: String)
    ensures
        text@ == utf16_lossy(units@),
        surrogate_free(units@) ==> spells(text@, units@),
{
    String::from_utf16_lossy(units)
}

/// The code units of `buffer` that a read of `bytes_read` bytes has filled.
pub open spec fn units_read(buffer: Seq<u16>, bytes_read: u32) -> Seq<u16> {
    buffer.subrange(0, bytes_read as int / 2)
}

/// Decodes the message that a read of `bytes_read` bytes left in `buffer`:
/// the filled code units as text, without the zeros at its ends. What
/// `encode_frame` wrote is read back: where the units are the frame of a
/// text of the basic plane that neither begins nor ends with the zero
/// character, the message is that text.
pub fn decode_frame(buffer: &[u16], bytes_read: u32) -> (content: String)
    requires
        bytes_read as int / 2 <= buffer@.len(),
    ensures
        content@ == trimmed(utf16_lossy(units_read(buffer@, bytes_read)), Strip::Nul),
        forall|s: Seq<char>|
            #![trigger frame_of(s)]
            basic(s) && unpadded(s) && units_read(buffer@, bytes_read) == frame_of(s)
                ==> content@ == s,
{
    let count: usize = (bytes_read / 2) as usize;
    let filled = slice_subrange(buffer, 0, count);
    let text = decode_utf16_lossy(filled);
    let content = trim(text.as_str(), Strip::Nul).to_owned();
    proof {
        assert(filled@ == units_read(buffer@, bytes_read));
        assert forall|s: Seq<char>|
            #![trigger frame_of(s)]
            basic(s) && unpadded(s) && units_read(buffer@, bytes_read) == frame_of(
                s,
            ) implies content@ == s by {
            lemma_frame_spells_text(s);
            lemma_spelling_is_unique(text@, s.push('\0'), filled@);
            lemma_trimmed_drops_closing_nul(s);
        }
    }
    content
}

} // verus!
