//! Helpers on text: the characters of a string, comparison, the fields of a
//! message and trimming.

use vstd::prelude::*;

verus! {

/// Whether `c` has the Unicode property White_Space: the controls from tab
/// to carriage return, the space, the next-line control, the no-break
/// space, the Ogham space mark, the spaces from en quad to hair space, the
/// line and the paragraph separator, the narrow no-break space, the medium
/// mathematical space and the ideographic space.
pub open spec fn is_white_space(c: char) -> bool {
    let code = c as u32;
    ||| 0x09 <= code <= 0x0D
    ||| code == 0x20
    ||| code == 0x85
    ||| code == 0xA0
    ||| code == 0x1680
    ||| 0x2000 <= code <= 0x200A
    ||| code == 0x2028
    ||| code == 0x2029
    ||| code == 0x202F
    ||| code == 0x205F
    ||| code == 0x3000
}

/// Calls `char::is_whitespace`, which says whether a character has the
/// Unicode property White_Space. The contract claims that these are the
/// characters that `is_white_space` lists.
#[verifier::external_body]
fn char_is_whitespace(c: char) -> (white: bool)
    ensures
        white == is_white_space(c),
{
    c.is_whitespace()
}

/// What is removed from the two ends of a text.
#[derive(Clone, Copy, Debug, PartialEq, Eq, Structural)]
pub enum Strip {
    /// Characters with the Unicode property White_Space.
    WhiteSpace,
    /// The character with code zero.
    Nul,
}

/// Whether `c` is removed under `kind`.
pub open spec fn strips(kind: Strip, c: char) -> bool {
    match kind {
        Strip::WhiteSpace => is_white_space(c),
        Strip::Nul => c == '\0',
    }
}

/// Position at or after `from` of the first character that stays, or the
/// length of `s` if none stays.
pub open spec fn skip_front(s: Seq<char>, kind: Strip, from: int) -> int
    decreases s.len() - from,
{
    if 0 <= from < s.len() && strips(kind, s[from]) {
        skip_front(s, kind, from + 1)
    } else {
        from
    }
}

/// Position at or before `to` just behind the last character that stays, or 0
/// if none stays.
pub open spec fn skip_back(s: Seq<char>, kind: Strip, to: int) -> int
    decreases to,
{
    if 0 < to <= s.len() && strips(kind, s[to - 1]) {
        skip_back(s, kind, to - 1)
    } else {
        to
    }
}

/// `s` without the characters of `kind` at its two ends.
pub open spec fn trimmed(s: Seq<char>, kind: Strip) -> Seq<char> {
    let first = skip_front(s, kind, 0);
    let end = skip_back(s, kind, s.len() as int);
    if first < end {
        s.subrange(first, end)
    } else {
        Seq::empty()
    }
}

/// The separator `::` stands at position `at` of `s`.
pub open spec fn separator_at(s: Seq<char>, at: int) -> bool {
    0 <= at && at + 1 < s.len() && s[at] == ':' && s[at + 1] == ':'
}

/// The fields of `s` from position `start` on, where positions before `at`
/// are known to hold no separator that begins at or after `start`.
pub open spec fn fields_from(s: Seq<char>, start: int, at: int) -> Seq<Seq<char>>
    decreases s.len() - at,
{
    if at < 0 || at + 1 >= s.len() {
        seq![s.subrange(start, s.len() as int)]
    } else if separator_at(s, at) {
        seq![s.subrange(start, at)] + fields_from(s, at + 2, at + 2)
    } else {
        fields_from(s, start, at + 1)
    }
}

/// The fields of `s`: the pieces between its separators `::`, found from the
/// left and never overlapping. A text without a separator is one field.
pub open spec fn fields(s: Seq<char>) -> Seq<Seq<char>> {
    fields_from(s, 0, 0)
}

/// The views of a sequence of strings.
pub open spec fn texts(strings: Seq<String>) -> Seq<Seq<char>> {
    strings.map_values(|s: String| s@)
}

/// Where no separator stands in `[at, next)` and one stands at `next`, the
/// field that began at `start` ends at `next`.
pub proof fn lemma_fields_to_separator(s: Seq<char>, start: int, at: int, next: int)
    requires
        0 <= at <= next,
        separator_at(s, next),
        forall|k: int| at <= k < next ==> !separator_at(s, k),
    ensures
        fields_from(s, start, at) == seq![s.subrange(start, next)] + fields_from(
            s,
            next + 2,
            next + 2,
        ),
    decreases next - at,
{
    if at < next {
        lemma_fields_to_separator(s, start, at + 1, next);
    }
}

/// Where no separator stands at or after `at`, the field that began at
/// `start` is the last one.
pub proof fn lemma_fields_last(s: Seq<char>, start: int, at: int)
    requires
        0 <= at,
        forall|k: int| at <= k ==> !separator_at(s, k),
    ensures
        fields_from(s, start, at) == seq![s.subrange(start, s.len() as int)],
    decreases s.len() - at,
{
    if at + 1 < s.len() {
        lemma_fields_last(s, start, at + 1);
    }
}

/// The characters of `s`, one per element.
pub fn chars_of(s: &str) -> (chars: Vec<char>)
    ensures
        chars@ == s@,
{
    let mut chars: Vec<char> = Vec::new();
    for c in it: s.chars()
        invariant
            chars@ == it.seq().take(it.index()),
            it.seq() == s@,
    {
        chars.push(c);
    }
    chars
}

/// Whether two texts hold the same characters.
pub fn same_text(a: &str, b: &str) -> (same: bool)
    ensures
        same == (a@ == b@),
{
    let left = chars_of(a);
    let right = chars_of(b);
    if left.len() != right.len() {
        return false;
    }
    let mut i: usize = 0;
    while i < left.len()
        invariant
            i <= left.len(),
            left.len() == right.len(),
            left@ == a@,
            right@ == b@,
            forall|k: int| 0 <= k < i ==> left@[k] == right@[k],
        decreases left.len() - i,
    {
        if left[i] != right[i] {
            return false;
        }
        i = i + 1;
    }
    assert(left@ =~= right@);
    true
}

/// Whether `s` begins with `prefix`.
pub fn begins_with(s: &str, prefix: &str) -> (begins: bool)
    ensures
        begins == (prefix@.len() <= s@.len() && s@.subrange(0, prefix@.len() as int) == prefix@),
{
    let text = chars_of(s);
    let head = chars_of(prefix);
    if head.len() > text.len() {
        return false;
    }
    let mut i: usize = 0;
    while i < head.len()
        invariant
            i <= head.len() <= text.len(),
            text@ == s@,
            head@ == prefix@,
            forall|k: int| 0 <= k < i ==> text@[k] == head@[k],
        decreases head.len() - i,
    {
        if text[i] != head[i] {
            assert(s@.subrange(0, prefix@.len() as int)[i as int] != prefix@[i as int]);
            return false;
        }
        i = i + 1;
    }
    assert(text@.subrange(0, head@.len() as int) =~= head@);
    true
}

fn is_stripped(kind: Strip, c: char) -> (gone: bool)
    ensures
        gone == strips(kind, c),
{
    match kind {
        Strip::WhiteSpace => char_is_whitespace(c),
        Strip::Nul => c == '\0',
    }
}

/// Removes the characters of `kind` from the two ends of `s`.
pub fn trim<'a>(s: &'a str, kind: Strip) -> (kept: &'a str)
    ensures
        kept@ == trimmed(s@, kind),
{
    let chars = chars_of(s);
    let n = chars.len();
    let mut first: usize = 0;
    while first < n && is_stripped(kind, chars[first])
        invariant
            first <= n,
            n == chars@.len(),
            skip_front(chars@, kind, 0) == skip_front(chars@, kind, first as int),
        decreases n - first,
    {
        first = first + 1;
    }
    let mut end: usize = n;
    while end > first && is_stripped(kind, chars[end - 1])
        invariant
            first <= end <= n,
            n == chars@.len(),
            first < n ==> !strips(kind, chars@[first as int]) && first < end,
            skip_back(chars@, kind, n as int) == skip_back(chars@, kind, end as int),
        decreases end,
    {
        end = end - 1;
    }
    proof {
        assert(skip_front(chars@, kind, 0) == first);
        if first < n {
            assert(first < end);
            assert(skip_back(chars@, kind, n as int) == end);
        } else {
            lemma_skip_back_bounds(chars@, kind, n as int);
        }
    }
    s.substring_char(first, end)
}

/// `skip_back` never moves forward and never leaves the text.
pub proof fn lemma_skip_back_bounds(s: Seq<char>, kind: Strip, to: int)
    requires
        0 <= to <= s.len(),
    ensures
        0 <= skip_back(s, kind, to) <= to,
    decreases to,
{
    if 0 < to && strips(kind, s[to - 1]) {
        lemma_skip_back_bounds(s, kind, to - 1);
    }
}

/// A text whose first and last characters stay is its own trimmed form, and
/// so is the empty text.
pub proof fn lemma_trimmed_is_identity(s: Seq<char>, kind: Strip)
    requires
        s.len() > 0 ==> !strips(kind, s[0]) && !strips(kind, s[s.len() - 1]),
    ensures
        trimmed(s, kind) == s,
{
    if s.len() > 0 {
        assert(s.subrange(0, s.len() as int) =~= s);
    } else {
        assert(Seq::<char>::empty() =~= s);
    }
}

/// A closing zero is all that trimming takes from a text that neither
/// begins nor ends with the zero character.
pub proof fn lemma_trimmed_drops_closing_nul(s: Seq<char>)
    requires
        s.len() > 0 ==> s[0] != '\0' && s[s.len() - 1] != '\0',
    ensures
        trimmed(s.push('\0'), Strip::Nul) == s,
{
    let closed = s.push('\0');
    let n = s.len() as int;
    if n > 0 {
        assert(skip_front(closed, Strip::Nul, 0) == 0);
        assert(skip_back(closed, Strip::Nul, n + 1) == skip_back(closed, Strip::Nul, n));
        assert(skip_back(closed, Strip::Nul, n) == n);
        assert(closed.subrange(0, n) =~= s);
    } else {
        assert(skip_front(closed, Strip::Nul, 1) == 1);
        assert(skip_front(closed, Strip::Nul, 0) == 1);
        assert(skip_back(closed, Strip::Nul, 0) == 0);
        assert(skip_back(closed, Strip::Nul, 1) == 0);
        assert(Seq::<char>::empty() =~= s);
    }
}

/// Splits `s` at its separators `::`.
pub fn split_fields(s: &str) -> (out: Vec<String>)
    ensures
        texts(out@) == fields(s@),
{
    let chars = chars_of(s);
    let n = chars.len();
    let mut out: Vec<String> = Vec::new();
    let mut start: usize = 0;
    let mut at: usize = 0;
    assert(texts(out@) =~= Seq::<Seq<char>>::empty());
    while n - at > 1
        invariant
            start <= at <= n,
            n == chars@.len(),
            chars@ == s@,
            fields(s@) == texts(out@) + fields_from(s@, start as int, at as int),
        decreases n - at,
    {
        if chars[at] == ':' && chars[at + 1] == ':' {
            let field = s.substring_char(start, at).to_owned();
            let ghost before = out@;
            out.push(field);
            assert(texts(out@) =~= texts(before) + seq![s@.subrange(start as int, at as int)]);
            at = at + 2;
            start = at;
        } else {
            at = at + 1;
        }
    }
    let field = s.substring_char(start, n).to_owned();
    let ghost before = out@;
    out.push(field);
    assert(texts(out@) =~= texts(before) + seq![s@.subrange(start as int, n as int)]);
    out
}

} // verus!
