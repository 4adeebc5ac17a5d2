//! Helpers on the paths and command lines that the agent handles as text.

use vstd::prelude::*;
use crate::text::{begins_with, chars_of};

verus! {

/// The prefix that marks a path as verbatim.
pub const VERBATIM_PREFIX: &'static str = "\\\\?\\";

/// `path` without the verbatim prefix, where it has one.
pub open spec fn without_verbatim_prefix(path: Seq<char>) -> Seq<char> {
    if VERBATIM_PREFIX@.len() <= path.len() && path.subrange(0, VERBATIM_PREFIX@.len() as int)
        == VERBATIM_PREFIX@ {
        path.subrange(VERBATIM_PREFIX@.len() as int, path.len() as int)
    } else {
        path
    }
}

/// Takes the verbatim prefix off `path`, where it has one.
pub fn strip_verbatim_prefix<'a>(path: &'a str) -> (plain: &'a str)
    ensures
        plain@ == without_verbatim_prefix(path@),
{
    if begins_with(path, VERBATIM_PREFIX) {
        let skip = VERBATIM_PREFIX.unicode_len();
        let end = path.unicode_len();
        path.substring_char(skip, end)
    } else {
        path
    }
}

/// The command line for the program at `exe_path`: the path, in double
/// quotes where it holds a space and does not begin with a quote already,
/// then a space and the arguments where there are any.
pub open spec fn quoted_command(exe_path: Seq<char>, args: Option<Seq<char>>) -> Seq<char> {
    let quoted = if exe_path.contains(' ') && !(exe_path.len() > 0 && exe_path[0] == '"') {
        seq!['"'] + exe_path + seq!['"']
    } else {
        exe_path
    };
    match args {
        Some(arg) => quoted + seq![' '] + arg,
        None => quoted,
    }
}

/// Whether `c` occurs in `s`.
pub fn has_char(s: &str, c: char) -> (found: bool)
    ensures
        found == s@.contains(c),
{
    let chars = chars_of(s);
    let mut i: usize = 0;
    while i < chars.len()
        invariant
            i <= chars.len(),
            chars@ == s@,
            forall|k: int| 0 <= k < i ==> chars@[k] != c,
        decreases chars.len() - i,
    {
        if chars[i] == c {
            return true;
        }
        i = i + 1;
    }
    false
}

/// Writes the command line for the program at `exe_path`, so that only the
/// path stands in quotes and the arguments stay outside.
pub fn quote_exe_path_with_args(exe_path: &str, args: Option<&str>) -> (command: String)
    ensures
        command@ == quoted_command(
            exe_path@,
            match args {
                Some(arg) => Some(arg@),
                None => None,
            },
        ),
{
    proof {
        reveal_strlit("\"");
        reveal_strlit(" ");
    }
    assert("\""@ =~= seq!['"']);
    assert(" "@ =~= seq![' ']);
    let begins_quoted = exe_path.unicode_len() > 0 && exe_path.get_char(0) == '"';
    let mut command = if has_char(exe_path, ' ') && !begins_quoted {
        let mut quoted = "\"".to_owned();
        quoted.append(exe_path);
        quoted.append("\"");
        quoted
    } else {
        exe_path.to_owned()
    };
    match args {
        Some(arg) => {
            command.append(" ");
            command.append(arg);
        },
        None => {},
    }
    command
}

} // verus!
