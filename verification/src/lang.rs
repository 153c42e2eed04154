//! Extension-based language inference for the two front-end commands: which
//! language a file path belongs to, and whether that language supports the
//! requested command.

use vstd::prelude::*;
use vstd::string::*;

use crate::analyzer::spec_opt_str;
use crate::text::{eq_ignore_ascii_case, spec_eq_lower};

verus! {

/// The two front-end commands.
#[derive(Debug, Clone, Copy, PartialEq, Eq)]
pub enum Command {
    Parse,
    Analyze,
}

/// Length of `s` with trailing `/` separators removed.
pub open spec fn spec_trimmed_len(s: Seq<char>) -> int
    decreases s.len(),
{
    if s.len() > 0 && s.last() == '/' {
        spec_trimmed_len(s.drop_last())
    } else {
        s.len() as int
    }
}

/// The largest index of `c` among the first `end` characters of `s`, or -1
/// when there is none.
pub open spec fn spec_find_last(s: Seq<char>, c: char, end: int) -> int
    decreases end,
{
    if end <= 0 {
        -1
    } else if s[end - 1] == c {
        end - 1
    } else {
        spec_find_last(s, c, end - 1)
    }
}

/// The extension of a path: within the final component (after the last
/// separator, ignoring trailing separators), the part after the last dot,
/// provided that dot is not the component's first character.
pub open spec fn spec_extension(path: Seq<char>) -> Option<Seq<char>> {
    let end = spec_trimmed_len(path);
    let start = spec_find_last(path, '/', end) + 1;
    let dot = spec_find_last(path, '.', end);
    if dot > start {
        Some(path.subrange(dot + 1, end))
    } else {
        None
    }
}

/// The language name for a path and command: the extension decides the
/// language, and the command decides whether that language is available
/// (parsing and analysis support different language sets). The extension is
/// matched ASCII-case-insensitively.
pub open spec fn spec_infer_language(path: Seq<char>, command: Command) -> Option<Seq<char>> {
    match spec_extension(path) {
        None => None,
        Some(e) => {
            if spec_eq_lower(e, "rs"@) {
                Some("Rust"@)
            } else if spec_eq_lower(e, "java"@) {
                if command == Command::Parse {
                    Some("Java"@)
                } else {
                    None
                }
            } else if spec_eq_lower(e, "zig"@) {
                if command == Command::Parse {
                    Some("Zig"@)
                } else {
                    None
                }
            } else if spec_eq_lower(e, "c"@) || spec_eq_lower(e, "h"@) {
                if command == Command::Parse {
                    Some("C"@)
                } else {
                    None
                }
            } else if spec_eq_lower(e, "js"@) || spec_eq_lower(e, "jsx"@) {
                Some("JavaScript"@)
            } else if spec_eq_lower(e, "ts"@) || spec_eq_lower(e, "tsx"@) {
                if command == Command::Parse {
                    Some("TypeScript"@)
                } else {
                    None
                }
            } else if spec_eq_lower(e, "cpp"@) || spec_eq_lower(e, "cc"@) || spec_eq_lower(
                e,
                "cxx"@,
            ) || spec_eq_lower(e, "hpp"@) || spec_eq_lower(e, "hxx"@) {
                if command == Command::Parse {
                    Some("C++"@)
                } else {
                    None
                }
            } else if spec_eq_lower(e, "go"@) {
                if command == Command::Analyze {
                    Some("Go"@)
                } else {
                    None
                }
            } else {
                None
            }
        },
    }
}

/// The largest index of `c` among the first `end` characters of `s`, if any.
fn find_last_before(s: &str, c: char, end: usize) -> (r: Option<usize>)
    requires
        end <= s@.len(),
    ensures
        match r {
            Some(i) => i < end && spec_find_last(s@, c, end as int) == i as int,
            None => spec_find_last(s@, c, end as int) == -1,
        },
{
    let mut j: usize = end;
    while j > 0
        invariant
            j <= end <= s@.len(),
            spec_find_last(s@, c, end as int) == spec_find_last(s@, c, j as int),
        decreases j,
    {
        if s.get_char(j - 1) == c {
            return Some(j - 1);
        }
        j -= 1;
    }
    None
}

/// Infers the language of `file_path` from its extension, gated on whether
/// `command` supports that language.
pub fn infer_language_from_path(file_path: &str, command: &Command) -> (r: Option<String>)
    ensures
        spec_opt_str(r) == spec_infer_language(file_path@, *command),
{
    let len = file_path.unicode_len();
    let mut end: usize = len;
    proof {
        assert(file_path@.take(len as int) =~= file_path@);
    }
    while end > 0 && file_path.get_char(end - 1) == '/'
        invariant
            end <= len,
            len == file_path@.len(),
            spec_trimmed_len(file_path@) == spec_trimmed_len(file_path@.take(end as int)),
        decreases end,
    {
        proof {
            assert(file_path@.take(end as int).drop_last() =~= file_path@.take(end - 1));
            assert(file_path@.take(end as int).last() == file_path@[end - 1]);
        }
        end -= 1;
    }
    proof {
        if end > 0 {
            assert(file_path@.take(end as int).last() == file_path@[end - 1]);
        }
        assert(spec_trimmed_len(file_path@.take(end as int)) == end);
    }
    let start: usize = match find_last_before(file_path, '/', end) {
        Some(i) => i + 1,
        None => 0,
    };
    let ext: Option<&str> = match find_last_before(file_path, '.', end) {
        Some(d) => {
            if d > start {
                Some(file_path.substring_char(d + 1, end))
            } else {
                None
            }
        },
        None => None,
    };
    match ext {
        None => None,
        Some(e) => {
            if eq_ignore_ascii_case(e, "rs") {
                Some("Rust".to_owned())
            } else if eq_ignore_ascii_case(e, "java") {
                match command {
                    Command::Parse => Some("Java".to_owned()),
                    Command::Analyze => None,
                }
            } else if eq_ignore_ascii_case(e, "zig") {
                match command {
                    Command::Parse => Some("Zig".to_owned()),
                    Command::Analyze => None,
                }
            } else if eq_ignore_ascii_case(e, "c") || eq_ignore_ascii_case(e, "h") {
                match command {
                    Command::Parse => Some("C".to_owned()),
                    Command::Analyze => None,
                }
            } else if eq_ignore_ascii_case(e, "js") || eq_ignore_ascii_case(e, "jsx") {
                Some("JavaScript".to_owned())
            } else if eq_ignore_ascii_case(e, "ts") || eq_ignore_ascii_case(e, "tsx") {
                match command {
                    Command::Parse => Some("TypeScript".to_owned()),
                    Command::Analyze => None,
                }
            } else if eq_ignore_ascii_case(e, "cpp") || eq_ignore_ascii_case(e, "cc")
                || eq_ignore_ascii_case(e, "cxx") || eq_ignore_ascii_case(e, "hpp")
                || eq_ignore_ascii_case(e, "hxx") {
                match command {
                    Command::Parse => Some("C++".to_owned()),
                    Command::Analyze => None,
                }
            } else if eq_ignore_ascii_case(e, "go") {
                match command {
                    Command::Parse => None,
                    Command::Analyze => Some("Go".to_owned()),
                }
            } else {
                None
            }
        },
    }
}

} // verus!
