//! What the status boxes of a session say: how the session started, how
//! long paths are cut, and how full the context window is.

use vstd::prelude::*;
use vstd::string::StringExecFns;
use vstd::utf8::decode_utf8;
use vstd::utf8::encode_utf8;
use vstd::utf8::is_char_boundary;
use crate::paths::byte_len;
use crate::text::chars_of;
use crate::text::str_eq;

verus! {

/// How a session started.
#[derive(Clone, Copy, Debug, PartialEq, Eq, Structural)]
pub enum SessionStatus {
    /// An earlier session is taken up again.
    Resuming,
    /// The session is not recorded in a file.
    Unrecorded,
    /// A new session is recorded in a file.
    Starting,
}

/// Whether a session file is the null device, under which nothing is
/// recorded.
pub open spec fn is_null_device(session_file: Seq<char>) -> bool {
    session_file == "/dev/null"@ || session_file == "NUL"@
}

/// Whether a session file is the null device.
pub fn null_device(session_file: &str) -> (r: bool)
    ensures
        r == is_null_device(session_file@),
{
    str_eq(session_file, "/dev/null") || str_eq(session_file, "NUL")
}

impl SessionStatus {
    /// The status of a session: resuming goes before the kind of file.
    pub open spec fn of(resume: bool, session_file: Seq<char>) -> SessionStatus {
        if resume {
            SessionStatus::Resuming
        } else if is_null_device(session_file) {
            SessionStatus::Unrecorded
        } else {
            SessionStatus::Starting
        }
    }

    /// The symbol before the status text.
    pub open spec fn icon_text(self) -> Seq<char> {
        match self {
            SessionStatus::Resuming => "\u{21BB}"@,
            SessionStatus::Unrecorded => "\u{26A1}"@,
            SessionStatus::Starting => "\u{25B6}"@,
        }
    }

    /// The status text.
    pub open spec fn label_text(self) -> Seq<char> {
        match self {
            SessionStatus::Resuming => "Resuming session"@,
            SessionStatus::Unrecorded => "Running without session"@,
            SessionStatus::Starting => "Starting new session"@,
        }
    }

    /// Determines the status of a session.
    pub fn new(resume: bool, session_file: &str) -> (r: SessionStatus)
        ensures
            r == SessionStatus::of(resume, session_file@),
    {
        if resume {
            SessionStatus::Resuming
        } else if null_device(session_file) {
            SessionStatus::Unrecorded
        } else {
            SessionStatus::Starting
        }
    }

    /// The symbol before the status text.
    pub fn icon(&self) -> (r: &'static str)
        ensures
            r@ == self.icon_text(),
    {
        match self {
            SessionStatus::Resuming => "\u{21BB}",
            SessionStatus::Unrecorded => "\u{26A1}",
            SessionStatus::Starting => "\u{25B6}",
        }
    }

    /// The status text.
    pub fn label(&self) -> (r: &'static str)
        ensures
            r@ == self.label_text(),
    {
        match self {
            SessionStatus::Resuming => "Resuming session",
            SessionStatus::Unrecorded => "Running without session",
            SessionStatus::Starting => "Starting new session",
        }
    }
}

/// The longest path, in bytes, that a status box shows in full.
pub const STATUS_PATH_BYTES: usize = 60;

/// The bytes that are kept of the end of a longer path.
pub const STATUS_TAIL_BYTES: usize = 57;

/// Whether a path can be cut for a status box: a path of more than 60 bytes
/// must have a character boundary 57 bytes before its end.
pub open spec fn can_truncate(path: Seq<char>) -> bool {
    byte_len(path) > STATUS_PATH_BYTES ==> is_char_boundary(
        encode_utf8(path),
        byte_len(path) - STATUS_TAIL_BYTES,
    )
}

/// A path as a status box shows it: in full where it has at most 60 bytes,
/// else three dots and its last 57 bytes.
pub open spec fn front_truncated(path: Seq<char>) -> Seq<char> {
    if byte_len(path) > STATUS_PATH_BYTES {
        seq!['.', '.', '.'] + decode_utf8(
            encode_utf8(path).subrange(
                byte_len(path) - STATUS_TAIL_BYTES,
                encode_utf8(path).len() as int,
            ),
        )
    } else {
        path
    }
}

/// Tells whether a path can be cut for a status box.
pub fn check_truncatable(path: &str) -> (r: bool)
    ensures
        r == can_truncate(path@),
{
    let n = path.len();
    if n > STATUS_PATH_BYTES {
        path.is_char_boundary(n - STATUS_TAIL_BYTES)
    } else {
        true
    }
}

/// Cuts a path for a status box.
pub fn truncate_front(path: &str) -> (r: String)
    requires
        can_truncate(path@),
    ensures
        r@ == front_truncated(path@),
{
    let n = path.len();
    if n > STATUS_PATH_BYTES {
        let (_, tail) = path.split_at(n - STATUS_TAIL_BYTES);
        proof {
            vstd::utf8::encode_utf8_decode_utf8(tail@);
            reveal_strlit("...");
            assert("..."@ == seq!['.', '.', '.']);
        }
        let mut out = String::from_str("...");
        out.append(tail);
        out
    } else {
        String::from_str(path)
    }
}

/// Cuts a path for a status box where it can be cut, and gives `None` where
/// the cut would fall inside a character.
pub fn try_truncate_front(path: &str) -> (r: Option<String>)
    ensures
        r.deep_view() == if can_truncate(path@) {
            Some(front_truncated(path@))
        } else {
            None
        },
{
    if check_truncatable(path) {
        Some(truncate_front(path))
    } else {
        None
    }
}

/// How full the context window is.
#[derive(Clone, Copy, Debug, PartialEq, Eq, Structural)]
pub enum UsageLevel {
    /// Below half.
    Low,
    /// From half to below 85 percent.
    Medium,
    /// 85 percent and more.
    High,
}

impl UsageLevel {
    /// The level of a percentage.
    pub open spec fn of(percentage: usize) -> UsageLevel {
        if percentage < 50 {
            UsageLevel::Low
        } else if percentage < 85 {
            UsageLevel::Medium
        } else {
            UsageLevel::High
        }
    }

    /// Determines the level of a percentage.
    pub fn new(percentage: usize) -> (r: UsageLevel)
        ensures
            r == UsageLevel::of(percentage),
    {
        if percentage < 50 {
            UsageLevel::Low
        } else if percentage < 85 {
            UsageLevel::Medium
        } else {
            UsageLevel::High
        }
    }
}

/// Whether a list of names, separated by commas, names more than one.
pub open spec fn names_several(names: Seq<char>) -> bool {
    names.contains(',')
}

/// The ending of the noun before a list of names: `s` for several names.
pub fn plural_suffix(names: &str) -> (r: &'static str)
    ensures
        r@ == if names_several(names@) {
            "s"@
        } else {
            ""@
        },
{
    let chars = chars_of(names);
    let mut i: usize = 0;
    while i < chars.len()
        invariant
            i <= chars.len(),
            chars@ == names@,
            forall|k: int| 0 <= k < i ==> chars@[k] != ',',
        decreases chars.len() - i,
    {
        if chars[i] == ',' {
            assert(names@.contains(','));
            return "s";
        }
        i += 1;
    }
    ""
}

} // verus!
