//! Which program the session runs.
use crate::fault::SessionError;
use vstd::prelude::*;
use vstd::utf8::{encode_utf8, is_ascii_chars, is_ascii_chars_encode_utf8};

verus! {

/// The name of the environment variable that names the shell.
pub const SHELL_VARIABLE: &'static str = "SHELL";

/// What the environment says about the shell.
#[derive(Debug, PartialEq, Eq)]
pub enum ShellVariable {
    /// The variable is not set.
    Unset,
    /// The variable is set to something that is not Unicode text.
    Undecodable,
    /// The variable is set to this text.
    Text { path: String },
}

/// The view of a [`ShellVariable`].
pub enum ShellSetting {
    Unset,
    Undecodable,
    Text { path: Seq<char> },
}

impl View for ShellVariable {
    type V = ShellSetting;

    open spec fn view(&self) -> ShellSetting {
        match *self {
            ShellVariable::Unset => ShellSetting::Unset,
            ShellVariable::Undecodable => ShellSetting::Undecodable,
            ShellVariable::Text { path } => ShellSetting::Text { path: path@ },
        }
    }
}

/// The shell of a session whose environment names none.
pub open spec fn fallback_shell() -> Seq<char> {
    "/bin/sh"@
}

/// Whether `path` can name a program: its encoding holds no zero byte,
/// which would end the name early.
pub open spec fn names_a_program(path: Seq<char>) -> bool {
    !encode_utf8(path).contains(0u8)
}

/// The shell that `setting` stands for. An unset variable stands for the
/// fallback, and a set one for its text, provided that the text can name a
/// program.
pub open spec fn resolved(setting: ShellSetting) -> Result<Seq<char>, SessionError> {
    match setting {
        ShellSetting::Unset => Ok(fallback_shell()),
        ShellSetting::Undecodable => Err(SessionError::ShellUndecodable),
        ShellSetting::Text { path } => if names_a_program(path) {
            Ok(path)
        } else {
            Err(SessionError::ShellInteriorNul)
        },
    }
}

/// Whether `path` holds no zero byte.
fn free_of_nul(path: &str) -> (free: bool)
    ensures
        free == names_a_program(path@),
{
    let bytes = path.as_bytes();
    let mut index: usize = 0;
    while index < bytes.len()
        invariant
            index <= bytes.len(),
            bytes@ == encode_utf8(path@),
            forall|at: int| 0 <= at < index ==> bytes@[at] != 0u8,
        decreases bytes.len() - index,
    {
        if bytes[index] == 0 {
            return false;
        }
        index += 1;
    }
    true
}

/// Resolves the shell from what the environment says.
pub fn resolve_shell(variable: ShellVariable) -> (result: Result<String, SessionError>)
    ensures
        match resolved(variable@) {
            Ok(path) => result matches Ok(shell) && shell@ == path,
            Err(error) => result matches Err(reported) && reported == error,
        },
{
    match variable {
        ShellVariable::Unset => Ok("/bin/sh".to_owned()),
        ShellVariable::Undecodable => Err(SessionError::ShellUndecodable),
        ShellVariable::Text { path } => if free_of_nul(path.as_str()) {
            Ok(path)
        } else {
            Err(SessionError::ShellInteriorNul)
        },
    }
}

/// The fallback shell can name a program.
pub proof fn fallback_names_a_program()
    ensures
        names_a_program(fallback_shell()),
{
    reveal_strlit("/bin/sh");
    let path = fallback_shell();
    assert(is_ascii_chars(path));
    is_ascii_chars_encode_utf8(path);
    assert forall|at: int| 0 <= at < encode_utf8(path).len() implies encode_utf8(path)[at]
        != 0u8 by {
        assert(path[at] as u8 == encode_utf8(path)[at]);
    }
}

/// Every shell that is resolved can name a program.
pub proof fn resolved_shell_names_a_program(setting: ShellSetting)
    ensures
        resolved(setting) matches Ok(path) ==> names_a_program(path),
{
    fallback_names_a_program();
}

} // verus!
