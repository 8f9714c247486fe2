//! Terminal attributes and their raw form.
use nix::sys::termios::{cfmakeraw, Termios};
use vstd::prelude::*;

verus! {

/// The number of control characters in a set of terminal attributes.
pub const CONTROL_CHARS: usize = 32;

/// A snapshot of a terminal's line discipline: the four flag words, the
/// line discipline number, the control characters and the two speeds, as
/// the terminal driver keeps them.
///
/// The recorder never interprets a snapshot. It takes one before it touches
/// the terminal, derives the raw form from it, and hands the snapshot back
/// unchanged when the session is over.
#[derive(Clone, Copy, Debug, PartialEq, Eq)]
pub struct TerminalAttributes {
    pub input_flags: u32,
    pub output_flags: u32,
    pub control_flags: u32,
    pub local_flags: u32,
    pub line_discipline: u8,
    pub control_chars: [u8; CONTROL_CHARS],
    pub input_speed: u32,
    pub output_speed: u32,
}

/// The raw form of `original`: the attributes that `cfmakeraw` leaves when
/// it is given `original`. In raw mode input arrives byte by byte, nothing
/// is echoed, and no byte is treated specially on the way in or out.
pub uninterp spec fn raw_form(original: TerminalAttributes) -> TerminalAttributes;

/// Derives the raw form of `original` with `nix::sys::termios::cfmakeraw`.
///
/// The attributes are handed to the system's `cfmakeraw` as a `Termios` and
/// read back field by field. The contract claims that what comes back
/// depends on `original` alone, and so gives it the name [`raw_form`];
/// it claims nothing about which flags are set in it.
#[verifier::external_body]
pub(crate) fn make_raw(original: &TerminalAttributes) -> (raw: TerminalAttributes)
    ensures
        raw == raw_form(*original),
{
    let mut termios = Termios::from(libc::termios {
        c_iflag: original.input_flags, c_oflag: original.output_flags,
        c_cflag: original.control_flags, c_lflag: original.local_flags,
        c_line: original.line_discipline, c_cc: original.control_chars,
        c_ispeed: original.input_speed, c_ospeed: original.output_speed,
    });
    cfmakeraw(&mut termios);
    let made = libc::termios::from(termios);
    TerminalAttributes {
        input_flags: made.c_iflag, output_flags: made.c_oflag,
        control_flags: made.c_cflag, local_flags: made.c_lflag,
        line_discipline: made.c_line, control_chars: made.c_cc,
        input_speed: made.c_ispeed, output_speed: made.c_ospeed,
    }
}

} // verus!
