//! The geometry of the controlling terminal's window.
use crate::fault::SessionError;
use vstd::prelude::*;

verus! {

/// Rows, columns and pixel sizes of a terminal window, as the terminal
/// reports them. Queried once, then used to size the pseudo-terminal.
#[derive(Clone, Copy, Debug, PartialEq, Eq, Structural)]
pub struct WindowGeometry {
    pub rows: u16,
    pub columns: u16,
    pub horizontal_pixels: u16,
    pub vertical_pixels: u16,
}

/// What a window-size query amounts to: a negative status means that the
/// device refused the query, and then the record it left behind is void.
pub open spec fn probed(status: i32, reported: WindowGeometry) -> Result<
    WindowGeometry,
    SessionError,
> {
    if status < 0 {
        Err(SessionError::DeviceQuery)
    } else {
        Ok(reported)
    }
}

/// Judges a window-size query by the status that the device returned.
pub fn get_window(status: i32, reported: WindowGeometry) -> (result: Result<
    WindowGeometry,
    SessionError,
>)
    ensures
        result == probed(status, reported),
{
    if status < 0 {
        Err(SessionError::DeviceQuery)
    } else {
        Ok(reported)
    }
}

} // verus!
