//! Grab failures as typed errors.
use vstd::prelude::*;

use crate::text::{decimal_string, decimal_text};

verus! {

/// Result of an X11 keyboard or pointer grab attempt (the Xlib status codes 0 to 4).
#[derive(Debug, Clone, Copy, PartialEq, Eq, Structural)]
pub enum GrabStatusCode {
    Success,
    AlreadyGrabbed,
    InvalidTime,
    NotViewable,
    Frozen,
}

/// The Xlib number of a status.
pub open spec fn status_number(s: GrabStatusCode) -> u8 {
    match s {
        GrabStatusCode::Success => 0,
        GrabStatusCode::AlreadyGrabbed => 1,
        GrabStatusCode::InvalidTime => 2,
        GrabStatusCode::NotViewable => 3,
        GrabStatusCode::Frozen => 4,
    }
}

impl GrabStatusCode {
    /// The status for an Xlib number, if it is one of the five.
    pub fn from_raw(value: u8) -> (r: Option<GrabStatusCode>)
        ensures
            value <= 4 ==> (r matches Some(s) && status_number(s) == value),
            value > 4 ==> r is None,
    {
        match value {
            0 => Some(GrabStatusCode::Success),
            1 => Some(GrabStatusCode::AlreadyGrabbed),
            2 => Some(GrabStatusCode::InvalidTime),
            3 => Some(GrabStatusCode::NotViewable),
            4 => Some(GrabStatusCode::Frozen),
            _ => None,
        }
    }

    /// The Xlib number of this status.
    pub fn code(self) -> (r: u8)
        ensures
            r == status_number(self),
    {
        match self {
            GrabStatusCode::Success => 0,
            GrabStatusCode::AlreadyGrabbed => 1,
            GrabStatusCode::InvalidTime => 2,
            GrabStatusCode::NotViewable => 3,
            GrabStatusCode::Frozen => 4,
        }
    }
}

/// Why the lock client could not grab or draw.
#[derive(Debug, Clone, PartialEq, Eq)]
pub enum GrabError {
    /// Another client holds the grab.
    GrabBusy,
    /// The grab failed with this status.
    GrabFailed(u8),
    /// The display could not be used.
    Display(String),
}

impl GrabError {
    /// The text of the error: `grab_busy`, `grab failed with status N`, or the display message.
    pub fn message(&self) -> (r: String)
        ensures
            self is GrabBusy ==> r@ == "grab_busy"@,
            self is GrabFailed ==> r@ == "grab failed with status "@ + decimal_text(self->GrabFailed_0),
            self is Display ==> r@ == self->Display_0@,
    {
        match self {
            GrabError::GrabBusy => {
                proof {
                    reveal_strlit("grab_busy");
                }
                String::from_str("grab_busy")
            },
            GrabError::GrabFailed(code) => {
                proof {
                    reveal_strlit("grab failed with status ");
                }
                let mut text = String::from_str("grab failed with status ");
                let digits = decimal_string(*code);
                text.append(digits.as_str());
                text
            },
            GrabError::Display(msg) => msg.clone(),
        }
    }
}

/// Maps a failed keyboard grab status to an error: `GrabBusy` when another client holds the
/// grab, `GrabFailed` with the status otherwise, and a display error if called with success.
pub fn keyboard_grab_error(status: u8) -> (r: GrabError)
    ensures
        status == 1 ==> r == GrabError::GrabBusy,
        status != 0 && status != 1 ==> r == GrabError::GrabFailed(status),
        status == 0 ==> (r matches GrabError::Display(m) && m@ == "unexpected success in error mapper"@),
{
    proof {
        reveal_strlit("unexpected success in error mapper");
    }
    match GrabStatusCode::from_raw(status) {
        Some(GrabStatusCode::Success) => GrabError::Display(
            String::from_str("unexpected success in error mapper"),
        ),
        Some(GrabStatusCode::AlreadyGrabbed) => GrabError::GrabBusy,
        Some(GrabStatusCode::InvalidTime) | Some(GrabStatusCode::NotViewable) | Some(
            GrabStatusCode::Frozen,
        ) => GrabError::GrabFailed(status),
        None => GrabError::GrabFailed(status),
    }
}

/// The outcome of a grab request by its status: success, or the error for the failed status.
pub fn grab_check(status: u8) -> (r: Result<(), GrabError>)
    ensures
        status == 0 ==> r is Ok,
        status == 1 ==> r == Err::<(), GrabError>(GrabError::GrabBusy),
        status > 1 ==> r == Err::<(), GrabError>(GrabError::GrabFailed(status)),
{
    if status == 0 {
        Ok(())
    } else {
        Err(keyboard_grab_error(status))
    }
}

/// A failure of the X connection, by its text, as a display error.
pub fn map_conn_err(message: String) -> (r: GrabError)
    ensures
        r == GrabError::Display(message),
{
    GrabError::Display(message)
}

} // verus!
