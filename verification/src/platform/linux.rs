//! The Linux clipboard's timing and its failures: how long a write waits for the compositor
//! to take it, and what each way of not getting there is reported as.

use vstd::prelude::*;
use vstd::string::*;

use crate::text::{decimal, decimal_of};

verus! {

/// How long a write waits for the selection to change hands, in milliseconds.
pub const RECEIPT_WINDOW_MS: u64 = 900;

/// How often the receipt is looked for while waiting, in milliseconds.
pub const RECEIPT_TICK_MS: u64 = 25;

/// How long a caller waits for the user interface thread to run a clipboard job, in
/// milliseconds: longer than the receipt it contains.
pub const MAIN_LOOP_DEADLINE_MS: u64 = 2_500;

/// Why the clipboard could not be used.
#[derive(Clone, Copy, Debug, PartialEq, Eq, Structural)]
pub enum ClipboardError {
    /// There is no display to put a clipboard on.
    NoDisplay,
    /// The user interface thread did not run the job in time.
    NoMainLoop,
    /// The compositor did not take the text; `focused` says whether a window of this
    /// application held the keyboard when it was written.
    NotTaken { focused: bool },
    /// This build does not paste on Linux.
    NoPaste,
}

/// The sentence a clipboard failure is reported with.
pub open spec fn clipboard_message(error: ClipboardError) -> Seq<char> {
    match error {
        ClipboardError::NoDisplay => "there is no display to put a clipboard on"@,
        ClipboardError::NoMainLoop => "the user interface thread did not answer within "@
            + decimal_of(MAIN_LOOP_DEADLINE_MS as nat) + " ms"@,
        ClipboardError::NotTaken { focused } =>
            "the compositor did not take the text; on Wayland only the window holding the keyboard may set the clipboard, and whether this application was holding it: "@
            + if focused { "yes"@ } else { "no"@ },
        ClipboardError::NoPaste => "this build does not paste on Linux, so it makes no clipboard promises either"@,
    }
}

impl ClipboardError {
    /// The sentence this failure is reported with.
    pub fn message(&self) -> (message: String)
        ensures
            message@ == clipboard_message(*self),
    {
        match self {
            ClipboardError::NoDisplay => String::from_str("there is no display to put a clipboard on"),
            ClipboardError::NoMainLoop => {
                let mut message = String::from_str("the user interface thread did not answer within ");
                let deadline = decimal(MAIN_LOOP_DEADLINE_MS);
                message.append(deadline.as_str());
                message.append(" ms");
                message
            },
            ClipboardError::NotTaken { focused } => {
                let mut message = String::from_str(
                    "the compositor did not take the text; on Wayland only the window holding the keyboard may set the clipboard, and whether this application was holding it: ",
                );
                message.append(if *focused { "yes" } else { "no" });
                message
            },
            ClipboardError::NoPaste => String::from_str(
                "this build does not paste on Linux, so it makes no clipboard promises either",
            ),
        }
    }
}

/// One look at the receipt of a write made when the owner-change count was `before`: the
/// write is done once the count has moved past it, refused once `now_ms` reaches
/// `deadline_ms`, and otherwise `None`, to look again after a tick. A change that arrives on
/// the deadline's own tick still counts.
pub fn receipt(before: u64, changes: u64, now_ms: u64, deadline_ms: u64, focused: bool) -> (look:
    Option<Result<(), ClipboardError>>)
    ensures
        look == if changes > before {
            Some(Ok::<(), ClipboardError>(()))
        } else if now_ms >= deadline_ms {
            Some(Err::<(), ClipboardError>(ClipboardError::NotTaken { focused }))
        } else {
            None
        },
{
    if changes > before {
        Some(Ok(()))
    } else if now_ms >= deadline_ms {
        Some(Err(ClipboardError::NotTaken { focused }))
    } else {
        None
    }
}

} // verus!
