//! What a build without a windowing integration answers: there is never a foreground window,
//! never a monitor to ask about, and never a paste chord to send.

use vstd::prelude::*;

use super::screen::Monitor;

verus! {

/// A window handle on a build that has no windows to hand out: its invariant cannot hold,
/// so no value of it can exist.
#[derive(Clone, Copy, Debug, PartialEq, Eq, Hash)]
pub struct Hwnd {
    handle: isize,
}

impl Hwnd {
    /// No handle exists on this build.
    #[verifier::type_invariant]
    spec fn exists_nowhere(self) -> bool {
        false
    }

    /// The number a handle would carry.
    pub closed spec fn handle(self) -> isize {
        self.handle
    }

    /// The window that has the focus: none, on this build.
    pub fn foreground() -> (handle: Option<Hwnd>)
        ensures
            handle is None,
    {
        None
    }

    /// The raw handle.
    pub fn as_isize(self) -> (handle: isize)
        ensures
            handle == self.handle(),
    {
        self.handle
    }

    /// Whether the window is still there (`exists` is a word of the verifier, so it is named
    /// `alive`): no window is, on a build that has none.
    pub fn alive(self) -> (alive: bool)
        ensures
            !alive,
    {
        false
    }

    /// The executable of the process that owns the window: this build cannot name one.
    pub fn process_path(self) -> (path: Option<String>)
        ensures
            path is None,
    {
        None
    }

    /// The monitor the window is on: this build cannot ask.
    pub fn monitor(self) -> (monitor: Option<Monitor>)
        ensures
            monitor is None,
    {
        None
    }

    /// Bring the window to the front: this build cannot, and says so.
    pub fn focus(self) -> (focused: bool)
        ensures
            !focused,
    {
        false
    }
}

/// The primary monitor: none this build can name.
pub fn primary_monitor() -> (monitor: Option<Monitor>)
    ensures
        monitor is None,
{
    None
}

/// Send the paste chord: this build sends none, and says so.
pub fn send_paste_chord(with_shift: bool) -> (sent: bool)
    ensures
        !sent,
{
    false
}

/// Why a build without a virtual keyboard cannot auto-paste.
#[derive(Clone, Copy, Debug, PartialEq, Eq, Structural)]
pub enum AutoPasteError {
    /// This build does not synthesise a paste chord.
    Unsupported,
}

impl AutoPasteError {
    /// The catalogue key of the line the card shows.
    pub fn key(&self) -> (key: &'static str)
        ensures
            key@ == super::AUTO_PASTE_FAILED@,
    {
        super::AUTO_PASTE_FAILED
    }

    /// The sentence this error is reported with.
    pub fn message(&self) -> (message: &'static str)
        ensures
            message@ == "this build does not synthesise a paste chord"@,
    {
        "this build does not synthesise a paste chord"
    }
}

/// Opening a virtual keyboard on a build that has none.
pub fn open_auto_paste() -> (opened: Result<(), AutoPasteError>)
    ensures
        opened == Err::<(), AutoPasteError>(AutoPasteError::Unsupported),
{
    Err(AutoPasteError::Unsupported)
}

} // verus!
