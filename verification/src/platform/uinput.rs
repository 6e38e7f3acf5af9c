//! Why a paste chord could not be synthesised through `/dev/uinput`, and the line the card
//! shows for each reason.

use vstd::prelude::*;
use vstd::string::*;

verus! {

/// Why the virtual keyboard could not paste.
#[derive(Clone, Debug, PartialEq, Eq)]
pub enum AutoPasteError {
    /// There is no `/dev/uinput`: the kernel module that provides it is not loaded.
    NoDevice,
    /// `/dev/uinput` is there and this user may not write to it.
    NoPermission,
    /// The virtual keyboard could not be created, in the system's words.
    Refused(String),
    /// The chord could not be written to it, in the system's words.
    NotWritten(String),
    /// A thread panicked while holding it.
    Unusable,
}

/// The catalogue key of the line the card shows for a reason.
pub open spec fn auto_paste_key(error: AutoPasteError) -> Seq<char> {
    match error {
        AutoPasteError::NoDevice => "panel.state.autopaste.nodevice"@,
        AutoPasteError::NoPermission => "panel.state.autopaste.nopermission"@,
        _ => super::AUTO_PASTE_FAILED@,
    }
}

/// The sentence a reason is reported with.
pub open spec fn auto_paste_message(error: AutoPasteError) -> Seq<char> {
    match error {
        AutoPasteError::NoDevice => "there is no /dev/uinput on this machine, so no key press can be synthesised; the uinput kernel module is what provides it"@,
        AutoPasteError::NoPermission => "/dev/uinput is there and this user may not write to it; packaging/linux/70-dile-input.rules is the rule that opens it, and it is the same one the trigger needs"@,
        AutoPasteError::Refused(reason) => "the virtual keyboard could not be created: "@ + reason@,
        AutoPasteError::NotWritten(reason) => "the paste chord could not be written to the virtual keyboard: "@ + reason@,
        AutoPasteError::Unusable => "the virtual keyboard is not usable, because a thread panicked while holding it"@,
    }
}

impl AutoPasteError {
    /// The catalogue key of the line the card shows.
    pub fn key(&self) -> (key: &'static str)
        ensures
            key@ == auto_paste_key(*self),
    {
        match self {
            AutoPasteError::NoDevice => "panel.state.autopaste.nodevice",
            AutoPasteError::NoPermission => "panel.state.autopaste.nopermission",
            AutoPasteError::Refused(_) | AutoPasteError::NotWritten(_) | AutoPasteError::Unusable => {
                super::AUTO_PASTE_FAILED
            },
        }
    }

    /// The sentence this reason is reported with.
    pub fn message(&self) -> (message: String)
        ensures
            message@ == auto_paste_message(*self),
    {
        match self {
            AutoPasteError::NoDevice => String::from_str(
                "there is no /dev/uinput on this machine, so no key press can be synthesised; the uinput kernel module is what provides it",
            ),
            AutoPasteError::NoPermission => String::from_str(
                "/dev/uinput is there and this user may not write to it; packaging/linux/70-dile-input.rules is the rule that opens it, and it is the same one the trigger needs",
            ),
            AutoPasteError::Refused(reason) => {
                let mut message = String::from_str("the virtual keyboard could not be created: ");
                message.append(reason.as_str());
                message
            },
            AutoPasteError::NotWritten(reason) => {
                let mut message = String::from_str(
                    "the paste chord could not be written to the virtual keyboard: ",
                );
                message.append(reason.as_str());
                message
            },
            AutoPasteError::Unusable => String::from_str(
                "the virtual keyboard is not usable, because a thread panicked while holding it",
            ),
        }
    }
}

/// Name the reason a virtual keyboard could not be created: no device node at all, a node
/// this user may not write, or whatever the system said.
pub fn classify(exists: bool, permission_denied: bool, reason: &str) -> (error: AutoPasteError)
    ensures
        !exists ==> error == AutoPasteError::NoDevice,
        exists && permission_denied ==> error == AutoPasteError::NoPermission,
        exists && !permission_denied ==> (error is Refused && error->Refused_0@ == reason@),
{
    if !exists {
        return AutoPasteError::NoDevice;
    }
    if permission_denied {
        AutoPasteError::NoPermission
    } else {
        AutoPasteError::Refused(String::from_str(reason))
    }
}

} // verus!
