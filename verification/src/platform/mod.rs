//! What differs between the desktops a dictation can land on, decided from values the
//! application reads about the machine it runs on.

pub mod screen;
pub mod uinput;
pub mod unported;
pub mod linux;
pub mod win32;

use vstd::prelude::*;

use crate::text::same_text;

pub use screen::{Monitor, Rect};

verus! {

/// The operating system a build runs on, as far as handing over a dictation cares.
#[derive(Clone, Copy, Debug, PartialEq, Eq, Structural)]
pub enum Platform {
    /// Windows: the panel aims a paste chord at the window the dictation was meant for.
    Windows,
    /// Linux: the clipboard carries the dictation, and the panel can add an unaimed chord.
    Linux,
    /// Anything else: the text stays in the panel.
    Other,
}

/// How a finished dictation reaches the window it was meant for.
#[derive(Clone, Copy, Debug, PartialEq, Eq, Structural)]
pub enum Delivery {
    /// The text is pasted into the target, and the user's clipboard is put back.
    Paste,
    /// The text is left on the clipboard for the user to paste.
    Clipboard,
}

/// How a platform hands a dictation over.
pub open spec fn delivery_of(platform: Platform) -> Delivery {
    match platform {
        Platform::Windows => Delivery::Paste,
        _ => Delivery::Clipboard,
    }
}

/// How a platform hands a dictation over: only Windows can aim a paste.
pub fn delivery(platform: Platform) -> (delivery: Delivery)
    ensures
        delivery == delivery_of(platform),
{
    match platform {
        Platform::Windows => Delivery::Paste,
        _ => Delivery::Clipboard,
    }
}

/// Whether the switch that sends an unaimed paste chord is offered: Linux only.
pub fn auto_paste_offered(platform: Platform) -> (offered: bool)
    ensures
        offered == (platform == Platform::Linux),
{
    platform == Platform::Linux
}

/// The name a delivery travels under.
pub fn delivery_name(delivery: Delivery) -> (name: &'static str)
    ensures
        name@ == match delivery {
            Delivery::Paste => "paste"@,
            Delivery::Clipboard => "clipboard"@,
        },
{
    match delivery {
        Delivery::Paste => "paste",
        Delivery::Clipboard => "clipboard",
    }
}

/// An unaimed chord is only offered where the hand-over needs one: a platform that pastes
/// has nothing to add it to.
pub proof fn lemma_auto_paste_only_with_clipboard(platform: Platform)
    ensures
        platform == Platform::Linux ==> delivery_of(platform) == Delivery::Clipboard,
{
}

/// The catalogue key of the line the card shows when an auto-paste fails.
pub const AUTO_PASTE_FAILED: &'static str = "panel.state.autopaste.failed";

/// The display server a desktop runs.
#[derive(Clone, Copy, Debug, PartialEq, Eq, Structural)]
pub enum WindowSystem {
    /// Windows' own.
    Windows,
    /// A Wayland compositor.
    Wayland,
    /// An X server.
    X11,
    /// Whatever GDK could not name.
    Other,
}

/// The window system a GDK display type names.
pub open spec fn named_spec(name: Seq<char>) -> WindowSystem {
    if name == "GdkWaylandDisplay"@ {
        WindowSystem::Wayland
    } else if name == "GdkX11Display"@ {
        WindowSystem::X11
    } else {
        WindowSystem::Other
    }
}

/// The name a window system travels under.
pub open spec fn window_system_label(system: WindowSystem) -> Seq<char> {
    match system {
        WindowSystem::Windows => "windows"@,
        WindowSystem::Wayland => "wayland"@,
        WindowSystem::X11 => "x11"@,
        WindowSystem::Other => "unknown"@,
    }
}

impl WindowSystem {
    /// The window system of a machine: Windows on Windows, and elsewhere whatever the name of
    /// GDK's display type says.
    pub fn current(platform: Platform, display_type: &str) -> (system: WindowSystem)
        ensures
            system == if platform == Platform::Windows {
                WindowSystem::Windows
            } else {
                named_spec(display_type@)
            },
    {
        if platform == Platform::Windows {
            WindowSystem::Windows
        } else {
            WindowSystem::named(display_type)
        }
    }

    /// The window system a GDK display type names; anything else is `Other`.
    pub fn named(name: &str) -> (system: WindowSystem)
        ensures
            system == named_spec(name@),
    {
        if same_text(name, "GdkWaylandDisplay") {
            WindowSystem::Wayland
        } else if same_text(name, "GdkX11Display") {
            WindowSystem::X11
        } else {
            WindowSystem::Other
        }
    }

    /// The name this window system travels under.
    pub fn label(self) -> (label: &'static str)
        ensures
            label@ == window_system_label(self),
    {
        match self {
            WindowSystem::Windows => "windows",
            WindowSystem::Wayland => "wayland",
            WindowSystem::X11 => "x11",
            WindowSystem::Other => "unknown",
        }
    }
}

/// How the card leaves the screen.
#[derive(Clone, Copy, Debug, PartialEq, Eq, Structural)]
pub enum Closing {
    /// Hidden outright.
    Unmap,
    /// Minimized, where a minimized card was seen to come back.
    Minimize,
}

/// How the card leaves the screen: minimized on X11 only.
pub open spec fn closing_spec(system: WindowSystem) -> Closing {
    match system {
        WindowSystem::X11 => Closing::Minimize,
        _ => Closing::Unmap,
    }
}

/// How the card leaves the screen on a window system.
pub fn closing(system: WindowSystem) -> (leaves_by: Closing)
    ensures
        leaves_by == closing_spec(system),
{
    match system {
        WindowSystem::X11 => Closing::Minimize,
        WindowSystem::Windows | WindowSystem::Wayland | WindowSystem::Other => Closing::Unmap,
    }
}

/// Whether a window system lets the card be put back where it was dragged to.
pub fn remembers_position(system: WindowSystem) -> (remembers: bool)
    ensures
        remembers == (system == WindowSystem::Windows || system == WindowSystem::X11),
{
    match system {
        WindowSystem::Windows | WindowSystem::X11 => true,
        WindowSystem::Wayland | WindowSystem::Other => false,
    }
}

/// A card is only minimized where a minimized card was seen to come back.
pub proof fn lemma_only_x11_minimizes(system: WindowSystem)
    ensures
        closing_spec(system) == Closing::Minimize <==> system == WindowSystem::X11,
{
}

} // verus!
