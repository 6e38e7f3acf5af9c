//! A Win32 window handle, as the number the system hands out.

use vstd::prelude::*;

use crate::text::chars_of;

verus! {

/// A window handle; never the null handle.
#[derive(Clone, Copy, Debug, PartialEq, Eq, Hash, Structural)]
pub struct Hwnd(isize);

impl Hwnd {
    /// A handle is never the null handle.
    #[verifier::type_invariant]
    spec fn never_null(self) -> bool {
        self.0 != 0
    }

    /// The number the system handed out.
    pub closed spec fn handle(self) -> isize {
        self.0
    }

    /// A handle is its number: two handles with the same number are the same handle.
    pub proof fn lemma_handle_identifies(a: Hwnd, b: Hwnd)
        requires
            a.handle() == b.handle(),
        ensures
            a == b,
    {
    }

    /// A handle from the number a window API returned; the null handle is no window.
    pub fn from_isize(handle: isize) -> (window: Option<Hwnd>)
        ensures
            handle == 0 ==> window is None,
            handle != 0 ==> window is Some && window->0.handle() == handle,
    {
        if handle == 0 {
            None
        } else {
            Some(Hwnd(handle))
        }
    }

    /// The number, for a log line.
    pub fn as_isize(self) -> (handle: isize)
        ensures
            handle == self.handle(),
            handle != 0,
    {
        proof {
            use_type_invariant(&self);
        }
        self.0
    }

    /// Whether this is the window the system reports as in front.
    pub fn is_foreground(self, foreground: Option<Hwnd>) -> (front: bool)
        ensures
            front == (foreground is Some && foreground->0.handle() == self.handle()),
    {
        match foreground {
            Some(front) => front.0 == self.0,
            None => false,
        }
    }
}

/// One character in UTF-16: a single unit inside the basic plane, a surrogate pair outside.
pub open spec fn utf16_units(c: char) -> Seq<u16> {
    let v = c as u32;
    if v < 0x10000 {
        seq![v as u16]
    } else {
        let w = (v - 0x10000) as u32;
        seq![(0xD800 + w / 1024) as u16, (0xDC00 + w % 1024) as u16]
    }
}

/// A text in UTF-16.
pub open spec fn utf16_spec(text: Seq<char>) -> Seq<u16>
    decreases text.len(),
{
    if text.len() == 0 {
        Seq::empty()
    } else {
        utf16_spec(text.drop_last()) + utf16_units(text.last())
    }
}

/// `text` as UTF-16 with the NUL the clipboard's text format requires.
pub fn utf16_of(text: &str) -> (units: Vec<u16>)
    ensures
        units@ == utf16_spec(text@).push(0),
{
    let chars = chars_of(text);
    let mut units: Vec<u16> = Vec::new();
    let mut i: usize = 0;
    while i < chars.len()
        invariant
            chars@ == text@,
            i <= chars@.len(),
            units@ == utf16_spec(text@.subrange(0, i as int)),
        decreases chars@.len() - i,
    {
        let c = chars[i];
        let v = c as u32;
        proof {
            assert(text@.subrange(0, i + 1).drop_last() =~= text@.subrange(0, i as int));
            vstd::utf8::char_is_scalar(c);
            assert(v <= 0x10FFFF);
        }
        if v < 0x10000 {
            units.push(v as u16);
        } else {
            let w = v - 0x10000;
            units.push((0xD800 + w / 1024) as u16);
            units.push((0xDC00 + w % 1024) as u16);
        }
        proof {
            assert(units@ =~= utf16_spec(text@.subrange(0, i + 1)));
        }
        i += 1;
    }
    proof {
        assert(text@.subrange(0, text@.len() as int) =~= text@);
    }
    units.push(0);
    units
}

/// A Win32 virtual-key code.
pub type VirtualKey = u16;

/// Either Ctrl key.
pub const VK_CONTROL: VirtualKey = 0x11;
/// Either Shift key.
pub const VK_SHIFT: VirtualKey = 0x10;
/// The left Shift key.
pub const VK_LSHIFT: VirtualKey = 0xA0;
/// The right Shift key.
pub const VK_RSHIFT: VirtualKey = 0xA1;
/// The left Alt key.
pub const VK_LMENU: VirtualKey = 0xA4;
/// The right Alt key.
pub const VK_RMENU: VirtualKey = 0xA5;
/// The left Windows key.
pub const VK_LWIN: VirtualKey = 0x5B;
/// The right Windows key.
pub const VK_RWIN: VirtualKey = 0x5C;
/// The V key.
pub const VK_V: VirtualKey = 0x56;

/// One keyboard report: a key going down, or coming up.
#[derive(Clone, Copy, Debug, PartialEq, Eq, Structural)]
pub struct KeyStroke {
    /// Which key.
    pub key: VirtualKey,
    /// True for a release.
    pub up: bool,
}

/// Which of the modifiers that would bend a chord the user is holding as it is sent.
#[derive(Clone, Copy, Debug, PartialEq, Eq, Structural)]
pub struct Held {
    /// Left Alt.
    pub left_alt: bool,
    /// Right Alt.
    pub right_alt: bool,
    /// Left Windows key.
    pub left_win: bool,
    /// Right Windows key.
    pub right_win: bool,
    /// Left Shift.
    pub left_shift: bool,
    /// Right Shift.
    pub right_shift: bool,
}

/// A release of `key` when `down` says it is held, and nothing otherwise.
pub open spec fn release_if(down: bool, key: VirtualKey) -> Seq<KeyStroke> {
    if down { seq![KeyStroke { key, up: true }] } else { Seq::empty() }
}

/// The releases that clear what the user holds: Alt and the Windows keys always, Shift only
/// when the chord does not carry Shift itself.
pub open spec fn releases_spec(held: Held, with_shift: bool) -> Seq<KeyStroke> {
    release_if(held.left_alt, VK_LMENU) + release_if(held.right_alt, VK_RMENU) + release_if(
        held.left_win,
        VK_LWIN,
    ) + release_if(held.right_win, VK_RWIN) + if with_shift {
        Seq::empty()
    } else {
        release_if(held.left_shift, VK_LSHIFT) + release_if(held.right_shift, VK_RSHIFT)
    }
}

/// Ctrl, Shift when asked, and `key`, pressed in that order and released in the reverse one.
pub open spec fn presses_spec(with_shift: bool, key: VirtualKey) -> Seq<KeyStroke> {
    if with_shift {
        seq![
            KeyStroke { key: VK_CONTROL, up: false },
            KeyStroke { key: VK_SHIFT, up: false },
            KeyStroke { key, up: false },
            KeyStroke { key, up: true },
            KeyStroke { key: VK_SHIFT, up: true },
            KeyStroke { key: VK_CONTROL, up: true },
        ]
    } else {
        seq![
            KeyStroke { key: VK_CONTROL, up: false },
            KeyStroke { key, up: false },
            KeyStroke { key, up: true },
            KeyStroke { key: VK_CONTROL, up: true },
        ]
    }
}

/// Everything sent for a chord: first what clears the user's own modifiers, then the chord.
pub open spec fn chord_spec(held: Held, with_shift: bool, key: VirtualKey) -> Seq<KeyStroke> {
    releases_spec(held, with_shift) + presses_spec(with_shift, key)
}

/// Append a release of `key` when `down` says it is held.
fn release_held(strokes: &mut Vec<KeyStroke>, down: bool, key: VirtualKey)
    ensures
        final(strokes)@ == old(strokes)@ + release_if(down, key),
{
    if down {
        strokes.push(KeyStroke { key, up: true });
    }
    proof {
        if !down {
            assert(old(strokes)@ + release_if(down, key) =~= old(strokes)@);
        }
    }
}

/// The releases that clear what the user holds before a chord.
fn releases(held: Held, with_shift: bool) -> (strokes: Vec<KeyStroke>)
    ensures
        strokes@ == releases_spec(held, with_shift),
{
    let mut strokes: Vec<KeyStroke> = Vec::new();
    release_held(&mut strokes, held.left_alt, VK_LMENU);
    release_held(&mut strokes, held.right_alt, VK_RMENU);
    release_held(&mut strokes, held.left_win, VK_LWIN);
    release_held(&mut strokes, held.right_win, VK_RWIN);
    let ghost common = strokes@;
    if !with_shift {
        release_held(&mut strokes, held.left_shift, VK_LSHIFT);
        release_held(&mut strokes, held.right_shift, VK_RSHIFT);
        proof {
            assert(strokes@ =~= common + (release_if(held.left_shift, VK_LSHIFT) + release_if(
                held.right_shift,
                VK_RSHIFT,
            )));
        }
    } else {
        proof {
            assert(strokes@ =~= common + Seq::<KeyStroke>::empty());
        }
    }
    strokes
}

/// The reports that send Ctrl (with Shift when asked) and `key` to whatever has the focus,
/// while the user may still be holding the trigger's own modifiers: those are released first,
/// so that the target sees the chord and not Ctrl+Alt+V.
pub fn chord_strokes(held: Held, with_shift: bool, key: VirtualKey) -> (strokes: Vec<KeyStroke>)
    ensures
        strokes@ == chord_spec(held, with_shift, key),
{
    let mut strokes = releases(held, with_shift);
    let ghost released = strokes@;
    strokes.push(KeyStroke { key: VK_CONTROL, up: false });
    if with_shift {
        strokes.push(KeyStroke { key: VK_SHIFT, up: false });
    }
    strokes.push(KeyStroke { key, up: false });
    strokes.push(KeyStroke { key, up: true });
    if with_shift {
        strokes.push(KeyStroke { key: VK_SHIFT, up: true });
    }
    strokes.push(KeyStroke { key: VK_CONTROL, up: true });
    proof {
        assert(strokes@ =~= released + presses_spec(with_shift, key));
    }
    strokes
}

/// A chord leaves no key down that it put down: every press in it is released later in it,
/// and a key the user was holding is only ever released, never pressed.
pub proof fn lemma_chord_releases_what_it_presses(held: Held, with_shift: bool, key: VirtualKey)
    ensures
        forall|i: int|
            0 <= i < chord_spec(held, with_shift, key).len() && !(#[trigger] chord_spec(
                held,
                with_shift,
                key,
            )[i]).up ==> exists|j: int|
                i < j < chord_spec(held, with_shift, key).len() && chord_spec(held, with_shift, key)[j]
                    == (KeyStroke { key: chord_spec(held, with_shift, key)[i].key, up: true }),
        forall|i: int|
            0 <= i < releases_spec(held, with_shift).len() ==> (#[trigger] releases_spec(
                held,
                with_shift,
            )[i]).up,
{
    let r = releases_spec(held, with_shift);
    let p = presses_spec(with_shift, key);
    let c = chord_spec(held, with_shift, key);
    assert forall|i: int| 0 <= i < r.len() implies (#[trigger] r[i]).up by {
        let a = release_if(held.left_alt, VK_LMENU);
        let b = release_if(held.right_alt, VK_RMENU);
        let d = release_if(held.left_win, VK_LWIN);
        let e = release_if(held.right_win, VK_RWIN);
        let f = if with_shift {
            Seq::empty()
        } else {
            release_if(held.left_shift, VK_LSHIFT) + release_if(held.right_shift, VK_RSHIFT)
        };
        assert(forall|k: int| 0 <= k < a.len() ==> (#[trigger] a[k]).up);
        assert(forall|k: int| 0 <= k < b.len() ==> (#[trigger] b[k]).up);
        assert(forall|k: int| 0 <= k < d.len() ==> (#[trigger] d[k]).up);
        assert(forall|k: int| 0 <= k < e.len() ==> (#[trigger] e[k]).up);
        if !with_shift {
            let g = release_if(held.left_shift, VK_LSHIFT);
            let h = release_if(held.right_shift, VK_RSHIFT);
            assert(forall|k: int| 0 <= k < g.len() ==> (#[trigger] g[k]).up);
            assert(forall|k: int| 0 <= k < h.len() ==> (#[trigger] h[k]).up);
            assert(forall|k: int| 0 <= k < f.len() ==> (#[trigger] f[k]).up);
        }
        assert(r == a + b + d + e + f);
    }
    assert forall|i: int| 0 <= i < c.len() && !(#[trigger] c[i]).up implies exists|j: int|
        i < j < c.len() && c[j] == (KeyStroke { key: c[i].key, up: true }) by {
        assert(c == r + p);
        assert(i >= r.len()) by {
            if i < r.len() {
                assert(c[i] == r[i]);
            }
        }
        let n = r.len() as int;
        if with_shift {
            if i == n {
                assert(c[n + 5] == p[5]);
            } else if i == n + 1 {
                assert(c[n + 4] == p[4]);
            } else {
                assert(c[n + 3] == p[3]);
            }
        } else {
            if i == n {
                assert(c[n + 3] == p[3]);
            } else {
                assert(c[n + 2] == p[2]);
            }
        }
    }
}

/// Whether a key is down, from the state word the system reports for it: the most
/// significant bit says so.
pub fn key_is_down(state: i16) -> (down: bool)
    ensures
        down == (state < 0),
{
    let down = state as u16 & 0x8000 != 0;
    assert((state as u16 & 0x8000u16 != 0) == (state < 0)) by (bit_vector);
    down
}

/// Whether a window's extended style marks it as one that never takes the focus.
pub fn is_non_activating(extended_style: isize) -> (non_activating: bool)
    ensures
        non_activating == (extended_style & 0x0800_0000isize != 0),
{
    extended_style & 0x0800_0000 != 0
}

/// Whether focusing a window first joins this thread's input to the thread in front: only
/// when there is a window in front, and it belongs to another thread.
pub fn attaches_input(ours: u32, theirs: u32) -> (attach: bool)
    ensures
        attach == (theirs != 0 && theirs != ours),
{
    theirs != 0 && theirs != ours
}

} // verus!
