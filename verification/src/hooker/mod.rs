//! The keyboard hook that redirects key strokes to the picker window.
//!
//! The hook lives in a library of its own that the operating system loads
//! into other applications. What it knows is the window to redirect to and the
//! handle of the hook, and both are shared by every copy of the library. This
//! module decides; asking the operating system for the hook, giving it back
//! and posting messages is left to the caller.

use crate::hooker::volatile::Volatile;
use vstd::prelude::*;

pub mod volatile;

verus! {

/// The virtual key that carries a typed Unicode character. The picker makes
/// such key strokes itself, so they are never redirected.
pub const VK_PACKET: usize = 0xE7;

/// In the second parameter of a keyboard message: the key is being released.
pub const KF_UP_MASK: u32 = 0x8000_0000;

/// The message that reports the press of a key.
pub const WM_KEYDOWN: u32 = 0x0100;

/// The message that reports the release of a key.
pub const WM_KEYUP: u32 = 0x0101;

/// The status of an installation that was refused without an error code.
pub const HOOK_REFUSED: u32 = 0xFFFF_FFFF;

/// What the hook library knows: the window that key strokes are redirected
/// to, zero for none, and the handle of the installed hook, zero for none.
pub struct HookState {
    pub window: Volatile<usize>,
    pub hook: Volatile<usize>,
}

/// What the hook does with a key stroke.
#[derive(Debug, Clone, Copy, PartialEq, Eq, Structural)]
pub enum KeyVerdict {
    /// Post `message` with the key stroke's parameters to `window`; the key
    /// stroke ends here.
    Redirect { window: usize, message: u32 },
    /// There is no window to redirect to, so the hook has no business being
    /// installed: give the hook with this handle back; the key stroke ends
    /// here.
    Unhook { hook: usize },
    /// Pass the key stroke on to the next hook.
    PassOn,
}

impl HookState {
    /// The state of a library that was just loaded: no window, no hook.
    pub fn new() -> (state: Self)
        ensures
            state.window@ == 0,
            state.hook@ == 0,
    {
        HookState { window: Volatile::new(0), hook: Volatile::new(0) }
    }

    /// Whether a hook is installed.
    pub open spec fn hooked(&self) -> bool {
        self.hook@ != 0
    }

    /// An installation for `window` that found the state `self` leaves
    /// `after` and asks the operating system for a hook exactly if `ask`.
    pub open spec fn installs(&self, window: usize, after: Self, ask: bool) -> bool {
        &&& after.window@ == window
        &&& after.hook@ == self.hook@
        &&& ask == !self.hooked()
    }

    /// The answer `hook`, with the error code `last_error`, to a request for
    /// a hook leaves `after` and the status `status`.
    pub open spec fn grants(&self, hook: usize, last_error: u32, after: Self, status: u32) -> bool {
        &&& after.window@ == self.window@
        &&& after.hook@ == hook
        &&& status == (if hook != 0 {
            0
        } else if last_error != 0 {
            last_error
        } else {
            HOOK_REFUSED
        })
    }

    /// A removal that found the state `self` leaves `after` and gives the
    /// hook `unhook` back to the operating system, if any.
    pub open spec fn uninstalls(&self, after: Self, unhook: Option<usize>) -> bool {
        &&& after.window@ == 0
        &&& after.hook@ == 0
        &&& unhook == (if self.hooked() {
            Some(self.hook@)
        } else {
            None
        })
    }
}

/// Starts an installation: key strokes are to go to `window` from now on.
/// Returns whether the operating system has to be asked for a hook, which is
/// the case exactly if none is installed. Its answer goes to
/// [`hook_granted`].
pub fn install_hook(state: &mut HookState, window: usize) -> (ask: bool)
    ensures
        old(state).installs(window, *final(state), ask),
{
    state.window.set(window);
    state.hook.get() == 0
}

/// Ends an installation with the answer of the operating system: the handle
/// of the hook, zero if it was refused, and the last error code. The handle
/// is kept. The status is zero exactly if a hook was granted; else it is the
/// error code, or [`HOOK_REFUSED`] where there is none.
pub fn hook_granted(state: &mut HookState, hook: usize, last_error: u32) -> (status: u32)
    ensures
        old(state).grants(hook, last_error, *final(state), status),
        status == 0 <==> final(state).hooked(),
{
    state.hook.set(hook);
    if hook != 0 {
        0
    } else if last_error != 0 {
        last_error
    } else {
        HOOK_REFUSED
    }
}

/// Removes the redirection: there is no window to redirect to any more, and
/// the installed hook, if there is one, is to be given back to the operating
/// system.
pub fn uninstall_hook(state: &mut HookState) -> (unhook: Option<usize>)
    ensures
        old(state).uninstalls(*final(state), unhook),
{
    state.window.set(0);
    let hook = state.hook.get();
    if hook != 0 {
        state.hook.set(0);
        Some(hook)
    } else {
        None
    }
}

/// Decides on one key stroke that the operating system reports with the
/// code `ncode` and the parameters `wparam` and `lparam`.
///
/// A key stroke that the hook may handle, and that is not a typed Unicode
/// character, goes to the window, as a release where `lparam` says so and as
/// a press otherwise. Without a window the hook is removed if it is
/// installed. Everything else is passed on.
pub fn keyboard_hook(state: &mut HookState, ncode: i32, wparam: usize, lparam: isize) -> (verdict:
    KeyVerdict)
    ensures
        verdict == (if ncode >= 0 && wparam != VK_PACKET && old(state).window@ != 0 {
            KeyVerdict::Redirect {
                window: old(state).window@,
                message: if (lparam as u32) & KF_UP_MASK == KF_UP_MASK {
                    WM_KEYUP
                } else {
                    WM_KEYDOWN
                },
            }
        } else if ncode >= 0 && wparam != VK_PACKET && old(state).hooked() {
            KeyVerdict::Unhook { hook: old(state).hook@ }
        } else {
            KeyVerdict::PassOn
        }),
        verdict is Unhook ==> old(state).uninstalls(*final(state), Some(old(state).hook@)),
        !(verdict is Unhook) ==> final(state).window@ == old(state).window@ && final(state).hook@
            == old(state).hook@,
{
    if ncode >= 0 && wparam != VK_PACKET {
        let window = state.window.get();
        if window != 0 {
            let flags = #[verifier::truncate]
            (lparam as u32);
            let message = if flags & KF_UP_MASK == KF_UP_MASK {
                WM_KEYUP
            } else {
                WM_KEYDOWN
            };
            return KeyVerdict::Redirect { window, message };
        } else {
            match uninstall_hook(state) {
                Some(hook) => {
                    return KeyVerdict::Unhook { hook };
                },
                None => {},
            }
        }
    }
    KeyVerdict::PassOn
}

/// Removing the redirection where no hook is installed gives nothing back
/// to the operating system and leaves no hook.
pub proof fn law_uninstall_without_hook(before: HookState, after: HookState, unhook: Option<usize>)
    requires
        !before.hooked(),
        before.uninstalls(after, unhook),
    ensures
        unhook is None,
        !after.hooked(),
{
}

/// Removing the redirection twice gives the hook back once.
pub proof fn law_uninstall_twice(
    before: HookState,
    between: HookState,
    first: Option<usize>,
    after: HookState,
    second: Option<usize>,
)
    requires
        before.uninstalls(between, first),
        between.uninstalls(after, second),
    ensures
        second is None,
        after.window@ == between.window@,
        after.hook@ == between.hook@,
{
}

/// Installing twice without a removal in between makes one hook: the second
/// installation asks the operating system for nothing and keeps the hook of
/// the first. Only the window changes.
pub proof fn law_install_twice(
    before: HookState,
    window: usize,
    asked: HookState,
    ask: bool,
    hook: usize,
    last_error: u32,
    installed: HookState,
    status: u32,
    other_window: usize,
    after: HookState,
    ask_again: bool,
)
    requires
        before.installs(window, asked, ask),
        asked.grants(hook, last_error, installed, status),
        hook != 0,
        installed.installs(other_window, after, ask_again),
    ensures
        !ask_again,
        after.hook@ == hook,
        after.window@ == other_window,
{
}

} // verus!
