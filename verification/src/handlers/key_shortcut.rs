//! The global keyboard shortcut, Windows key and period, as a source of open
//! requests.

use crate::handler::MpscNotifier;
use crate::handler::Notifier;
use crate::handlers::NotifierReason;
use vstd::prelude::*;

verus! {

/// The message that reports the press of a key.
pub const WM_KEYDOWN: usize = 0x0100;

/// The left Windows key.
pub const VK_LWIN: u32 = 0x5B;

/// The right Windows key.
pub const VK_RWIN: u32 = 0x5C;

/// The period key.
pub const VK_OEM_PERIOD: u32 = 0xBE;

/// What a keyboard hook does with a key stroke.
#[derive(Debug, Clone, Copy, PartialEq, Eq, Structural)]
pub enum HookVerdict {
    /// The key stroke ends here: no other application sees it.
    Swallow,
    /// The key stroke goes on to the next hook.
    PassOn,
}

/// Whether a key is down whose state the operating system gives as `state`:
/// the highest bit says so.
pub fn key_is_down(state: i16) -> (down: bool)
    ensures
        down == (state < 0),
{
    assert(((state >> 15) & 1 == 1) == (state < 0)) by (bit_vector);
    (state >> 15) & 1 == 1
}

/// Whether a key stroke is the shortcut: the press of the period key while a
/// Windows key is down.
pub open spec fn is_shortcut(windows_key_pressed: bool, wparam: usize, vk_code: u32) -> bool {
    windows_key_pressed && wparam == WM_KEYDOWN && vk_code == VK_OEM_PERIOD
}

/// Tests [`is_shortcut`], for the hook itself, which has to answer at once.
pub fn shortcut_pressed(windows_key_pressed: bool, wparam: usize, vk_code: u32) -> (pressed: bool)
    ensures
        pressed == is_shortcut(windows_key_pressed, wparam, vk_code),
{
    windows_key_pressed && wparam == WM_KEYDOWN && vk_code == VK_OEM_PERIOD
}

/// Why the shortcut could not be set up.
#[derive(Debug, Clone, Copy, PartialEq, Eq, Structural)]
pub enum KeyShortcutError {
    /// The operating system refused the keyboard hook, with this code.
    HookError(i32),
}

/// The shortcut: the keyboard hook that watches for it, and the open
/// requests that it has made and that were not polled yet.
pub struct KeyShortcut {
    hook: usize,
    queue: MpscNotifier<NotifierReason>,
}

impl KeyShortcut {
    /// The handle of the keyboard hook, to give back to the operating system
    /// when the shortcut is dropped.
    pub closed spec fn hook(&self) -> usize {
        self.hook
    }

    /// The queue holds at most one request.
    pub closed spec fn wf(&self) -> bool {
        self.queue.wf() && self.queue.bound() == 1
    }

    /// Whether the queue has room for a request.
    pub closed spec fn takes(&self) -> bool {
        self.queue.queued().len() < self.queue.bound()
    }

    /// Makes the shortcut of what the operating system answered when it was
    /// asked for a keyboard hook: a handle, or the code of an error.
    pub fn create(hooked: Result<usize, i32>) -> (created: Result<Self, KeyShortcutError>)
        ensures
            match hooked {
                Ok(handle) => created matches Ok(shortcut) && shortcut.hook() == handle
                    && shortcut.wf() && shortcut.takes() && shortcut.pending() == Seq::<
                    NotifierReason,
                >::empty(),
                Err(code) => created matches Err(e) && e == KeyShortcutError::HookError(code),
            },
    {
        match hooked {
            Ok(handle) => Ok(KeyShortcut { hook: handle, queue: MpscNotifier::new(1) }),
            Err(code) => Err(KeyShortcutError::HookError(code)),
        }
    }

    /// The handle of the keyboard hook.
    pub fn hook_handle(&self) -> (handle: usize)
        ensures
            handle == self.hook(),
    {
        self.hook
    }

    /// Decides on one key stroke. The shortcut is swallowed and asks for the
    /// window to open, without waiting: a request that finds one queued
    /// already is dropped. Every other key stroke is passed on.
    pub fn keyboard_hook(&mut self, windows_key_pressed: bool, wparam: usize, vk_code: u32) -> (verdict:
        HookVerdict)
        ensures
            old(self).wf() ==> final(self).wf(),
            final(self).hook() == old(self).hook(),
            is_shortcut(windows_key_pressed, wparam, vk_code) ==> verdict == HookVerdict::Swallow,
            !is_shortcut(windows_key_pressed, wparam, vk_code) ==> verdict == HookVerdict::PassOn,
            final(self).pending() == (if is_shortcut(windows_key_pressed, wparam, vk_code) && old(
                self,
            ).takes() {
                old(self).pending().push(NotifierReason::Shortcut)
            } else {
                old(self).pending()
            }),
    {
        if shortcut_pressed(windows_key_pressed, wparam, vk_code) {
            let _ = self.queue.send(NotifierReason::Shortcut);
            HookVerdict::Swallow
        } else {
            HookVerdict::PassOn
        }
    }
}

impl Notifier<NotifierReason> for KeyShortcut {
    closed spec fn pending(&self) -> Seq<NotifierReason> {
        self.queue.queued()
    }

    fn has_notified(&mut self) -> (event: Option<NotifierReason>)
        ensures
            old(self).wf() ==> final(self).wf(),
            final(self).hook() == old(self).hook(),
    {
        self.queue.has_notified()
    }
}

} // verus!
