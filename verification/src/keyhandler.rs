//! A keyboard hook that watches for the shortcut by keeping track of the
//! Windows keys itself.

use crate::handler::MpscNotifier;
use crate::handler::Notifier;
use crate::handlers::key_shortcut::HookVerdict;
use crate::handlers::key_shortcut::VK_LWIN;
use crate::handlers::key_shortcut::VK_OEM_PERIOD;
use crate::handlers::key_shortcut::VK_RWIN;
use crate::handlers::key_shortcut::WM_KEYDOWN;
use vstd::prelude::*;

verus! {

/// Why the key handler could not be set up or taken down.
#[derive(Debug, Clone, Copy, PartialEq, Eq, Structural)]
pub enum KeyHandlerError {
    /// The operating system refused the keyboard hook.
    HookError,
    /// The operating system has no keyboard hooks.
    UnsupportedOS,
}

impl KeyHandlerError {
    /// The error in words.
    pub fn message(&self) -> (text: &'static str)
        ensures
            text@ == (match self {
                KeyHandlerError::HookError => "Could not hook key handler."@,
                KeyHandlerError::UnsupportedOS => "Unsupported OS"@,
            }),
    {
        match self {
            KeyHandlerError::HookError => "Could not hook key handler.",
            KeyHandlerError::UnsupportedOS => "Unsupported OS",
        }
    }
}

/// What the operating system answered when it was asked for a keyboard hook.
#[derive(Debug, Clone, Copy, PartialEq, Eq, Structural)]
pub enum HookAnswer {
    /// The hook, by its handle.
    Granted(usize),
    /// A refusal.
    Refused,
    /// There are no keyboard hooks on this system.
    Unsupported,
}

/// A keyboard hook, whether a Windows key is down, and the presses of the
/// shortcut that were not polled yet.
pub struct KeyHandler {
    inner: Option<usize>,
    windows_key_pressed: bool,
    queue: MpscNotifier<()>,
}

impl KeyHandler {
    /// The handle of the hook, while it is installed.
    pub closed spec fn inner(&self) -> Option<usize> {
        self.inner
    }

    /// Whether a Windows key is down, as far as the hook has seen.
    pub closed spec fn windows_key_pressed(&self) -> bool {
        self.windows_key_pressed
    }

    /// The presses of the shortcut that were not polled yet: at most one.
    pub closed spec fn presses(&self) -> nat {
        self.queue.queued().len()
    }

    /// The queue holds at most one press.
    pub closed spec fn wf(&self) -> bool {
        self.queue.wf() && self.queue.bound() == 1
    }

    /// Whether the queue has room for a press.
    pub closed spec fn takes(&self) -> bool {
        self.queue.queued().len() < self.queue.bound()
    }

    /// Makes the key handler of the answer of the operating system. No
    /// Windows key counts as down, and no press is queued.
    pub fn hook(answer: HookAnswer) -> (hooked: Result<Self, KeyHandlerError>)
        ensures
            match answer {
                HookAnswer::Granted(handle) => hooked matches Ok(handler) && handler.wf()
                    && handler.takes() && handler.inner() == Some(handle)
                    && !handler.windows_key_pressed() && handler.presses() == 0,
                HookAnswer::Refused => hooked matches Err(e) && e == KeyHandlerError::HookError,
                HookAnswer::Unsupported => hooked matches Err(e) && e
                    == KeyHandlerError::UnsupportedOS,
            },
    {
        match answer {
            HookAnswer::Granted(handle) => Ok(
                KeyHandler {
                    inner: Some(handle),
                    windows_key_pressed: false,
                    queue: MpscNotifier::new(1),
                },
            ),
            HookAnswer::Refused => Err(KeyHandlerError::HookError),
            HookAnswer::Unsupported => Err(KeyHandlerError::UnsupportedOS),
        }
    }

    /// Decides on one key stroke. A stroke of a Windows key is remembered:
    /// the key is down after a press and up after anything else. The press of
    /// the period key while a Windows key is down is the shortcut: it is
    /// queued, unless a press is queued already, and swallowed. Every other
    /// key stroke is passed on.
    pub fn keyboard_hook(&mut self, vk_code: u32, wparam: usize) -> (verdict: HookVerdict)
        ensures
            old(self).wf() ==> final(self).wf(),
            final(self).inner() == old(self).inner(),
            final(self).windows_key_pressed() == (if vk_code == VK_LWIN || vk_code == VK_RWIN {
                wparam == WM_KEYDOWN
            } else {
                old(self).windows_key_pressed()
            }),
            verdict == (if final(self).windows_key_pressed() && wparam == WM_KEYDOWN && vk_code
                == VK_OEM_PERIOD {
                HookVerdict::Swallow
            } else {
                HookVerdict::PassOn
            }),
            final(self).presses() == (if verdict == HookVerdict::Swallow && old(self).takes() {
                old(self).presses() + 1
            } else {
                old(self).presses()
            }),
    {
        if vk_code == VK_LWIN || vk_code == VK_RWIN {
            self.windows_key_pressed = wparam == WM_KEYDOWN;
        }
        if self.windows_key_pressed && wparam == WM_KEYDOWN && vk_code == VK_OEM_PERIOD {
            let _ = self.queue.send(());
            return HookVerdict::Swallow;
        }
        HookVerdict::PassOn
    }

    /// Takes the key handler down, and hands out the hook to give back to the
    /// operating system if one is still installed.
    pub fn unhook(self) -> (freed: Option<usize>)
        ensures
            freed == self.inner(),
    {
        self.inner
    }
}

impl Notifier<()> for KeyHandler {
    closed spec fn pending(&self) -> Seq<()> {
        self.queue.queued()
    }

    fn has_notified(&mut self) -> (event: Option<()>)
        ensures
            old(self).wf() ==> final(self).wf(),
            final(self).inner() == old(self).inner(),
            final(self).windows_key_pressed() == old(self).windows_key_pressed(),
    {
        self.queue.has_notified()
    }
}

} // verus!
