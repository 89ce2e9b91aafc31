//! Redirecting key strokes to a window with a hook of the picker's own
//! process.

use vstd::prelude::*;

verus! {

/// The escape key, which is never redirected.
pub const VK_ESCAPE: u32 = 0x1B;

/// What the hook does with a key stroke.
#[derive(Debug, Clone, Copy, PartialEq, Eq, Structural)]
pub enum Redirected {
    /// The key stroke ends here.
    Swallow,
    /// Post `message` with the key and its flags to `window`; the key stroke
    /// ends here.
    Post { window: usize, message: u32 },
    /// Pass the key stroke on to the next hook.
    PassOn,
}

/// The redirection: the hook, while one is installed, and the window that
/// key strokes go to, once one was set.
pub struct KeyRedirection {
    inner: Option<usize>,
    window: Option<usize>,
}

impl KeyRedirection {
    /// The handle of the hook, while one is installed.
    pub closed spec fn inner(&self) -> Option<usize> {
        self.inner
    }

    /// The window that key strokes go to, once one was set.
    pub closed spec fn window(&self) -> Option<usize> {
        self.window
    }

    /// A redirection without a hook and without a window.
    pub fn new() -> (redirection: Self)
        ensures
            redirection.inner() is None,
            redirection.window() is None,
    {
        KeyRedirection { inner: None, window: None }
    }

    /// Sets the window that key strokes go to. Returns whether the operating
    /// system has to be asked for a hook, which is the case exactly if none
    /// is installed. Its answer goes to [`Self::target_hooked`].
    pub fn set_target(&mut self, window: usize) -> (ask: bool)
        ensures
            final(self).window() == Some(window),
            final(self).inner() == old(self).inner(),
            ask == old(self).inner() is None,
    {
        self.window = Some(window);
        self.inner.is_none()
    }

    /// Takes the answer of the operating system to the request for a hook:
    /// its handle, or nothing if it was refused. A granted hook is kept; a
    /// refusal is an error and changes nothing.
    pub fn target_hooked(&mut self, granted: Option<usize>) -> (set: Result<(), ()>)
        ensures
            final(self).window() == old(self).window(),
            granted is Some ==> set is Ok && final(self).inner() == granted,
            granted is None ==> set is Err && final(self).inner() == old(self).inner(),
    {
        match granted {
            Some(hook) => {
                self.inner = Some(hook);
                Ok(())
            },
            None => Err(()),
        }
    }

    /// Stops redirecting: hands out the hook to give back to the operating
    /// system, if one is installed, and keeps none.
    pub fn stop(&mut self) -> (unhook: Option<usize>)
        ensures
            unhook == old(self).inner(),
            final(self).inner() is None,
            final(self).window() == old(self).window(),
    {
        self.inner.take()
    }

    /// Decides on the stroke of the key `vk_code` that the operating system
    /// reports with the message `wparam`. The escape key is swallowed. Every
    /// other key goes to the window, with the message it came with, once a
    /// window was set, and is passed on before.
    pub fn keyboard_hook(&self, vk_code: u32, wparam: usize) -> (verdict: Redirected)
        ensures
            verdict == (if vk_code == VK_ESCAPE {
                Redirected::Swallow
            } else {
                match self.window() {
                    Some(window) => Redirected::Post { window, message: wparam as u32 },
                    None => Redirected::PassOn,
                }
            }),
    {
        if vk_code == VK_ESCAPE {
            return Redirected::Swallow;
        }
        match self.window {
            Some(window) => Redirected::Post {
                window,
                message: #[verifier::truncate]
                (wparam as u32),
            },
            None => Redirected::PassOn,
        }
    }
}

} // verus!
