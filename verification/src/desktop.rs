//! What the effects of the picker's handlers do to the desktop.
//!
//! The desktop here is a model: four facts about the window of the picker
//! and what belongs to it. It serves to say what a cycle leaves behind, and to
//! try the picker out without a screen.

use crate::handlers::assembled;
use crate::handlers::has_overlay;
use crate::handlers::law_default_close_cycle;
use crate::handlers::law_default_open_cycle;
use crate::handlers::optional;
use crate::handlers::App;
use crate::handlers::DefaultHandlers;
use crate::handlers::Effect;
use crate::handlers::Features;
use crate::handlers::HandlerKind;
use crate::handlers::NotifierReason;
use crate::handlers::Startup;
use vstd::prelude::*;

verus! {

/// What is to be seen of the picker, and what it holds of the system.
#[derive(Debug, Clone, Copy, PartialEq, Eq, Structural)]
pub struct Desktop {
    /// The window of the picker is shown.
    pub window_visible: bool,
    /// The overlay that catches clicks outside the window is shown.
    pub overlay_visible: bool,
    /// A click on the window does not activate it.
    pub no_activate: bool,
    /// Key strokes are redirected to the window.
    pub hooked: bool,
}

impl Desktop {
    /// The desktop after `effect` was performed on it. Effects that touch
    /// none of the four facts leave it as it was.
    pub open spec fn after(self, effect: Effect) -> Desktop {
        match effect {
            Effect::ShowWindow => Desktop { window_visible: true, ..self },
            Effect::HideWindow => Desktop { window_visible: false, ..self },
            Effect::SetNoActivate(no_activate) => Desktop { no_activate, ..self },
            Effect::InstallHook => Desktop { hooked: true, ..self },
            Effect::UninstallHook => Desktop { hooked: false, ..self },
            Effect::ShowOverlay => Desktop { overlay_visible: true, ..self },
            Effect::HideOverlay => Desktop { overlay_visible: false, ..self },
            _ => self,
        }
    }

    /// The desktop after `effects` were performed on it, in order.
    pub open spec fn after_all(self, effects: Seq<Effect>) -> Desktop
        decreases effects.len(),
    {
        if effects.len() == 0 {
            self
        } else {
            self.after_all(effects.drop_last()).after(effects.last())
        }
    }

    /// Nothing of the picker is left on the desktop: no window, no overlay,
    /// no redirected key strokes.
    pub open spec fn is_clear(self) -> bool {
        !self.window_visible && !self.overlay_visible && !self.hooked
    }

    /// What holds of the desktop of the picker as it comes, whatever cycles
    /// it went through: an overlay or a redirection is there only while the
    /// window is shown, and only where its part belongs to the picker.
    pub open spec fn is_tidy(self, features: Features, startup: Startup) -> bool {
        &&& self.overlay_visible ==> self.window_visible && has_overlay(features, startup)
        &&& self.hooked ==> self.window_visible && features.key_redir
    }

    /// The desktop at startup: nothing of the picker is on it, and the
    /// window would take the focus.
    pub fn new() -> (desktop: Self)
        ensures
            desktop.is_clear(),
            !desktop.no_activate,
    {
        Desktop { window_visible: false, overlay_visible: false, no_activate: false, hooked: false }
    }

    /// Performs `effect`.
    pub fn perform(&mut self, effect: Effect)
        ensures
            *final(self) == old(self).after(effect),
    {
        match effect {
            Effect::ShowWindow => {
                self.window_visible = true;
            },
            Effect::HideWindow => {
                self.window_visible = false;
            },
            Effect::SetNoActivate(no_activate) => {
                self.no_activate = no_activate;
            },
            Effect::InstallHook => {
                self.hooked = true;
            },
            Effect::UninstallHook => {
                self.hooked = false;
            },
            Effect::ShowOverlay => {
                self.overlay_visible = true;
            },
            Effect::HideOverlay => {
                self.overlay_visible = false;
            },
            _ => {},
        }
    }

    /// Performs `effects`, in order.
    pub fn perform_all(&mut self, effects: &Vec<Effect>)
        ensures
            *final(self) == old(self).after_all(effects@),
    {
        let mut i: usize = 0;
        while i < effects.len()
            invariant
                i <= effects.len(),
                *self == old(self).after_all(effects@.take(i as int)),
            decreases effects.len() - i,
        {
            proof {
                assert(effects@.take(i + 1).drop_last() =~= effects@.take(i as int));
            }
            self.perform(effects[i]);
            i += 1;
        }
        proof {
            assert(effects@.take(effects.len() as int) =~= effects@);
        }
    }
}

/// Performing one list of effects after another is performing the two as
/// one.
pub proof fn law_after_all_appends(desktop: Desktop, first: Seq<Effect>, second: Seq<Effect>)
    ensures
        desktop.after_all(first + second) == desktop.after_all(first).after_all(second),
    decreases second.len(),
{
    if second.len() == 0 {
        assert(first + second =~= first);
    } else {
        law_after_all_appends(desktop, first, second.drop_last());
        assert((first + second).drop_last() =~= first + second.drop_last());
    }
}

/// What `optional` holds is performed where its condition holds, and nothing is
/// where it does not.
proof fn after_optional(desktop: Desktop, condition: bool, effect: Effect)
    ensures
        desktop.after_all(optional(condition, effect)) == (if condition {
            desktop.after(effect)
        } else {
            desktop
        }),
{
    reveal_with_fuel(Desktop::after_all, 2);
    if condition {
        assert(optional(condition, effect).drop_last() =~= Seq::<Effect>::empty());
    }
}

/// In the picker as it comes, every close cycle clears the desktop of a
/// tidy picker, whatever the reason and however the window was opened: the
/// window and the overlay are hidden, and the key strokes are given back.
pub proof fn law_close_clears_the_desktop(
    handlers: DefaultHandlers,
    features: Features,
    startup: Startup,
    before: App,
    after: App,
    reason: NotifierReason,
    effects: Seq<Effect>,
    desktop: Desktop,
)
    requires
        assembled(handlers, features, startup),
        handlers.closes(before, after, reason, effects),
        desktop.is_tidy(features, startup),
    ensures
        desktop.after_all(effects).is_clear(),
        desktop.after_all(effects).is_tidy(features, startup),
        desktop.after_all(effects).no_activate == desktop.no_activate,
{
    law_default_close_cycle(handlers, features, startup, before, after, reason, effects);
    let unhook = optional(features.key_redir, Effect::UninstallHook);
    let uncover = optional(has_overlay(features, startup), Effect::HideOverlay);
    let hide = seq![Effect::HideWindow];
    law_after_all_appends(desktop, unhook + uncover, hide);
    law_after_all_appends(desktop, unhook, uncover);
    after_optional(desktop, features.key_redir, Effect::UninstallHook);
    after_optional(desktop.after_all(unhook), has_overlay(features, startup), Effect::HideOverlay);
    after_optional(desktop.after_all(unhook).after_all(uncover), true, Effect::HideWindow);
    assert(hide =~= optional(true, Effect::HideWindow));
}

/// In the picker as it comes, every open cycle shows the window and keeps
/// the desktop tidy. Opened by the shortcut, the window has its overlay and
/// the key strokes, where those parts belong to the picker, and does not take
/// the focus where that part does.
pub proof fn law_open_keeps_the_desktop_tidy(
    handlers: DefaultHandlers,
    features: Features,
    startup: Startup,
    after: App,
    reason: NotifierReason,
    effects: Seq<Effect>,
    desktop: Desktop,
)
    requires
        assembled(handlers, features, startup),
        handlers.opens(after, reason, effects),
        desktop.is_tidy(features, startup),
    ensures
        desktop.after_all(effects).window_visible,
        desktop.after_all(effects).is_tidy(features, startup),
        reason == NotifierReason::Shortcut ==> {
            &&& desktop.after_all(effects).overlay_visible == has_overlay(features, startup)
            &&& desktop.after_all(effects).hooked == features.key_redir
            &&& features.no_activate ==> desktop.after_all(effects).no_activate
        },
        reason != NotifierReason::Shortcut ==> {
            &&& desktop.after_all(effects).overlay_visible == desktop.overlay_visible
            &&& desktop.after_all(effects).hooked == desktop.hooked
            &&& features.no_activate ==> !desktop.after_all(effects).no_activate
        },
{
    law_default_open_cycle(handlers, features, startup, after, reason, effects);
    let overlay = has_overlay(features, startup);
    let notify = seq![Effect::NotifyOpened];
    let place = optional(features.caret, Effect::PlaceNearCaret);
    let cover = optional(overlay, HandlerKind::OverlayOpen.effect(reason));
    let show = seq![Effect::ShowWindow];
    let focus = optional(
        features.no_activate,
        Effect::SetNoActivate(reason == NotifierReason::Shortcut),
    );
    let hook = optional(features.key_redir, HandlerKind::KeyRedirOpen.effect(reason));
    law_after_all_appends(desktop, notify + place + cover + show + focus, hook);
    law_after_all_appends(desktop, notify + place + cover + show, focus);
    law_after_all_appends(desktop, notify + place + cover, show);
    law_after_all_appends(desktop, notify + place, cover);
    law_after_all_appends(desktop, notify, place);
    assert(notify =~= optional(true, Effect::NotifyOpened));
    assert(show =~= optional(true, Effect::ShowWindow));
    let d1 = desktop.after_all(notify);
    after_optional(desktop, true, Effect::NotifyOpened);
    let d2 = d1.after_all(place);
    after_optional(d1, features.caret, Effect::PlaceNearCaret);
    let d3 = d2.after_all(cover);
    after_optional(d2, overlay, HandlerKind::OverlayOpen.effect(reason));
    let d4 = d3.after_all(show);
    after_optional(d3, true, Effect::ShowWindow);
    let d5 = d4.after_all(focus);
    after_optional(d4, features.no_activate, Effect::SetNoActivate(reason == NotifierReason::Shortcut));
    after_optional(d5, features.key_redir, HandlerKind::KeyRedirOpen.effect(reason));
}

} // verus!
