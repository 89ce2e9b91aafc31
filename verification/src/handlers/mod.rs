//! The registry of notifiers and handlers, and the open/close cycle of the
//! picker window that it drives.

use crate::handler::Handler;
use crate::handler::HandlerFn;
use crate::handler::MpscNotifier;
use crate::handler::Notifier;
use crate::handler::OnceNotifier;
use crate::handlers::key_shortcut::KeyShortcut;
use crate::handlers::key_shortcut::KeyShortcutError;
use crate::handlers::tray_icon::TrayIconNotifier;
use crate::poller::queues;
use crate::poller::Poller;
use vstd::prelude::*;

pub mod back_click;
pub mod caret_locator;
pub mod emoji_selected;
pub mod key_redir;
pub mod key_shortcut;
pub mod no_activate;
pub mod on_close_slint;
pub mod on_open_slint;
pub mod tray_icon;

verus! {

/// Why an open or close cycle of the picker window was started.
#[derive(Debug, Clone, Copy, PartialEq, Eq, Structural)]
pub enum NotifierReason {
    /// Nothing specific to signal.
    Unspecified,
    /// The global keyboard shortcut was pressed.
    Shortcut,
    /// The "Show" entry of the tray icon was chosen.
    TrayIcon,
    /// A click landed outside the picker window.
    Backclick,
}

impl NotifierReason {
    /// Whether a selected emoji is typed into the focused application
    /// rather than copied to the clipboard.
    pub fn should_type_emoji(&self) -> (typed: bool)
        ensures
            typed == (*self == NotifierReason::Shortcut),
    {
        matches!(self, NotifierReason::Shortcut)
    }
}

/// Where the picker window stands in its open/close cycle.
#[derive(Debug, Clone, Copy, PartialEq, Eq, Structural)]
pub enum WindowState {
    /// The window is hidden.
    Closed,
    /// An open was requested; the before-open handlers run.
    Opening,
    /// The window is shown; the on-open handlers run or have run.
    Open,
}

/// The state of the application that handlers are shown: the reason of the
/// current open cycle and the state of the window.
#[derive(Debug, Clone, Copy, PartialEq, Eq, Structural)]
pub struct App {
    pub open_source: NotifierReason,
    pub window: WindowState,
}

impl App {
    /// The state at startup: the window is closed and no reason is recorded.
    pub fn new() -> (app: Self)
        ensures
            app.open_source == NotifierReason::Unspecified,
            app.window == WindowState::Closed,
    {
        App { open_source: NotifierReason::Unspecified, window: WindowState::Closed }
    }

    /// Records the reason of the open cycle that starts.
    pub fn set_reason(&mut self, reason: NotifierReason)
        ensures
            final(self).open_source == reason,
            final(self).window == old(self).window,
    {
        self.open_source = reason;
    }

    /// The reason of the current open cycle.
    pub fn get_reason(&self) -> (reason: NotifierReason)
        ensures
            reason == self.open_source,
    {
        self.open_source
    }
}

/// One side effect that a handler asks for. The registry only collects
/// effects; whoever owns the window performs them, in the order given.
#[derive(Debug, Clone, Copy, PartialEq, Eq, Structural)]
pub enum Effect {
    /// Nothing to do.
    Nothing,
    /// Show the picker window.
    ShowWindow,
    /// Hide the picker window.
    HideWindow,
    /// Tell the user interface that the window opens.
    NotifyOpened,
    /// Move the window next to the text caret, if the caret can be found.
    PlaceNearCaret,
    /// Switch activation of the window on click off (`true`) or on (`false`).
    SetNoActivate(bool),
    /// Redirect key strokes to the picker window.
    InstallHook,
    /// Stop redirecting key strokes.
    UninstallHook,
    /// Show the overlay that catches clicks outside the window.
    ShowOverlay,
    /// Hide the overlay.
    HideOverlay,
    /// Type the selected emoji into the focused application.
    TypeEmoji,
    /// Copy the selected emoji to the clipboard.
    CopyEmoji,
}

/// What the handlers of the window's cycle are called with.
pub type HandlerArgs = (App, NotifierReason);

/// What the handlers of an emoji selection are called with.
pub type SelectionArgs = (App, String);

/// The handlers of the window's cycle that the picker comes with. Each is a
/// decision on the reason of the cycle; [`HandlerKind::effect`] states it.
#[derive(Debug, Clone, Copy, PartialEq, Eq, Structural)]
pub enum HandlerKind {
    /// Before the window opens: tell the user interface.
    NotifyUi,
    /// Before the window opens: move it next to the text caret.
    CaretLocator,
    /// Once the window is open: a window opened by the shortcut must not take
    /// the focus from the application that is typed into.
    NoActivate,
    /// Once the window is open: a window opened by the shortcut gets the key
    /// strokes redirected to it.
    KeyRedirOpen,
    /// When the window closes: stop redirecting key strokes.
    KeyRedirClose,
    /// Before the window opens: a window opened by the shortcut gets the
    /// overlay that catches clicks outside it.
    OverlayOpen,
    /// When the window closes: hide the overlay.
    OverlayClose,
}

impl HandlerKind {
    /// What this handler asks for in a cycle with the reason `reason`.
    pub open spec fn effect(self, reason: NotifierReason) -> Effect {
        match self {
            HandlerKind::NotifyUi => Effect::NotifyOpened,
            HandlerKind::CaretLocator => Effect::PlaceNearCaret,
            HandlerKind::NoActivate => Effect::SetNoActivate(reason == NotifierReason::Shortcut),
            HandlerKind::KeyRedirOpen => if reason == NotifierReason::Shortcut {
                Effect::InstallHook
            } else {
                Effect::Nothing
            },
            HandlerKind::KeyRedirClose => Effect::UninstallHook,
            HandlerKind::OverlayOpen => if reason == NotifierReason::Shortcut {
                Effect::ShowOverlay
            } else {
                Effect::Nothing
            },
            HandlerKind::OverlayClose => Effect::HideOverlay,
        }
    }
}

impl HandlerFn<HandlerArgs, Effect> for HandlerKind {
    open spec fn accepts(&self, a: &HandlerArgs) -> bool {
        true
    }

    open spec fn yields(&self, a: &HandlerArgs, out: Effect) -> bool {
        out == self.effect(a.1)
    }

    fn invoke(&self, a: &HandlerArgs) -> (out: Effect) {
        let by_shortcut = matches!(a.1, NotifierReason::Shortcut);
        match self {
            HandlerKind::NotifyUi => Effect::NotifyOpened,
            HandlerKind::CaretLocator => Effect::PlaceNearCaret,
            HandlerKind::NoActivate => Effect::SetNoActivate(by_shortcut),
            HandlerKind::KeyRedirOpen => if by_shortcut {
                Effect::InstallHook
            } else {
                Effect::Nothing
            },
            HandlerKind::KeyRedirClose => Effect::UninstallHook,
            HandlerKind::OverlayOpen => if by_shortcut {
                Effect::ShowOverlay
            } else {
                Effect::Nothing
            },
            HandlerKind::OverlayClose => Effect::HideOverlay,
        }
    }
}

/// The handler of an emoji selection that the picker comes with: the emoji
/// is typed when the shortcut opened the window, and copied otherwise.
#[derive(Debug, Clone, Copy, PartialEq, Eq, Structural)]
pub struct Deliver;

impl Deliver {
    /// How an emoji is delivered that is selected in a cycle with the reason
    /// `open_source`.
    pub open spec fn effect(open_source: NotifierReason) -> Effect {
        if open_source == NotifierReason::Shortcut {
            Effect::TypeEmoji
        } else {
            Effect::CopyEmoji
        }
    }
}

impl HandlerFn<SelectionArgs, Effect> for Deliver {
    open spec fn accepts(&self, a: &SelectionArgs) -> bool {
        true
    }

    open spec fn yields(&self, a: &SelectionArgs, out: Effect) -> bool {
        out == Deliver::effect(a.0.open_source)
    }

    fn invoke(&self, a: &SelectionArgs) -> (out: Effect) {
        if a.0.get_reason().should_type_emoji() {
            Effect::TypeEmoji
        } else {
            Effect::CopyEmoji
        }
    }
}

/// A handler that runs before the window opens.
pub type BeforeOpenHandler = Handler<HandlerArgs, Effect, HandlerKind>;

/// A handler that runs once the window is open.
pub type OnOpenHandler = Handler<HandlerArgs, Effect, HandlerKind>;

/// A handler that runs when the window closes.
pub type OnCloseHandler = Handler<HandlerArgs, Effect, HandlerKind>;

/// A handler that runs when an emoji is selected.
pub type EmojiSelectedHandler = Handler<SelectionArgs, Effect, Deliver>;

/// The sources of open and close requests that the picker comes with.
pub enum Source {
    /// Fires once.
    Once(OnceNotifier<NotifierReason>),
    /// Hands out what was sent to it, in the order of sending.
    Channel(MpscNotifier<NotifierReason>),
    /// The global keyboard shortcut.
    Shortcut(KeyShortcut),
    /// The tray icon.
    Tray(TrayIconNotifier),
}

impl Source {
    /// Whether the source keeps to the bound of its queue.
    pub open spec fn wf(&self) -> bool {
        match self {
            Source::Once(_) => true,
            Source::Channel(queue) => queue.wf(),
            Source::Shortcut(shortcut) => shortcut.wf(),
            Source::Tray(tray) => tray.wf(),
        }
    }

    /// Whether the source takes an event that is sent to it now: a channel
    /// with room does. A full channel does not, and neither do the sources
    /// that make their events themselves.
    pub open spec fn takes(&self) -> bool {
        match self {
            Source::Channel(queue) => queue.queued().len() < queue.bound(),
            _ => false,
        }
    }

    /// Sends `reason` to the source without waiting. A source that does not
    /// take it hands it back and stays as it was.
    pub fn send(&mut self, reason: NotifierReason) -> (sent: Result<(), NotifierReason>)
        ensures
            old(self).wf() ==> final(self).wf(),
            old(self).takes() ==> sent == Ok::<(), NotifierReason>(()) && final(self).pending()
                == old(self).pending().push(reason),
            !old(self).takes() ==> sent == Err::<(), NotifierReason>(reason),
            !old(self).takes() ==> final(self).pending() == old(self).pending(),
    {
        match self {
            Source::Channel(queue) => queue.send(reason),
            _ => Err(reason),
        }
    }
}

impl Notifier<NotifierReason> for Source {
    open spec fn pending(&self) -> Seq<NotifierReason> {
        match self {
            Source::Once(once) => once.pending(),
            Source::Channel(queue) => queue.pending(),
            Source::Shortcut(shortcut) => shortcut.pending(),
            Source::Tray(tray) => tray.pending(),
        }
    }

    fn has_notified(&mut self) -> (event: Option<NotifierReason>)
        ensures
            old(self).wf() ==> final(self).wf(),
    {
        match self {
            Source::Once(once) => once.has_notified(),
            Source::Channel(queue) => queue.has_notified(),
            Source::Shortcut(shortcut) => shortcut.has_notified(),
            Source::Tray(tray) => tray.has_notified(),
        }
    }
}

/// A source of open requests.
pub type OpenerNotifier = Source;

/// A source of close requests.
pub type CloserNotifier = Source;

/// All the notifiers and handlers of the picker.
#[verifier::reject_recursive_types(F)]
#[verifier::reject_recursive_types(G)]
pub struct Handlers<
    N: Notifier<NotifierReason>,
    F: HandlerFn<HandlerArgs, Effect>,
    G: HandlerFn<SelectionArgs, Effect>,
> {
    pub openers: Vec<N>,
    pub closers: Vec<N>,
    pub emoji_selected: Vec<Handler<SelectionArgs, Effect, G>>,
    pub on_close_handlers: Vec<Handler<HandlerArgs, Effect, F>>,
    pub before_open_handlers: Vec<Handler<HandlerArgs, Effect, F>>,
    pub on_open_handlers: Vec<Handler<HandlerArgs, Effect, F>>,
}

/// The events of the user interface that run a list of handlers.
pub enum HandlerEvent<'a> {
    Open(&'a HandlerArgs),
    BeforeOpen(&'a HandlerArgs),
    Close(&'a HandlerArgs),
    EmojiSelected(&'a SelectionArgs),
}

/// The events that an outside source requests.
#[derive(Debug, Clone, Copy, PartialEq, Eq, Structural)]
pub enum HandlerNotifyEvent {
    Open,
    Close,
}

/// `effects` holds, for each handler of `list` in registration order, what
/// that handler returned when it was called with `args`.
pub open spec fn ran_all<Args, F: HandlerFn<Args, Effect>>(
    list: Seq<Handler<Args, Effect, F>>,
    args: &Args,
    effects: Seq<Effect>,
) -> bool {
    &&& effects.len() == list.len()
    &&& forall|i: int|
        0 <= i < list.len() ==> (#[trigger] list[i]).callback().yields(args, effects[i])
}

/// Calls every handler of `list` with `args`, in registration order.
pub fn call_all<Args, F: HandlerFn<Args, Effect>>(
    list: &Vec<Handler<Args, Effect, F>>,
    args: &Args,
) -> (effects: Vec<Effect>)
    ensures
        ran_all(list@, args, effects@),
{
    let mut effects: Vec<Effect> = Vec::new();
    let mut i: usize = 0;
    while i < list.len()
        invariant
            i <= list.len(),
            effects@.len() == i,
            forall|k: int| 0 <= k < i ==> (#[trigger] list@[k]).callback().yields(args, effects@[k]),
        decreases list.len() - i,
    {
        let effect = list[i].call(args);
        effects.push(effect);
        i += 1;
    }
    effects
}

impl<
    N: Notifier<NotifierReason>,
    F: HandlerFn<HandlerArgs, Effect>,
    G: HandlerFn<SelectionArgs, Effect>,
> Handlers<N, F, G> {
    /// Calls every handler registered for `event`, in registration order, with
    /// the arguments that the event carries, and returns what they asked for.
    pub fn trigger(&self, event: HandlerEvent) -> (effects: Vec<Effect>)
        ensures
            match event {
                HandlerEvent::Open(args) => ran_all(self.on_open_handlers@, args, effects@),
                HandlerEvent::BeforeOpen(args) => ran_all(
                    self.before_open_handlers@,
                    args,
                    effects@,
                ),
                HandlerEvent::Close(args) => ran_all(self.on_close_handlers@, args, effects@),
                HandlerEvent::EmojiSelected(args) => ran_all(self.emoji_selected@, args, effects@),
            },
    {
        match event {
            HandlerEvent::EmojiSelected(args) => call_all(&self.emoji_selected, args),
            HandlerEvent::Open(args) => call_all(&self.on_open_handlers, args),
            HandlerEvent::BeforeOpen(args) => call_all(&self.before_open_handlers, args),
            HandlerEvent::Close(args) => call_all(&self.on_close_handlers, args),
        }
    }

    /// What an open cycle with the reason `reason` does: the reason is
    /// recorded; every before-open handler is called, in registration order,
    /// while the window is opening; the window is shown; every on-open handler
    /// is called, in registration order, with the window open. Each handler is
    /// called once and sees `reason`; `effects` holds what they asked for, in
    /// the order of the calls, with the showing of the window in between.
    pub open spec fn opens(&self, after: App, reason: NotifierReason, effects: Seq<Effect>) -> bool {
        let n = self.before_open_handlers@.len() as int;
        let m = self.on_open_handlers@.len() as int;
        let opening = App { open_source: reason, window: WindowState::Opening };
        let open = App { open_source: reason, window: WindowState::Open };
        &&& after == open
        &&& effects.len() == n + 1 + m
        &&& ran_all(self.before_open_handlers@, &(opening, reason), effects.subrange(0, n))
        &&& effects[n] == Effect::ShowWindow
        &&& ran_all(self.on_open_handlers@, &(open, reason), effects.subrange(n + 1, n + 1 + m))
    }

    /// What a close cycle with the reason `reason` does: every on-close
    /// handler is called once, in registration order, and sees `reason`; then
    /// the window is hidden. The reason of the open cycle stays recorded.
    pub open spec fn closes(
        &self,
        before: App,
        after: App,
        reason: NotifierReason,
        effects: Seq<Effect>,
    ) -> bool {
        let n = self.on_close_handlers@.len() as int;
        let closed = App { open_source: before.open_source, window: WindowState::Closed };
        &&& after == closed
        &&& effects.len() == n + 1
        &&& ran_all(self.on_close_handlers@, &(closed, reason), effects.subrange(0, n))
        &&& effects[n] == Effect::HideWindow
    }

    /// Runs one open cycle: see [`Handlers::opens`].
    pub fn open_window(&self, app: &mut App, reason: NotifierReason) -> (effects: Vec<Effect>)
        ensures
            self.opens(*final(app), reason, effects@),
    {
        app.set_reason(reason);
        app.window = WindowState::Opening;
        let before_args = (*app, reason);
        let mut effects = self.trigger(HandlerEvent::BeforeOpen(&before_args));
        let ghost before = effects@;
        effects.push(Effect::ShowWindow);
        app.window = WindowState::Open;
        let open_args = (*app, reason);
        let mut after = self.trigger(HandlerEvent::Open(&open_args));
        let ghost opened = after@;
        effects.append(&mut after);
        proof {
            let n = self.before_open_handlers@.len() as int;
            let m = self.on_open_handlers@.len() as int;
            assert(effects@.subrange(0, n) =~= before);
            assert(effects@.subrange(n + 1, n + 1 + m) =~= opened);
        }
        effects
    }

    /// Runs one close cycle: see [`Handlers::closes`].
    pub fn close_window(&self, app: &mut App, reason: NotifierReason) -> (effects: Vec<Effect>)
        ensures
            self.closes(*old(app), *final(app), reason, effects@),
    {
        app.window = WindowState::Closed;
        let args = (*app, reason);
        let mut effects = self.trigger(HandlerEvent::Close(&args));
        let ghost closed = effects@;
        effects.push(Effect::HideWindow);
        proof {
            assert(effects@.subrange(0, self.on_close_handlers@.len() as int) =~= closed);
        }
        effects
    }

    /// Reports the selection of the emoji `code` to every handler of a
    /// selection, in registration order, together with the state of the
    /// application, and so with the reason of the current open cycle.
    pub fn select_emoji(&self, app: &App, code: String) -> (effects: Vec<Effect>)
        ensures
            ran_all(self.emoji_selected@, &(*app, code), effects@),
    {
        let args = (*app, code);
        self.trigger(HandlerEvent::EmojiSelected(&args))
    }

    /// Hands the notifiers of `event` over to a poller that reports to
    /// `callback`. The registry keeps the handlers and the other notifiers; its
    /// list for `event` is empty afterwards.
    pub fn setup_poller<Out, C: HandlerFn<NotifierReason, Out>>(
        &mut self,
        event: HandlerNotifyEvent,
        callback: Handler<NotifierReason, Out, C>,
    ) -> (poller: Poller<NotifierReason, N, Out, C>)
        ensures
            poller.callback == callback,
            !poller.stop,
            event == HandlerNotifyEvent::Open ==> poller.notifiers == old(self).openers
                && final(self).openers@.len() == 0 && final(self).closers == old(self).closers,
            event == HandlerNotifyEvent::Close ==> poller.notifiers == old(self).closers
                && final(self).closers@.len() == 0 && final(self).openers == old(self).openers,
            final(self).emoji_selected == old(self).emoji_selected,
            final(self).on_close_handlers == old(self).on_close_handlers,
            final(self).before_open_handlers == old(self).before_open_handlers,
            final(self).on_open_handlers == old(self).on_open_handlers,
    {
        let mut notifiers: Vec<N> = Vec::new();
        match event {
            HandlerNotifyEvent::Open => {
                std::mem::swap(&mut self.openers, &mut notifiers);
            },
            HandlerNotifyEvent::Close => {
                std::mem::swap(&mut self.closers, &mut notifiers);
            },
        }
        Poller::new(notifiers, callback)
    }
}

/// The optional parts of the picker.
#[derive(Debug, Clone, Copy, PartialEq, Eq, Structural)]
pub struct Features {
    /// Place the window next to the text caret.
    pub caret: bool,
    /// Keep a window that the shortcut opened from taking the focus.
    pub no_activate: bool,
    /// Open the window on the global keyboard shortcut.
    pub key_shortcut: bool,
    /// Redirect key strokes to a window that the shortcut opened.
    pub key_redir: bool,
    /// Open the window from a tray icon.
    pub tray_icon: bool,
    /// Close the window on a click outside it.
    pub back_click: bool,
}

/// What the operating system answered at startup to the requests that the
/// optional parts make. An answer counts only where its part is switched on.
#[derive(Debug, Clone, Copy)]
pub struct Startup {
    /// The keyboard hook of the shortcut: its handle, or the code of the
    /// error.
    pub hotkey_hook: Result<usize, i32>,
    /// Whether the overlay that catches clicks outside the window exists.
    pub overlay_created: bool,
}

/// An optional part that was switched on and could not be set up. The picker
/// runs without it.
#[derive(Debug, Clone, Copy, PartialEq, Eq, Structural)]
pub enum AssemblyFailure {
    /// The global keyboard shortcut.
    KeyShortcut(KeyShortcutError),
    /// The overlay that catches clicks outside the window.
    OutsideClick,
}

/// The registry of the picker as it comes.
pub type DefaultHandlers = Handlers<Source, HandlerKind, Deliver>;

/// `item` alone where `condition` holds, and nothing where it does not.
pub open spec fn optional<T>(condition: bool, item: T) -> Seq<T> {
    if condition {
        seq![item]
    } else {
        Seq::empty()
    }
}

/// The callbacks of a list of handlers, in registration order.
pub open spec fn callbacks<Args, F: HandlerFn<Args, Effect>>(
    list: Seq<Handler<Args, Effect, F>>,
) -> Seq<F> {
    Seq::new(list.len(), |i: int| list[i].callback())
}

/// Whether the shortcut is part of the picker: it is switched on and its
/// keyboard hook was granted.
pub open spec fn has_shortcut(features: Features, startup: Startup) -> bool {
    features.key_shortcut && startup.hotkey_hook is Ok
}

/// Whether the overlay is part of the picker: it is switched on and exists.
pub open spec fn has_overlay(features: Features, startup: Startup) -> bool {
    features.back_click && startup.overlay_created
}

/// What the registry of the picker holds, part by part and in registration
/// order.
///
/// The window opens on the one request that is made at startup, on the
/// shortcut and on the tray icon, and closes on the request of the user
/// interface and on a click outside. No request waits in a source but the one
/// of startup.
pub open spec fn assembled(handlers: DefaultHandlers, features: Features, startup: Startup) -> bool {
    let shortcut = has_shortcut(features, startup);
    let overlay = has_overlay(features, startup);
    let none = Seq::<NotifierReason>::empty();
    &&& queues(handlers.openers@) == seq![seq![NotifierReason::Unspecified]] + optional(shortcut, none)
        + optional(features.tray_icon, none)
    &&& handlers.openers@[0] is Once
    &&& shortcut ==> (handlers.openers@[1] matches Source::Shortcut(hotkey) && hotkey.takes()
        && Ok::<usize, i32>(hotkey.hook()) == startup.hotkey_hook)
    &&& features.tray_icon ==> (handlers.openers@[handlers.openers@.len() - 1] matches Source::Tray(
        tray,
    ) && tray.takes())
    &&& forall|i: int| 0 <= i < handlers.openers@.len() ==> (#[trigger] handlers.openers@[i]).wf()
    &&& queues(handlers.closers@) == seq![none] + optional(overlay, none)
    &&& forall|i: int|
        0 <= i < handlers.closers@.len() ==> (#[trigger] handlers.closers@[i]).wf()
            && handlers.closers@[i].takes()
    &&& callbacks(handlers.before_open_handlers@) == seq![HandlerKind::NotifyUi] + optional(
        features.caret,
        HandlerKind::CaretLocator,
    ) + optional(overlay, HandlerKind::OverlayOpen)
    &&& callbacks(handlers.on_open_handlers@) == optional(features.no_activate, HandlerKind::NoActivate)
        + optional(features.key_redir, HandlerKind::KeyRedirOpen)
    &&& callbacks(handlers.on_close_handlers@) == optional(
        features.key_redir,
        HandlerKind::KeyRedirClose,
    ) + optional(overlay, HandlerKind::OverlayClose)
    &&& callbacks(handlers.emoji_selected@) == seq![Deliver]
}

/// The optional parts that are switched on and could not be set up.
pub open spec fn failed_parts(features: Features, startup: Startup) -> Seq<AssemblyFailure> {
    (match startup.hotkey_hook {
        Err(code) => optional(
            features.key_shortcut,
            AssemblyFailure::KeyShortcut(KeyShortcutError::HookError(code)),
        ),
        Ok(_) => Seq::empty(),
    }) + optional(features.back_click && !startup.overlay_created, AssemblyFailure::OutsideClick)
}

/// Puts the registry of the picker together: see [`assembled`]. A part that
/// could not be set up is left out and reported.
pub fn get_handlers(features: Features, startup: Startup) -> (assembly: (
    DefaultHandlers,
    Vec<AssemblyFailure>,
))
    ensures
        assembled(assembly.0, features, startup),
        assembly.1@ == failed_parts(features, startup),
{
    let mut emoji_selected: Vec<EmojiSelectedHandler> = Vec::new();
    let mut openers: Vec<OpenerNotifier> = Vec::new();
    let mut closers: Vec<CloserNotifier> = Vec::new();
    let mut on_close_handlers: Vec<OnCloseHandler> = Vec::new();
    let mut on_open_handlers: Vec<OnOpenHandler> = Vec::new();
    let mut before_open_handlers: Vec<BeforeOpenHandler> = Vec::new();
    let mut failures: Vec<AssemblyFailure> = Vec::new();
    let ghost none = Seq::<NotifierReason>::empty();

    // The window opens at startup.
    openers.push(Source::Once(OnceNotifier::new(NotifierReason::Unspecified)));

    closers.push(on_close_slint::get_close_shortcut_notifier());
    before_open_handlers.push(on_open_slint::get_handler());

    emoji_selected.push(emoji_selected::get_handler());

    if features.caret {
        before_open_handlers.push(caret_locator::get_handler());
    }
    if features.no_activate {
        on_open_handlers.push(no_activate::get_handler());
    }
    if features.key_shortcut {
        match KeyShortcut::create(startup.hotkey_hook) {
            Ok(shortcut) => {
                openers.push(Source::Shortcut(shortcut));
            },
            Err(e) => {
                failures.push(AssemblyFailure::KeyShortcut(e));
            },
        }
    }
    if features.key_redir {
        on_open_handlers.push(key_redir::get_open_handler());
        on_close_handlers.push(key_redir::get_close_handler());
    }
    if features.tray_icon {
        openers.push(Source::Tray(tray_icon::initialize()));
    }
    if features.back_click {
        match back_click::generate_handlers(startup.overlay_created) {
            Some(outside_click_handlers) => {
                before_open_handlers.push(outside_click_handlers.on_open_handler);
                on_close_handlers.push(outside_click_handlers.on_close_handler);
                closers.push(outside_click_handlers.closer);
            },
            None => {
                failures.push(AssemblyFailure::OutsideClick);
            },
        }
    }
    proof {
        let shortcut = has_shortcut(features, startup);
        let overlay = has_overlay(features, startup);
        assert(queues(openers@) =~= seq![seq![NotifierReason::Unspecified]] + optional(shortcut, none)
            + optional(features.tray_icon, none));
        assert(queues(closers@) =~= seq![none] + optional(overlay, none));
        assert(callbacks(before_open_handlers@) =~= seq![HandlerKind::NotifyUi] + optional(
            features.caret,
            HandlerKind::CaretLocator,
        ) + optional(overlay, HandlerKind::OverlayOpen));
        assert(callbacks(on_open_handlers@) =~= optional(features.no_activate, HandlerKind::NoActivate)
            + optional(features.key_redir, HandlerKind::KeyRedirOpen));
        assert(callbacks(on_close_handlers@) =~= optional(features.key_redir, HandlerKind::KeyRedirClose)
            + optional(overlay, HandlerKind::OverlayClose));
        assert(callbacks(emoji_selected@) =~= seq![Deliver]);
        assert(failures@ =~= failed_parts(features, startup));
    }
    (
        Handlers {
            emoji_selected,
            openers,
            closers,
            on_close_handlers,
            before_open_handlers,
            on_open_handlers,
        },
        failures,
    )
}

impl Handlers<Source, HandlerKind, Deliver> {
    /// The registry of the picker: see [`get_handlers`].
    pub fn new(features: Features, startup: Startup) -> (handlers: Self)
        ensures
            assembled(handlers, features, startup),
    {
        get_handlers(features, startup).0
    }
}

/// What the handlers of the cycle that the picker comes with ask for, one
/// by one, in a cycle with the reason `reason`.
pub open spec fn effects_of(kinds: Seq<HandlerKind>, reason: NotifierReason) -> Seq<Effect> {
    Seq::new(kinds.len(), |i: int| kinds[i].effect(reason))
}

/// The handlers that the picker comes with decide on the reason alone: what
/// a list of them returns is what [`HandlerKind::effect`] states for each.
pub proof fn law_builtin_effects(
    list: Seq<Handler<HandlerArgs, Effect, HandlerKind>>,
    args: &HandlerArgs,
    effects: Seq<Effect>,
)
    requires
        ran_all(list, args, effects),
    ensures
        effects == effects_of(callbacks(list), args.1),
{
    assert forall|i: int| 0 <= i < list.len() implies effects[i] == callbacks(list)[i].effect(
        args.1,
    ) by {
        assert(list[i].callback().yields(args, effects[i]));
    }
    assert(effects =~= effects_of(callbacks(list), args.1));
}

/// In the picker as it comes, an open cycle tells the user interface, places
/// the window and, for the shortcut alone, shows the overlay; then it shows
/// the window; then it sets whether the window takes the focus and, for the
/// shortcut alone, asks for the key strokes. Every handler sees the reason of
/// the cycle, and the reason is recorded.
pub proof fn law_default_open_cycle(
    handlers: DefaultHandlers,
    features: Features,
    startup: Startup,
    after: App,
    reason: NotifierReason,
    effects: Seq<Effect>,
)
    requires
        assembled(handlers, features, startup),
        handlers.opens(after, reason, effects),
    ensures
        after.open_source == reason,
        after.window == WindowState::Open,
        effects == seq![Effect::NotifyOpened] + optional(features.caret, Effect::PlaceNearCaret) + optional(
            has_overlay(features, startup),
            HandlerKind::OverlayOpen.effect(reason),
        ) + seq![Effect::ShowWindow] + optional(
            features.no_activate,
            Effect::SetNoActivate(reason == NotifierReason::Shortcut),
        ) + optional(features.key_redir, HandlerKind::KeyRedirOpen.effect(reason)),
{
    let n = handlers.before_open_handlers@.len() as int;
    let m = handlers.on_open_handlers@.len() as int;
    let opening = App { open_source: reason, window: WindowState::Opening };
    let open = App { open_source: reason, window: WindowState::Open };
    law_builtin_effects(handlers.before_open_handlers@, &(opening, reason), effects.subrange(0, n));
    law_builtin_effects(
        handlers.on_open_handlers@,
        &(open, reason),
        effects.subrange(n + 1, n + 1 + m),
    );
    let before = effects_of(callbacks(handlers.before_open_handlers@), reason);
    let opened = effects_of(callbacks(handlers.on_open_handlers@), reason);
    assert(effects =~= before + seq![Effect::ShowWindow] + opened) by {
        assert forall|i: int| 0 <= i < effects.len() implies effects[i] == (before
            + seq![Effect::ShowWindow] + opened)[i] by {
            if i < n {
                assert(effects.subrange(0, n)[i] == effects[i]);
            } else if i > n {
                assert(effects.subrange(n + 1, n + 1 + m)[i - n - 1] == effects[i]);
            }
        }
    }
    assert(before =~= seq![Effect::NotifyOpened] + optional(features.caret, Effect::PlaceNearCaret)
        + optional(has_overlay(features, startup), HandlerKind::OverlayOpen.effect(reason)));
    assert(opened =~= optional(
        features.no_activate,
        Effect::SetNoActivate(reason == NotifierReason::Shortcut),
    ) + optional(features.key_redir, HandlerKind::KeyRedirOpen.effect(reason)));
}

/// In the picker as it comes, a close cycle gives the key strokes back,
/// hides the overlay and then hides the window, whatever the reason. The
/// reason of the open cycle stays recorded.
pub proof fn law_default_close_cycle(
    handlers: DefaultHandlers,
    features: Features,
    startup: Startup,
    before: App,
    after: App,
    reason: NotifierReason,
    effects: Seq<Effect>,
)
    requires
        assembled(handlers, features, startup),
        handlers.closes(before, after, reason, effects),
    ensures
        after.open_source == before.open_source,
        after.window == WindowState::Closed,
        effects == optional(features.key_redir, Effect::UninstallHook) + optional(
            has_overlay(features, startup),
            Effect::HideOverlay,
        ) + seq![Effect::HideWindow],
{
    let n = handlers.on_close_handlers@.len() as int;
    let closed = App { open_source: before.open_source, window: WindowState::Closed };
    law_builtin_effects(handlers.on_close_handlers@, &(closed, reason), effects.subrange(0, n));
    let closing = effects_of(callbacks(handlers.on_close_handlers@), reason);
    assert(effects =~= closing + seq![Effect::HideWindow]) by {
        assert forall|i: int| 0 <= i < effects.len() implies effects[i] == (closing
            + seq![Effect::HideWindow])[i] by {
            if i < n {
                assert(effects.subrange(0, n)[i] == effects[i]);
            }
        }
    }
    assert(closing =~= optional(features.key_redir, Effect::UninstallHook) + optional(
        has_overlay(features, startup),
        Effect::HideOverlay,
    ));
}

/// In the picker as it comes, a selected emoji is typed where the shortcut
/// opened the window, and only there: after every other open it is copied to
/// the clipboard.
pub proof fn law_typed_only_after_shortcut(
    handlers: DefaultHandlers,
    features: Features,
    startup: Startup,
    app: App,
    code: String,
    effects: Seq<Effect>,
)
    requires
        assembled(handlers, features, startup),
        ran_all(handlers.emoji_selected@, &(app, code), effects),
    ensures
        effects.len() == 1,
        effects[0] == Effect::TypeEmoji <==> app.open_source == NotifierReason::Shortcut,
        effects[0] == Effect::CopyEmoji <==> app.open_source != NotifierReason::Shortcut,
{
    assert(callbacks(handlers.emoji_selected@).len() == 1);
    assert(handlers.emoji_selected@.len() == 1);
    assert(callbacks(handlers.emoji_selected@)[0] == Deliver);
    assert(handlers.emoji_selected@[0].callback().yields(&(app, code), effects[0]));
}

} // verus!
