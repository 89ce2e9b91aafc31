//! Closing the picker on a click outside it.
//!
//! An overlay that cannot be seen lies under the picker window and over the
//! rest of the screen. A click on it is a click outside the picker.

use crate::handler::Handler;
use crate::handler::MpscNotifier;
use crate::handler::Notifier;
use crate::handlers::Source;
use crate::handlers::CloserNotifier;
use crate::handlers::HandlerKind;
use crate::handlers::NotifierReason;
use crate::handlers::OnCloseHandler;
use crate::handlers::OnOpenHandler;
use vstd::prelude::*;

verus! {

/// The message that asks a window to paint itself.
pub const WM_PAINT: u32 = 0x000F;

/// The message that tells a window that it is destroyed.
pub const WM_DESTROY: u32 = 0x0002;

/// The first of the mouse button messages that count as a click.
pub const WM_LBUTTONUP: u32 = 0x0202;

/// The last of the mouse button messages that count as a click.
pub const WM_MBUTTONDBLCLK: u32 = 0x0209;

/// Keeps a window hidden when it is moved.
pub const SWP_HIDEWINDOW: u32 = 0x0080;

/// Keeps a window from being activated when it is moved.
pub const SWP_NOACTIVATE: u32 = 0x0010;

/// What the overlay does with a message.
#[derive(Debug, Clone, Copy, PartialEq, Eq, Structural)]
pub enum OverlayAction {
    /// Fill the invalid part with black, then handle the message by default.
    Paint,
    /// Report a click outside the picker and hide the overlay, then handle
    /// the message by default.
    Click,
    /// End the message loop; the message is not handled any further.
    Quit,
    /// Handle the message by default.
    Default,
}

/// What the overlay does with the message `msg`: it paints, takes every
/// mouse button message from the release of the left button to the double
/// click of the middle button as a click, and ends the loop when destroyed.
pub fn transparent_window_proc(msg: u32) -> (action: OverlayAction)
    ensures
        action == (if msg == WM_PAINT {
            OverlayAction::Paint
        } else if WM_LBUTTONUP <= msg <= WM_MBUTTONDBLCLK {
            OverlayAction::Click
        } else if msg == WM_DESTROY {
            OverlayAction::Quit
        } else {
            OverlayAction::Default
        }),
{
    if msg == WM_PAINT {
        OverlayAction::Paint
    } else if WM_LBUTTONUP <= msg && msg <= WM_MBUTTONDBLCLK {
        OverlayAction::Click
    } else if msg == WM_DESTROY {
        OverlayAction::Quit
    } else {
        OverlayAction::Default
    }
}

/// Where the overlay goes: a rectangle on the screen and the flags to move
/// it with.
#[derive(Debug, Clone, Copy, PartialEq, Eq, Structural)]
pub struct OverlayPlacement {
    pub x: i32,
    pub y: i32,
    pub width: i32,
    pub height: i32,
    pub flags: u32,
}

/// The placement that makes the overlay cover a virtual screen of `width`
/// by `height` pixels, hidden and without activating it. There is none where
/// the operating system gave no size.
pub fn setup_transp_window_dimensions(width: i32, height: i32) -> (placement: Option<
    OverlayPlacement,
>)
    ensures
        width == 0 || height == 0 ==> placement is None,
        width != 0 && height != 0 ==> placement == Some(
            OverlayPlacement { x: 0, y: 0, width, height, flags: SWP_HIDEWINDOW | SWP_NOACTIVATE },
        ),
{
    if width == 0 || height == 0 {
        None
    } else {
        let flags = SWP_HIDEWINDOW | SWP_NOACTIVATE;
        assert(0x0080u32 | 0x0010u32 == 0x0090u32) by (bit_vector);
        Some(OverlayPlacement { x: 0, y: 0, width, height, flags })
    }
}

/// How opaque the overlay is, from 0 to 255: half in a debug build, so that
/// it can be seen, and next to nothing otherwise.
pub fn opacity(debug: bool) -> (alpha: u8)
    ensures
        alpha == (if debug {
            128u8
        } else {
            1u8
        }),
{
    if debug {
        128
    } else {
        1
    }
}

/// What the overlay adds to the registry.
pub struct OutsideClickHandlers {
    pub on_open_handler: OnOpenHandler,
    pub on_close_handler: OnCloseHandler,
    pub closer: CloserNotifier,
}

/// The handlers and the source of close requests that belong to the overlay,
/// where it was created, and nothing where it was not. The source is a
/// channel that holds one click at a time and is empty at first.
pub fn generate_handlers(overlay_created: bool) -> (handlers: Option<OutsideClickHandlers>)
    ensures
        handlers is Some == overlay_created,
        handlers matches Some(h) ==> {
            &&& h.on_open_handler.callback() == HandlerKind::OverlayOpen
            &&& h.on_close_handler.callback() == HandlerKind::OverlayClose
            &&& h.closer.wf()
            &&& h.closer matches Source::Channel(queue) && queue.bound() == 1
            &&& h.closer.pending() == Seq::<NotifierReason>::empty()
        },
{
    if !overlay_created {
        return None;
    }
    Some(
        OutsideClickHandlers {
            on_open_handler: Handler::new(HandlerKind::OverlayOpen),
            on_close_handler: Handler::new(HandlerKind::OverlayClose),
            closer: Source::Channel(MpscNotifier::new(1)),
        },
    )
}

/// Reports a click on the overlay to `closer`, without waiting. A click
/// that finds the source full is dropped: one close request is already on
/// its way.
pub fn clicked_outside(closer: &mut CloserNotifier) -> (queued: bool)
    ensures
        old(closer).wf() ==> final(closer).wf(),
        queued == old(closer).takes(),
        queued ==> final(closer).pending() == old(closer).pending().push(NotifierReason::Backclick),
        !queued ==> final(closer).pending() == old(closer).pending(),
{
    closer.send(NotifierReason::Backclick).is_ok()
}

} // verus!
