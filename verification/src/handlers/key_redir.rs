//! Redirecting key strokes to the picker window while it is open.

use crate::handler::Handler;
use crate::handlers::HandlerKind;
use crate::handlers::OnCloseHandler;
use crate::handlers::OnOpenHandler;
use vstd::prelude::*;

verus! {

/// The on-open handler that asks for the key strokes, in a cycle that the
/// shortcut started and in no other.
pub fn get_open_handler() -> (handler: OnOpenHandler)
    ensures
        handler.callback() == HandlerKind::KeyRedirOpen,
{
    Handler::new(HandlerKind::KeyRedirOpen)
}

/// The on-close handler that gives the key strokes back, whatever the
/// reason: the redirection is taken down even where none was set up.
pub fn get_close_handler() -> (handler: OnCloseHandler)
    ensures
        handler.callback() == HandlerKind::KeyRedirClose,
{
    Handler::new(HandlerKind::KeyRedirClose)
}

} // verus!
