//! Telling the user interface that the window opens.

use crate::handler::Handler;
use crate::handlers::BeforeOpenHandler;
use crate::handlers::HandlerKind;
use vstd::prelude::*;

verus! {

/// The before-open handler that tells the user interface that the window
/// opens, whatever the reason.
pub fn get_handler() -> (handler: BeforeOpenHandler)
    ensures
        handler.callback() == HandlerKind::NotifyUi,
{
    Handler::new(HandlerKind::NotifyUi)
}

} // verus!
