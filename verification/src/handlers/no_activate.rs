//! Keeping the picker window from taking the focus.

use crate::handler::Handler;
use crate::handlers::HandlerKind;
use crate::handlers::OnOpenHandler;
use vstd::prelude::*;

verus! {

/// The bit of a window's extended style that keeps a click on the window
/// from activating it.
pub const WS_EX_NOACTIVATE: u32 = 0x0800_0000;

/// The extended style to give a window whose extended style is `style`: the
/// no-activate bit is set or cleared as `no_activate` says, and every other
/// bit stays.
pub fn setup(style: u32, no_activate: bool) -> (styled: u32)
    ensures
        styled & WS_EX_NOACTIVATE == (if no_activate {
            WS_EX_NOACTIVATE
        } else {
            0
        }),
        styled & !WS_EX_NOACTIVATE == style & !WS_EX_NOACTIVATE,
{
    if no_activate {
        let styled = style | WS_EX_NOACTIVATE;
        assert(styled & 0x0800_0000 == 0x0800_0000 && styled & !0x0800_0000u32 == style
            & !0x0800_0000u32) by (bit_vector)
            requires
                styled == style | 0x0800_0000,
        ;
        styled
    } else {
        let styled = style & !WS_EX_NOACTIVATE;
        assert(styled & 0x0800_0000 == 0 && styled & !0x0800_0000u32 == style & !0x0800_0000u32)
            by (bit_vector)
            requires
                styled == style & !0x0800_0000u32,
        ;
        styled
    }
}

/// The on-open handler that switches activation off in a cycle that the
/// shortcut started, and back on in every other.
pub fn get_handler() -> (handler: OnOpenHandler)
    ensures
        handler.callback() == HandlerKind::NoActivate,
{
    Handler::new(HandlerKind::NoActivate)
}

} // verus!
