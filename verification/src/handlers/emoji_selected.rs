//! Delivering a selected emoji: typed into the focused application, or
//! copied to the clipboard.

use crate::handler::Handler;
use crate::handlers::Deliver;
use crate::handlers::EmojiSelectedHandler;
use vstd::prelude::*;
use vstd::string::StrSliceExecFns;

verus! {

/// The handler of a selection that has the emoji typed in a cycle that the
/// shortcut started, and copied to the clipboard in every other.
pub fn get_handler() -> (handler: EmojiSelectedHandler)
    ensures
        handler.callback() == Deliver,
{
    Handler::new(Deliver)
}

/// The UTF-16 code units of one character: itself below U+10000, else a high
/// and a low surrogate that share its twenty bits above U+10000.
pub open spec fn utf16_of_char(c: char) -> Seq<u16> {
    let v = c as u32;
    if v < 0x10000 {
        seq![v as u16]
    } else {
        seq![(0xD800 + (v - 0x10000) / 0x400) as u16, (0xDC00 + (v - 0x10000) % 0x400) as u16]
    }
}

/// The UTF-16 code units of a text.
pub open spec fn utf16_of(text: Seq<char>) -> Seq<u16>
    decreases text.len(),
{
    if text.len() == 0 {
        Seq::empty()
    } else {
        utf16_of(text.drop_last()) + utf16_of_char(text.last())
    }
}

/// Encodes `text` in UTF-16.
pub fn encode_utf16(text: &str) -> (units: Vec<u16>)
    ensures
        units@ == utf16_of(text@),
{
    let mut units: Vec<u16> = Vec::new();
    let n = text.unicode_len();
    let mut i: usize = 0;
    while i < n
        invariant
            i <= n,
            n == text@.len(),
            units@ == utf16_of(text@.take(i as int)),
        decreases n - i,
    {
        let c = text.get_char(i);
        let v = c as u32;
        proof {
            assert(text@.take(i + 1).drop_last() =~= text@.take(i as int));
            assert(text@.take(i + 1).last() == c);
        }
        if v < 0x10000 {
            units.push(v as u16);
            assert(units@ =~= utf16_of(text@.take(i as int)) + seq![v as u16]);
        } else {
            let high = 0xD800 + (v - 0x10000) / 0x400;
            let low = 0xDC00 + (v - 0x10000) % 0x400;
            units.push(high as u16);
            units.push(low as u16);
            assert(units@ =~= utf16_of(text@.take(i as int)) + seq![high as u16, low as u16]);
        }
        i += 1;
    }
    proof {
        assert(text@.take(n as int) =~= text@);
    }
    units
}

/// Marks a key stroke that carries a UTF-16 code unit instead of a key.
pub const KEYEVENTF_UNICODE: u32 = 0x0004;

/// Marks the release of a key.
pub const KEYEVENTF_KEYUP: u32 = 0x0002;

/// One simulated key stroke: a UTF-16 code unit and the flags to send it
/// with.
#[derive(Debug, Clone, Copy, PartialEq, Eq, Structural)]
pub struct KeyInput {
    pub scan: u16,
    pub flags: u32,
}

/// The press of the key that stands for `unit`.
pub open spec fn key_down(unit: u16) -> KeyInput {
    KeyInput { scan: unit, flags: KEYEVENTF_UNICODE }
}

/// The release of the key that stands for `unit`.
pub open spec fn key_up(unit: u16) -> KeyInput {
    KeyInput { scan: unit, flags: KEYEVENTF_UNICODE | KEYEVENTF_KEYUP }
}

/// The key strokes that type `units`: every unit pressed, in order, then
/// every unit released, in order.
pub open spec fn key_strokes(units: Seq<u16>) -> Seq<KeyInput> {
    Seq::new(units.len(), |i: int| key_down(units[i])) + Seq::new(
        units.len(),
        |i: int| key_up(units[i]),
    )
}

/// The key strokes that type `code` into the focused application.
pub fn type_emoji(code: &str) -> (inputs: Vec<KeyInput>)
    ensures
        inputs@ == key_strokes(utf16_of(code@)),
{
    let units = encode_utf16(code);
    let mut inputs: Vec<KeyInput> = Vec::new();
    let n = units.len();
    let mut i: usize = 0;
    while i < n
        invariant
            i <= n,
            n == units@.len(),
            inputs@ == Seq::new(i as nat, |k: int| key_down(units@[k])),
        decreases n - i,
    {
        inputs.push(KeyInput { scan: units[i], flags: KEYEVENTF_UNICODE });
        assert(inputs@ =~= Seq::new((i + 1) as nat, |k: int| key_down(units@[k])));
        i += 1;
    }
    let mut j: usize = 0;
    while j < n
        invariant
            j <= n,
            n == units@.len(),
            inputs@ == Seq::new(n as nat, |k: int| key_down(units@[k])) + Seq::new(
                j as nat,
                |k: int| key_up(units@[k]),
            ),
        decreases n - j,
    {
        inputs.push(KeyInput { scan: units[j], flags: KEYEVENTF_UNICODE | KEYEVENTF_KEYUP });
        assert(inputs@ =~= Seq::new(n as nat, |k: int| key_down(units@[k])) + Seq::new(
            (j + 1) as nat,
            |k: int| key_up(units@[k]),
        ));
        j += 1;
    }
    inputs
}

/// The text to put on the clipboard for `code`: its UTF-16 code units and a
/// zero that ends them.
pub fn clipboard(code: &str) -> (text: Vec<u16>)
    ensures
        text@ == utf16_of(code@).push(0u16),
{
    let mut text = encode_utf16(code);
    text.push(0);
    text
}

/// The calls to the operating system that put a text on the clipboard, in
/// the order in which they are made.
#[derive(Debug, Clone, Copy, PartialEq, Eq, Structural)]
pub enum ClipboardStage {
    /// Open the clipboard.
    Open,
    /// Empty it.
    Empty,
    /// Get a block of memory for the text.
    Alloc,
    /// Lock the block, to copy the text into it.
    Lock,
    /// Unlock the block.
    Unlock,
    /// Hand the block to the clipboard.
    Publish,
}

/// What has to be given back after a call to the operating system.
#[derive(Debug, Clone, Copy, PartialEq, Eq, Structural)]
pub enum Cleanup {
    /// Nothing.
    Nothing,
    /// Close the clipboard.
    Close,
    /// Free the block, then close the clipboard.
    FreeAndClose,
}

/// What follows a call to the operating system: what to give back at once,
/// and the call to make next, if any.
#[derive(Debug, Clone, Copy, PartialEq, Eq, Structural)]
pub struct ClipboardMove {
    pub cleanup: Cleanup,
    pub next: Option<ClipboardStage>,
}

/// What follows the call of `stage`, given whether it succeeded.
///
/// A failure ends the copy and gives back what was taken until then. The one
/// exception is a clipboard that cannot be emptied: it is closed, and the copy
/// goes on. After the last call the clipboard is closed; the block then
/// belongs to it.
pub open spec fn after_stage(stage: ClipboardStage, succeeded: bool) -> ClipboardMove {
    match (stage, succeeded) {
        (ClipboardStage::Open, true) => ClipboardMove {
            cleanup: Cleanup::Nothing,
            next: Some(ClipboardStage::Empty),
        },
        (ClipboardStage::Open, false) => ClipboardMove { cleanup: Cleanup::Nothing, next: None },
        (ClipboardStage::Empty, true) => ClipboardMove {
            cleanup: Cleanup::Nothing,
            next: Some(ClipboardStage::Alloc),
        },
        (ClipboardStage::Empty, false) => ClipboardMove {
            cleanup: Cleanup::Close,
            next: Some(ClipboardStage::Alloc),
        },
        (ClipboardStage::Alloc, true) => ClipboardMove {
            cleanup: Cleanup::Nothing,
            next: Some(ClipboardStage::Lock),
        },
        (ClipboardStage::Alloc, false) => ClipboardMove { cleanup: Cleanup::Close, next: None },
        (ClipboardStage::Lock, true) => ClipboardMove {
            cleanup: Cleanup::Nothing,
            next: Some(ClipboardStage::Unlock),
        },
        (ClipboardStage::Lock, false) => ClipboardMove {
            cleanup: Cleanup::FreeAndClose,
            next: None,
        },
        (ClipboardStage::Unlock, true) => ClipboardMove {
            cleanup: Cleanup::Nothing,
            next: Some(ClipboardStage::Publish),
        },
        (ClipboardStage::Unlock, false) => ClipboardMove {
            cleanup: Cleanup::FreeAndClose,
            next: None,
        },
        (ClipboardStage::Publish, true) => ClipboardMove { cleanup: Cleanup::Close, next: None },
        (ClipboardStage::Publish, false) => ClipboardMove {
            cleanup: Cleanup::FreeAndClose,
            next: None,
        },
    }
}

/// Decides what follows the call of `stage`: see [`after_stage`].
pub fn clipboard_step(stage: ClipboardStage, succeeded: bool) -> (step: ClipboardMove)
    ensures
        step == after_stage(stage, succeeded),
{
    match stage {
        ClipboardStage::Open => if succeeded {
            ClipboardMove { cleanup: Cleanup::Nothing, next: Some(ClipboardStage::Empty) }
        } else {
            ClipboardMove { cleanup: Cleanup::Nothing, next: None }
        },
        ClipboardStage::Empty => if succeeded {
            ClipboardMove { cleanup: Cleanup::Nothing, next: Some(ClipboardStage::Alloc) }
        } else {
            ClipboardMove { cleanup: Cleanup::Close, next: Some(ClipboardStage::Alloc) }
        },
        ClipboardStage::Alloc => if succeeded {
            ClipboardMove { cleanup: Cleanup::Nothing, next: Some(ClipboardStage::Lock) }
        } else {
            ClipboardMove { cleanup: Cleanup::Close, next: None }
        },
        ClipboardStage::Lock => if succeeded {
            ClipboardMove { cleanup: Cleanup::Nothing, next: Some(ClipboardStage::Unlock) }
        } else {
            ClipboardMove { cleanup: Cleanup::FreeAndClose, next: None }
        },
        ClipboardStage::Unlock => if succeeded {
            ClipboardMove { cleanup: Cleanup::Nothing, next: Some(ClipboardStage::Publish) }
        } else {
            ClipboardMove { cleanup: Cleanup::FreeAndClose, next: None }
        },
        ClipboardStage::Publish => if succeeded {
            ClipboardMove { cleanup: Cleanup::Close, next: None }
        } else {
            ClipboardMove { cleanup: Cleanup::FreeAndClose, next: None }
        },
    }
}

} // verus!
