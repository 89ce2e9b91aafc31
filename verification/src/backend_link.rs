//! The events that pass between the picker and the toolkit that draws it.

use vstd::prelude::*;

verus! {

/// The kinds of events, without what they carry.
#[derive(Debug, Clone, Copy, Hash, PartialEq, Eq, Structural)]
pub enum BackendEventKind {
    EmojiSelected,
    EmojiFilter,
    CloseRequested,
    OpenRequested,
}

/// The events, with what they carry.
pub enum BackendEvents {
    /// The user chose this emoji.
    EmojiSelected(String),
    /// The user typed this filter.
    EmojiFilter(String),
    /// The window is asked to close.
    CloseRequested,
    /// The window is asked to open.
    OpenRequested,
}

impl BackendEvents {
    /// The kind of the event.
    pub fn kind(&self) -> (kind: BackendEventKind)
        ensures
            kind == match self {
                BackendEvents::EmojiSelected(_) => BackendEventKind::EmojiSelected,
                BackendEvents::EmojiFilter(_) => BackendEventKind::EmojiFilter,
                BackendEvents::CloseRequested => BackendEventKind::CloseRequested,
                BackendEvents::OpenRequested => BackendEventKind::OpenRequested,
            },
    {
        match self {
            BackendEvents::EmojiSelected(_) => BackendEventKind::EmojiSelected,
            BackendEvents::EmojiFilter(_) => BackendEventKind::EmojiFilter,
            BackendEvents::CloseRequested => BackendEventKind::CloseRequested,
            BackendEvents::OpenRequested => BackendEventKind::OpenRequested,
        }
    }
}

} // verus!
