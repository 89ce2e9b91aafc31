//! The close request of the user interface, as a source of close events.

use crate::handler::MpscNotifier;
use crate::handler::Notifier;
use crate::handlers::Source;
use crate::handlers::NotifierReason;
use vstd::prelude::*;

verus! {

/// The source that reports close requests of the user interface: a channel
/// that holds one request at a time and is empty at first.
pub fn get_close_shortcut_notifier() -> (closer: Source)
    ensures
        closer.wf(),
        closer matches Source::Channel(queue) && queue.bound() == 1 && queue.queued()
            == Seq::<NotifierReason>::empty(),
{
    Source::Channel(MpscNotifier::new(1))
}

/// Reports a close request of the user interface to `closer`, with no
/// specific reason and without waiting. A request that finds the source full
/// is dropped: one close request is already on its way.
pub fn close_requested(closer: &mut Source) -> (queued: bool)
    ensures
        old(closer).wf() ==> final(closer).wf(),
        queued == old(closer).takes(),
        queued ==> final(closer).pending() == old(closer).pending().push(
            NotifierReason::Unspecified,
        ),
        !queued ==> final(closer).pending() == old(closer).pending(),
{
    closer.send(NotifierReason::Unspecified).is_ok()
}

} // verus!
