//! The tray icon, as a source of open requests.

use crate::handler::MpscNotifier;
use crate::handler::Notifier;
use crate::handlers::NotifierReason;
use vstd::prelude::*;

verus! {

/// The entries of the tray icon's menu, in the order of the menu.
#[derive(Debug, Clone, Copy, PartialEq, Eq, Structural)]
pub enum TrayCommand {
    /// "Show": open the picker.
    Show,
    /// "Quit": end the application.
    Quit,
}

/// What the choice of a menu entry leads to.
#[derive(Debug, Clone, Copy, PartialEq, Eq, Structural)]
pub enum TrayAction {
    /// An open request was queued, or dropped because one is on its way.
    Requested { queued: bool },
    /// The event loop of the application is to end.
    QuitEventLoop,
}

/// The open requests that the tray icon has made and that were not polled
/// yet. The icon itself belongs to whoever created it and must live as long as
/// the application does, or it leaves the tray.
pub struct TrayIconNotifier {
    np: MpscNotifier<NotifierReason>,
}

impl TrayIconNotifier {
    /// The queue holds at most one request.
    pub closed spec fn wf(&self) -> bool {
        self.np.wf() && self.np.bound() == 1
    }

    /// Whether the queue has room for a request.
    pub closed spec fn takes(&self) -> bool {
        self.np.queued().len() < self.np.bound()
    }

    /// Handles the choice of a menu entry. "Show" asks for the window to
    /// open, with the tray icon as the reason and without waiting; "Quit" asks
    /// for the end of the event loop and leaves the notifier as it is.
    pub fn menu_chosen(&mut self, command: TrayCommand) -> (action: TrayAction)
        ensures
            old(self).wf() ==> final(self).wf(),
            command == TrayCommand::Show ==> action == (TrayAction::Requested {
                queued: old(self).takes(),
            }) && final(self).pending() == (if old(self).takes() {
                old(self).pending().push(NotifierReason::TrayIcon)
            } else {
                old(self).pending()
            }),
            command == TrayCommand::Quit ==> action == TrayAction::QuitEventLoop,
            command == TrayCommand::Quit ==> final(self).pending() == old(self).pending(),
    {
        match command {
            TrayCommand::Show => {
                let queued = self.np.send(NotifierReason::TrayIcon).is_ok();
                TrayAction::Requested { queued }
            },
            TrayCommand::Quit => TrayAction::QuitEventLoop,
        }
    }
}

impl Notifier<NotifierReason> for TrayIconNotifier {
    closed spec fn pending(&self) -> Seq<NotifierReason> {
        self.np.queued()
    }

    fn has_notified(&mut self) -> (event: Option<NotifierReason>)
        ensures
            old(self).wf() ==> final(self).wf(),
    {
        self.np.has_notified()
    }
}

/// The notifier of a tray icon that was just created: no request is queued.
pub fn initialize() -> (notifier: TrayIconNotifier)
    ensures
        notifier.wf(),
        notifier.takes(),
        notifier.pending() == Seq::<NotifierReason>::empty(),
{
    TrayIconNotifier { np: MpscNotifier::new(1) }
}

} // verus!
