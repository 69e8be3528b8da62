use vstd::prelude::*;

use crate::catalog::{all_documents, decode_messages, decoded_views, message_views, sort_by_id, sort_messages};
use crate::config::Config;
use crate::diag::Diagnostic;
use crate::message::{CanMessage, DecodeError};

verus! {

/// The screen that the interface shows.
#[derive(Clone, Copy, Debug, PartialEq, Eq, Structural)]
pub enum ActiveScreen {
    CanBus,
    Editing,
}

/// The editing window that is open over the screen.
#[derive(Clone, Copy, Debug, PartialEq, Eq, Structural)]
pub enum EditWindow {
    NewCanMsg,
    EditCanMsg,
}

/// The state of the interface: its screens and the loaded messages.
pub struct App {
    pub active_screen: ActiveScreen,
    pub edit_window: Option<EditWindow>,
    pub can_messages: Vec<CanMessage>,
    pub app_config: Config,
}

impl App {
    /// A fresh state on the message list, with no message loaded.
    pub fn new(app_config: Config) -> (r: App)
        ensures
            r.active_screen == ActiveScreen::CanBus,
            r.edit_window is None,
            r.can_messages@.len() == 0,
            r.app_config == app_config,
    {
        App { active_screen: ActiveScreen::CanBus, edit_window: None, can_messages: Vec::new(), app_config }
    }

    /// Adds the messages that the texts describe to those already loaded and
    /// sorts them all by identifier text. Where a text is not a YAML mapping,
    /// nothing is added.
    pub fn load_can_messages(&mut self, texts: &Vec<String>, diags: &mut Vec<Diagnostic>) -> (r: Result<(), DecodeError>)
        ensures
            r is Ok <==> all_documents(texts@),
            r is Ok ==> message_views(final(self).can_messages@) == sort_by_id(
                message_views(old(self).can_messages@) + decoded_views(texts@),
            ),
            r is Err ==> final(self).can_messages@ == old(self).can_messages@,
            r matches Err(e) ==> e is Syntax,
            final(self).active_screen == old(self).active_screen,
            final(self).edit_window == old(self).edit_window,
            final(self).app_config == old(self).app_config,
    {
        match decode_messages(texts, diags) {
            Ok(mut decoded) => {
                let mut all: Vec<CanMessage> = Vec::new();
                std::mem::swap(&mut all, &mut self.can_messages);
                let ghost old_all = all@;
                all.append(&mut decoded);
                assert(message_views(all@) =~= message_views(old_all) + decoded_views(texts@));
                self.can_messages = sort_messages(all);
                Ok(())
            },
            Err(e) => Err(e),
        }
    }

    /// Acts on a key press. Returns `Some(true)` to quit from the message
    /// list, `Some(false)` to quit from an editing window, and `None` to go on.
    pub fn handle_key(&mut self, key: char) -> (r: Option<bool>)
        ensures
            old(self).active_screen == ActiveScreen::CanBus ==> {
                if key == 'q' {
                    r == Some(true) && *final(self) == *old(self)
                } else if key == 'n' || key == 'e' {
                    &&& r is None
                    &&& final(self).active_screen == ActiveScreen::Editing
                    &&& final(self).edit_window == Some(
                        if key == 'n' {
                            EditWindow::NewCanMsg
                        } else {
                            EditWindow::EditCanMsg
                        },
                    )
                    &&& final(self).can_messages == old(self).can_messages
                    &&& final(self).app_config == old(self).app_config
                } else {
                    r is None && *final(self) == *old(self)
                }
            },
            old(self).active_screen == ActiveScreen::Editing ==> {
                &&& r == (if key == 'q' {
                    Some(false)
                } else {
                    None
                })
                &&& *final(self) == *old(self)
            },
    {
        match self.active_screen {
            ActiveScreen::CanBus => {
                if key == 'q' {
                    Some(true)
                } else if key == 'n' {
                    self.edit_window = Some(EditWindow::NewCanMsg);
                    self.active_screen = ActiveScreen::Editing;
                    None
                } else if key == 'e' {
                    self.edit_window = Some(EditWindow::EditCanMsg);
                    self.active_screen = ActiveScreen::Editing;
                    None
                } else {
                    None
                }
            },
            ActiveScreen::Editing => {
                if key == 'q' {
                    Some(false)
                } else {
                    None
                }
            },
        }
    }
}

} // verus!
