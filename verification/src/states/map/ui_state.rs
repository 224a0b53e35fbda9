use vstd::prelude::*;

use crate::states::map::{DiscardMenuType, Notification};

verus! {

#[derive(PartialEq, Eq, Debug, Structural)]
pub struct UIState {
    pub needs_clear_and_redraw: bool,
    pub show_notification: Option<Notification>,
    pub confirm_discard_menu: Option<DiscardMenuType>,
    /// Page number of the currently visible help screen
    pub help_screen: Option<usize>,
}

impl UIState {
    pub fn new() -> (r: Self)
        ensures
            r == (UIState {
                needs_clear_and_redraw: true,
                show_notification: None,
                confirm_discard_menu: None,
                help_screen: None,
            }),
    {
        Self {
            needs_clear_and_redraw: true,
            show_notification: None,
            confirm_discard_menu: None,
            help_screen: None,
        }
    }

    pub fn request_redraw(&mut self)
        ensures
            *final(self) == (UIState { needs_clear_and_redraw: true, ..*old(self) }),
    {
        self.needs_clear_and_redraw = true;
    }

    pub fn mark_redrawn(&mut self)
        ensures
            *final(self) == (UIState { needs_clear_and_redraw: false, ..*old(self) }),
    {
        self.needs_clear_and_redraw = false;
    }

    pub fn set_notification(&mut self, notification: Notification)
        ensures
            *final(self) == (UIState { show_notification: Some(notification), ..*old(self) }),
    {
        self.show_notification = Some(notification);
    }

    pub fn clear_notification(&mut self)
        ensures
            *final(self) == (UIState { show_notification: None, ..*old(self) }),
    {
        self.show_notification = None;
    }

    pub fn show_discard_menu(&mut self, menu_type: DiscardMenuType)
        ensures
            *final(self) == (UIState { confirm_discard_menu: Some(menu_type), ..*old(self) }),
    {
        self.confirm_discard_menu = Some(menu_type);
    }

    pub fn hide_discard_menu(&mut self)
        ensures
            *final(self) == (UIState { confirm_discard_menu: None, ..*old(self) }),
    {
        self.confirm_discard_menu = None;
    }

    pub fn show_help(&mut self, page: usize)
        ensures
            *final(self) == (UIState { help_screen: Some(page), ..*old(self) }),
    {
        self.help_screen = Some(page);
    }

    pub fn hide_help(&mut self)
        ensures
            *final(self) == (UIState { help_screen: None, ..*old(self) }),
    {
        self.help_screen = None;
    }

    pub fn is_help_visible(&self) -> (r: bool)
        ensures
            r == self.help_screen.is_some(),
    {
        self.help_screen.is_some()
    }
}

} // verus!
