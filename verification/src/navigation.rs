//! Which screen the application shows, and the about box.

use vstd::prelude::*;

verus! {

/// The application's screens.
#[derive(Debug, Clone, Copy, PartialEq, Eq, Structural)]
pub enum AppView {
    Home,
    Editor,
}

/// The screen shown and whether the about box is open.
pub struct AppNavigation {
    pub current_view: AppView,
    pub show_about: bool,
}

impl AppNavigation {
    /// The application starts on the home screen, without the about box.
    pub fn new() -> (nav: Self)
        ensures
            nav.current_view == AppView::Home,
            !nav.show_about,
    {
        AppNavigation { current_view: AppView::Home, show_about: false }
    }

    /// The "About" button opens the about box, or closes it.
    pub fn toggle_about(&mut self)
        ensures
            final(self).show_about == !old(self).show_about,
            final(self).current_view == old(self).current_view,
    {
        self.show_about = !self.show_about;
    }

    /// "Close" in the about box.
    pub fn close_about(&mut self)
        ensures
            !final(self).show_about,
            final(self).current_view == old(self).current_view,
    {
        self.show_about = false;
    }

    /// The home screen submitted files: the editor opens on them.
    pub fn files_submitted(&mut self)
        ensures
            final(self).current_view == AppView::Editor,
            final(self).show_about == old(self).show_about,
    {
        self.current_view = AppView::Editor;
    }

    /// The back button is offered in the editor only.
    pub fn shows_back_button(&self) -> (r: bool)
        ensures
            r == (self.current_view == AppView::Editor),
    {
        match self.current_view {
            AppView::Editor => true,
            AppView::Home => false,
        }
    }

    /// "Back to Home": the editor closes and the home screen returns.
    pub fn back_to_home(&mut self)
        ensures
            final(self).current_view == AppView::Home,
            final(self).show_about == old(self).show_about,
    {
        self.current_view = AppView::Home;
    }
}

} // verus!
