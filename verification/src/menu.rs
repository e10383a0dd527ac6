//! A menu of three pages.

use crate::keys::{Flow, KeyCode, KeyPress};
use vstd::prelude::*;

verus! {

/// A page of the menu.
#[derive(Clone, Copy, Debug, PartialEq, Eq, Structural)]
pub enum Page {
    Home,
    Help,
    About,
}

/// The page that is shown.
#[derive(Clone, Copy, Debug, PartialEq, Eq, Structural)]
pub struct AppPage {
    pub current_page: Page,
}

/// The page that is shown after a keyboard event: `h` going down leads to
/// the home page, `?` to the help and `a` to the about page; anything else
/// keeps the page.
pub open spec fn page_after(page: Page, event: KeyPress) -> Page {
    if !event.spec_is_press() {
        page
    } else if event.code == KeyCode::Char('h') {
        Page::Home
    } else if event.code == KeyCode::Char('?') {
        Page::Help
    } else if event.code == KeyCode::Char('a') {
        Page::About
    } else {
        page
    }
}

impl AppPage {
    /// The menu as it starts, on the home page.
    pub fn new() -> (menu: AppPage)
        ensures
            menu.current_page == Page::Home,
    {
        AppPage { current_page: Page::Home }
    }

    /// Takes one event of the keyboard and says whether the application goes
    /// on: `q` or escape going down end it.
    pub fn handle_key(&mut self, event: KeyPress) -> (flow: Flow)
        ensures
            flow == if event.spec_is_press() && event.spec_asks_to_quit() {
                Flow::Quit
            } else {
                Flow::Continue
            },
            final(self).current_page == page_after(old(self).current_page, event),
    {
        if !event.is_press() {
            return Flow::Continue;
        }
        if event.asks_to_quit() {
            return Flow::Quit;
        }
        match event.code {
            KeyCode::Char(c) => {
                if c == 'h' {
                    self.current_page = Page::Home;
                } else if c == '?' {
                    self.current_page = Page::Help;
                } else if c == 'a' {
                    self.current_page = Page::About;
                }
            },
            _ => {},
        }
        Flow::Continue
    }
}

} // verus!
