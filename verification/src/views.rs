//! The screens the host shell can show and the menu entries it offers. The
//! shell renders them; the session logic in `menu_app` only switches between
//! them.

use vstd::prelude::*;

verus! {

/// Which screen the application is on: the menu, the single-player game
/// against the engine, or the two-player game.
#[derive(Clone, Copy, Debug, PartialEq, Eq, Structural)]
pub enum Screen {
    Menu,
    Option1,
    Option2,
}

/// The three entries of the menu: single player, multiplayer, exit.
#[derive(Clone, Copy, Debug, PartialEq, Eq, Structural)]
pub enum MenuOption {
    Option1,
    Option2,
    Option3,
}

impl Default for Screen {
    /// The application starts on the menu.
    fn default() -> (v: Self)
        ensures
            v == Screen::Menu,
    {
        Screen::Menu
    }
}

} // verus!
