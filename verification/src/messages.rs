//! The events the host shell hands to the session logic: menu choices and
//! game-board clicks.

use vstd::prelude::*;
use crate::views::MenuOption;

verus! {

/// An event for the application as a whole.
#[derive(Debug, Clone, Copy)]
pub enum Message {
    Menu(MenuMessage),
    TicTacToe(TicTacToeMessage),
}

/// An event on the menu screen.
#[derive(Debug, Clone, Copy)]
pub enum MenuMessage {
    Select(MenuOption),
    BackToMenu,
}

/// An event on a game screen: a click on the cell at a row and column, or on
/// the button that clears the board.
#[derive(Debug, Clone, Copy)]
pub enum TicTacToeMessage {
    MakeMove(usize, usize),
    CleanBoard,
}

/// A move event carries coordinates on the 3x3 grid. The shell's rendered
/// grid can only produce these; anything else is a programming error on its
/// side.
pub open spec fn valid_message(m: Message) -> bool {
    m matches Message::TicTacToe(TicTacToeMessage::MakeMove(row, col)) ==> row < 3 && col < 3
}

} // verus!
