//! The session logic: one state machine that owns the current screen and the
//! game, takes the shell's events, and answers with the action the shell must
//! perform. The shell renders, collects clicks and carries the actions out;
//! every decision is made here.

use vstd::prelude::*;
use crate::game_state::Player;
use crate::game_state::empty_board;
use crate::game_state::full;
use crate::game_state::is_best_choice;
use crate::game_state::other;
use crate::game_state::winner;
use crate::messages::Message;
use crate::messages::MenuMessage;
use crate::messages::TicTacToeMessage;
use crate::messages::valid_message;
use crate::tic_tac_toe::TicTacToe;
use crate::views::MenuOption;
use crate::views::Screen;
use vstd::string::StringExecFns;

verus! {

/// What the host shell must perform after an update: nothing, end the
/// process, or announce the named player as the winner. Ending the process
/// is handed out as an action on purpose, so that no exit happens inside the
/// game logic itself.
#[derive(Debug, Clone, Copy, PartialEq, Eq, Structural)]
pub enum Action {
    Nothing,
    Exit,
    Announce(Player),
}

/// The application: the screen currently shown and the one game both game
/// screens share.
#[derive(Clone, Copy)]
pub struct MenuApp {
    pub current_view: Screen,
    pub tic_tac_toe: TicTacToe,
}

/// `s` shows screen `v` and carries board `b` with `p` to move and the
/// game-over flag `over`.
pub open spec fn state_is(s: MenuApp, v: Screen, b: Seq<Option<Player>>, p: Player, over: bool) -> bool {
    &&& s.current_view == v
    &&& s.tic_tac_toe.game_state.board@ == b
    &&& s.tic_tac_toe.game_state.current_player == p
    &&& s.tic_tac_toe.game_over == over
}

/// The automated player's reply from position `b1` with `p1` to move: it
/// takes the best cell `k`, and the game ends with an announcement exactly
/// when that completes a line.
pub open spec fn ai_reply(
    s0: MenuApp,
    b1: Seq<Option<Player>>,
    p1: Player,
    k: int,
    s1: MenuApp,
    a: Action,
) -> bool {
    let b2 = b1.update(k, Some(p1));
    let p2 = other(p1);
    match winner(b2) {
        Some(w) => state_is(s1, s0.current_view, b2, p2, true) && a == Action::Announce(w),
        None => state_is(s1, s0.current_view, b2, p2, false) && a == Action::Nothing,
    }
}

/// The whole session step relation: from state `s0`, event `m` leads to state
/// `s1` and action `a`. Selecting the single-player or the multiplayer screen
/// switches the view — only the latter also clears the board and reopens the
/// game; the exit entry leaves everything and asks the shell to end the
/// process; going back to the menu clears the board but keeps the game-over
/// flag. A click on a cell is ignored once the game is over or when the cell
/// is occupied; otherwise the mover's mark is placed and the turn flips, a
/// completed line ends the game with an announcement, and on the
/// single-player screen an open position is answered at once by the automated
/// player's best move.
pub open spec fn update_transition(s0: MenuApp, m: Message, s1: MenuApp, a: Action) -> bool {
    let b0 = s0.tic_tac_toe.game_state.board@;
    let p0 = s0.tic_tac_toe.game_state.current_player;
    let over0 = s0.tic_tac_toe.game_over;
    match m {
        Message::Menu(menu_message) => match menu_message {
            MenuMessage::Select(MenuOption::Option1) => state_is(
                s1,
                Screen::Option1,
                b0,
                p0,
                over0,
            ) && a == Action::Nothing,
            MenuMessage::Select(MenuOption::Option2) => state_is(
                s1,
                Screen::Option2,
                empty_board(),
                Player::X,
                false,
            ) && a == Action::Nothing,
            MenuMessage::Select(MenuOption::Option3) => s1 == s0 && a == Action::Exit,
            MenuMessage::BackToMenu => state_is(s1, Screen::Menu, empty_board(), Player::X, over0)
                && a == Action::Nothing,
        },
        Message::TicTacToe(game_message) => match game_message {
            TicTacToeMessage::CleanBoard => state_is(
                s1,
                s0.current_view,
                empty_board(),
                Player::X,
                false,
            ) && a == Action::Nothing,
            TicTacToeMessage::MakeMove(row, col) => {
                let idx = 3 * row + col;
                if over0 || b0[idx] is Some {
                    s1 == s0 && a == Action::Nothing
                } else {
                    let b1 = b0.update(idx, Some(p0));
                    let p1 = other(p0);
                    match winner(b1) {
                        Some(w) => state_is(s1, s0.current_view, b1, p1, true) && a
                            == Action::Announce(w),
                        None => if s0.current_view == Screen::Option1 {
                            if full(b1) {
                                state_is(s1, s0.current_view, b1, p1, false) && a
                                    == Action::Nothing
                            } else {
                                exists|k: int| is_best_choice(b1, k) && ai_reply(
                                    s0,
                                    b1,
                                    p1,
                                    k,
                                    s1,
                                    a,
                                )
                            }
                        } else {
                            state_is(s1, s0.current_view, b1, p1, false) && a == Action::Nothing
                        },
                    }
                }
            },
        },
    }
}

impl MenuApp {
    /// The title the shell shows over the application.
    pub fn title(&self) -> (t: String)
        ensures
            t@ == "Tic Tac Toe"@,
    {
        String::from_str("Tic Tac Toe")
    }

    /// Takes one of the shell's events and answers with the action the shell
    /// must perform; every state change of the session happens here, as
    /// `update_transition` lays it out.
    pub fn update(&mut self, message: Message) -> (action: Action)
        requires
            valid_message(message),
        ensures
            update_transition(*old(self), message, *final(self), action),
    {
        match message {
            Message::Menu(menu_message) => match menu_message {
                MenuMessage::Select(option) => match option {
                    MenuOption::Option1 => {
                        self.current_view = Screen::Option1;
                        Action::Nothing
                    },
                    MenuOption::Option2 => {
                        self.current_view = Screen::Option2;
                        self.tic_tac_toe.game_over = false;
                        self.tic_tac_toe.game_state.clean_board();
                        Action::Nothing
                    },
                    MenuOption::Option3 => Action::Exit,
                },
                MenuMessage::BackToMenu => {
                    self.current_view = Screen::Menu;
                    self.tic_tac_toe.game_state.clean_board();
                    Action::Nothing
                },
            },
            Message::TicTacToe(game_message) => match game_message {
                TicTacToeMessage::MakeMove(row, col) => {
                    if !self.tic_tac_toe.game_over && self.tic_tac_toe.game_state.make_move(
                        row,
                        col,
                    ) {
                        if let Some(p) = self.tic_tac_toe.game_state.check_win() {
                            self.tic_tac_toe.game_over = true;
                            Action::Announce(p)
                        } else if self.current_view == Screen::Option1 {
                            if let Some((ai_row, ai_col)) = self.tic_tac_toe.game_state.best_move() {
                                self.tic_tac_toe.game_state.make_move(ai_row, ai_col);
                                if let Some(p) = self.tic_tac_toe.game_state.check_win() {
                                    self.tic_tac_toe.game_over = true;
                                    Action::Announce(p)
                                } else {
                                    Action::Nothing
                                }
                            } else {
                                Action::Nothing
                            }
                        } else {
                            Action::Nothing
                        }
                    } else {
                        Action::Nothing
                    }
                },
                TicTacToeMessage::CleanBoard => {
                    self.tic_tac_toe.game_state.clean_board();
                    self.tic_tac_toe.game_over = false;
                    Action::Nothing
                },
            },
        }
    }
}

impl Default for MenuApp {
    /// The application starts on the menu with a fresh game.
    fn default() -> (s: Self)
        ensures
            s.current_view == Screen::Menu,
            s.tic_tac_toe.game_state.board@ == empty_board(),
            s.tic_tac_toe.game_state.current_player == Player::X,
            !s.tic_tac_toe.game_over,
    {
        MenuApp { current_view: Screen::default(), tic_tac_toe: TicTacToe::default() }
    }
}

} // verus!
