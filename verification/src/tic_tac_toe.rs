//! One game screen: the board it plays on and whether its game has ended.

use vstd::prelude::*;
use crate::game_state::GameState;
use crate::game_state::Player;
use crate::game_state::empty_board;
use crate::game_state::turn_consistent;

verus! {

/// A game screen. `game_over` is set once a completed line is detected after
/// a move and blocks further moves until the board is cleared.
#[derive(Clone, Copy)]
pub struct TicTacToe {
    pub game_state: GameState,
    pub game_over: bool,
}

impl Default for TicTacToe {
    /// A fresh screen: an empty board with `X` to move and the game open.
    fn default() -> (t: Self)
        ensures
            t.game_state.board@ == empty_board(),
            t.game_state.current_player == Player::X,
            turn_consistent(t.game_state),
            !t.game_over,
    {
        TicTacToe { game_state: GameState::default(), game_over: false }
    }
}

} // verus!
