//! A verified tic-tac-toe engine: a 3x3 board with alternating marks, win and
//! draw detection, and an exhaustive minimax search that picks the optimal
//! move for the automated player. The presentation layer around it is
//! unverified and lives outside this crate's logic.

pub mod game_state;
pub mod menu_app;
pub mod messages;
pub mod tic_tac_toe;
pub mod views;

pub use game_state::GameState;
pub use game_state::Outcome;
pub use game_state::Player;
pub use menu_app::Action;
pub use menu_app::MenuApp;
pub use messages::MenuMessage;
pub use messages::Message;
pub use messages::TicTacToeMessage;
pub use tic_tac_toe::TicTacToe;
pub use views::MenuOption;
pub use views::Screen;

