//! Rules engine for a stake-based race on a numbered board with shortcut and
//! setback squares.
//!
//! Players join a session, pay into a shared pool and take turns moving a
//! token by the roll of a die; the token that lands exactly on the last
//! square wins the pool. The engine decides what each operation does to the
//! session's record. Moving funds and delivering randomness are left to its
//! caller, which hands the engine what it read and carries out what the
//! engine returns.

pub mod accounting;
pub mod board;
pub mod clock;
pub mod error;
pub mod game;
pub mod identity;
pub mod laws;
pub mod lifecycle;
pub mod operation;
pub mod payout;
pub mod turn;

pub use board::{TransportTable, DEFAULT_WIN_POSITION, MAX_MAP_SIZE};
pub use error::ErrorCode;
pub use game::{Game, GameState, MAX_PLAYERS};
pub use identity::Identity;
pub use lifecycle::{create_game, deposit_fee, join_game, start_game};
pub use payout::claim_prize;
pub use turn::{pass_turn, request_roll, request_roll_async, resolve_roll, resolve_roll_sync};
