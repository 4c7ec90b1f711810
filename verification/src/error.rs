//! The ways in which an operation on a session is refused.

use vstd::prelude::*;

verus! {

/// Why an operation was refused. A refused operation changes nothing.
#[derive(Clone, Copy, Debug, PartialEq, Eq, Structural)]
pub enum ErrorCode {
    TooManyPlayers,
    GameFinished,
    GameFull,
    AlreadyJoined,
    Unauthorized,
    UnauthorizedER,
    InvalidNonce,
    InvalidWinner,
    NoPlayers,
    InvalidTurnIndex,
    NotYourTurn,
    NonceOverflow,
    InvalidMover,
    MoverMismatch,
    GameAlreadyStarted,
    GameNotStarted,
    InvalidVrfProgram,
    GameNotFinished,
}

impl ErrorCode {
    /// The text that describes the refusal to a person.
    pub open spec fn text(self) -> Seq<char> {
        match self {
            ErrorCode::TooManyPlayers => "Too many players"@,
            ErrorCode::GameFinished => "Game is already finished"@,
            ErrorCode::GameFull => "Game is full"@,
            ErrorCode::AlreadyJoined => "Player already joined"@,
            ErrorCode::Unauthorized => "Unauthorized"@,
            ErrorCode::UnauthorizedER => "ER signer not authorized"@,
            ErrorCode::InvalidNonce => "Invalid nonce"@,
            ErrorCode::InvalidWinner => "Invalid winner"@,
            ErrorCode::NoPlayers => "No players in game"@,
            ErrorCode::InvalidTurnIndex => "Invalid turn index"@,
            ErrorCode::NotYourTurn => "Not your turn"@,
            ErrorCode::NonceOverflow => "Nonce overflow"@,
            ErrorCode::InvalidMover => "Mover is not in game"@,
            ErrorCode::MoverMismatch => "Mover mismatch with pending"@,
            ErrorCode::GameAlreadyStarted => "Game has already started, cannot join now"@,
            ErrorCode::GameNotStarted => "Game has not started yet"@,
            ErrorCode::InvalidVrfProgram => "Invalid VRF Program ID"@,
            ErrorCode::GameNotFinished => "Game is not finished yet"@,
        }
    }

    /// Describes the refusal to a person.
    pub fn message(&self) -> (m: &'static str)
        ensures
            m@ == self.text(),
    {
        match self {
            ErrorCode::TooManyPlayers => "Too many players",
            ErrorCode::GameFinished => "Game is already finished",
            ErrorCode::GameFull => "Game is full",
            ErrorCode::AlreadyJoined => "Player already joined",
            ErrorCode::Unauthorized => "Unauthorized",
            ErrorCode::UnauthorizedER => "ER signer not authorized",
            ErrorCode::InvalidNonce => "Invalid nonce",
            ErrorCode::InvalidWinner => "Invalid winner",
            ErrorCode::NoPlayers => "No players in game",
            ErrorCode::InvalidTurnIndex => "Invalid turn index",
            ErrorCode::NotYourTurn => "Not your turn",
            ErrorCode::NonceOverflow => "Nonce overflow",
            ErrorCode::InvalidMover => "Mover is not in game",
            ErrorCode::MoverMismatch => "Mover mismatch with pending",
            ErrorCode::GameAlreadyStarted => "Game has already started, cannot join now",
            ErrorCode::GameNotStarted => "Game has not started yet",
            ErrorCode::InvalidVrfProgram => "Invalid VRF Program ID",
            ErrorCode::GameNotFinished => "Game is not finished yet",
        }
    }
}

} // verus!
