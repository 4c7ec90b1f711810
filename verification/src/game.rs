//! The session record, its mathematical model and its invariants.

use crate::board::TransportTable;
use crate::error::ErrorCode;
use crate::identity::Identity;
use vstd::prelude::*;

verus! {

/// The most players a session can seat.
pub const MAX_PLAYERS: usize = 8;

/// Where a session stands in its life.
#[derive(Clone, Copy, Debug, PartialEq, Eq, Structural)]
pub enum GameState {
    /// Open for players to join.
    Created,
    /// Turns are being played.
    Started,
    /// A player has won; only the payout remains.
    Finished,
}

/// One session of the game: its players, their tokens, the pool and whose
/// turn it is.
#[derive(Clone, Debug, PartialEq, Eq)]
pub struct Game {
    /// Who created the session; the only party that may start it.
    pub creator: Identity,
    /// Identifier chosen by the creator.
    pub game_id: [u8; 32],
    /// How many players the session seats.
    pub max_players: u8,
    /// The players in the order they joined, which is the order of turns.
    pub players: Vec<Identity>,
    /// The square of each player's token, by seat. Seats beyond the last
    /// player are unused.
    pub positions: [u8; MAX_PLAYERS],
    /// What a player pays to join.
    pub entry_fee_lamports: u64,
    /// What a player pays for a roll.
    pub roll_fee_lamports: u64,
    /// The pool: the funds held for the session, as last read from the
    /// custodian.
    pub total_pot: u64,
    /// The seat whose turn it is.
    pub current_turn_index: u8,
    /// Counts the turns resolved or passed.
    pub turn_nonce: u64,
    /// The square that wins.
    pub win_position: u8,
    pub state: GameState,
    /// Set exactly when `state` is `Finished`.
    pub finished: bool,
    /// The player who reached the winning square.
    pub winner: Option<Identity>,
    /// Carried with the record; the rules do not read it.
    pub last_anchor: [u8; 32],
    /// Carried with the record; the rules do not read it.
    pub bump: u8,
    /// The board's shortcuts and setbacks, fixed when the session is created.
    pub transports: TransportTable,
    /// The player whose requested roll has not been resolved yet.
    pub pending_player: Option<Identity>,
}

/// The mathematical model of a [`Game`]: the same record with its
/// collections as sequences.
pub struct Session {
    pub creator: Identity,
    pub game_id: [u8; 32],
    pub max_players: u8,
    pub players: Seq<Identity>,
    pub positions: Seq<u8>,
    pub entry_fee_lamports: u64,
    pub roll_fee_lamports: u64,
    pub total_pot: u64,
    pub current_turn_index: u8,
    pub turn_nonce: u64,
    pub win_position: u8,
    pub state: GameState,
    pub finished: bool,
    pub winner: Option<Identity>,
    pub last_anchor: [u8; 32],
    pub bump: u8,
    pub transports: TransportTable,
    pub pending_player: Option<Identity>,
}

impl View for Game {
    type V = Session;

    open spec fn view(&self) -> Session {
        Session {
            creator: self.creator,
            game_id: self.game_id,
            max_players: self.max_players,
            players: self.players@,
            positions: self.positions@,
            entry_fee_lamports: self.entry_fee_lamports,
            roll_fee_lamports: self.roll_fee_lamports,
            total_pot: self.total_pot,
            current_turn_index: self.current_turn_index,
            turn_nonce: self.turn_nonce,
            win_position: self.win_position,
            state: self.state,
            finished: self.finished,
            winner: self.winner,
            last_anchor: self.last_anchor,
            bump: self.bump,
            transports: self.transports,
            pending_player: self.pending_player,
        }
    }
}

impl Session {
    /// What holds of a session between any two operations.
    ///
    /// - it seats at most eight players, holds no more players than it seats,
    ///   and no player twice;
    /// - the turn is at one of the players, or at the first seat while there
    ///   is none, and a started session has a player;
    /// - every player's token is on the board, at or before the winning
    ///   square, and the table sends no token past it;
    /// - it has a winner exactly when it is finished.
    pub open spec fn well_formed(self) -> bool {
        &&& self.max_players <= MAX_PLAYERS
        &&& self.players.len() <= self.max_players
        &&& self.players.no_duplicates()
        &&& self.positions.len() == MAX_PLAYERS
        &&& self.current_turn_index == 0 || self.current_turn_index < self.players.len()
        &&& self.state == GameState::Started ==> self.players.len() >= 1
        &&& forall|i: int| 0 <= i < self.players.len() ==> self.positions[i] <= self.win_position
        &&& self.finished <==> self.state == GameState::Finished
        &&& self.winner is Some <==> self.state == GameState::Finished
        &&& self.transports.well_formed()
        &&& self.transports.stays_within(self.win_position)
    }

    /// A roll is outstanding only while the session is started, and only for
    /// the player whose turn it is.
    pub open spec fn pending_in_order(self) -> bool {
        self.pending_player is Some ==> {
            &&& self.state == GameState::Started
            &&& self.current_turn_index < self.players.len()
            &&& self.players[self.current_turn_index as int] == self.pending_player->0
        }
    }

    /// The seat of `player`, where `player` has one: the first at which
    /// `player` sits.
    pub open spec fn seat_of(self, player: Identity) -> Option<int> {
        self.players.index_of_first(player)
    }

    /// It is `player`'s turn.
    pub open spec fn is_turn_of(self, player: Identity) -> bool {
        &&& self.current_turn_index < self.players.len()
        &&& self.players[self.current_turn_index as int] == player
    }

    /// The seat that plays after the current one.
    pub open spec fn next_turn(self) -> u8 {
        ((self.current_turn_index + 1) % (self.players.len() as int)) as u8
    }
}

/// What the session's outcome and record are after an operation that
/// `refusal` may stand in the way of: refused and untouched, or accepted and
/// as `after` says.
pub open spec fn settles(
    result: Result<(), ErrorCode>,
    record: Session,
    refusal: Option<ErrorCode>,
    before: Session,
    after: Session,
) -> bool {
    match refusal {
        Some(e) => result == Err::<(), ErrorCode>(e) && record == before,
        None => result is Ok && record == after,
    }
}

impl Game {
    /// Finds the seat of `player`.
    pub fn seat_of(&self, player: &Identity) -> (seat: Option<usize>)
        ensures
            match seat {
                Some(i) => i < self.players.len() && self@.seat_of(*player) == Some(i as int)
                    && self@.players[i as int] == *player,
                None => self@.seat_of(*player) is None,
            },
            seat is Some <==> self@.players.contains(*player),
    {
        let mut i: usize = 0;
        while i < self.players.len()
            invariant
                i <= self.players.len(),
                forall|j: int| 0 <= j < i ==> self.players@[j] != *player,
            decreases self.players.len() - i,
        {
            if self.players[i].same(player) {
                proof {
                    self.players@.index_of_first_ensures(*player);
                }
                return Some(i);
            }
            i += 1;
        }
        proof {
            self.players@.index_of_first_ensures(*player);
        }
        None
    }

    /// Tells whether no player is seated twice.
    fn players_distinct(&self) -> (r: bool)
        ensures
            r == self@.players.no_duplicates(),
    {
        let mut i: usize = 0;
        while i < self.players.len()
            invariant
                i <= self.players.len(),
                forall|a: int, b: int| 0 <= a < b < i ==> self.players@[a] != self.players@[b],
            decreases self.players.len() - i,
        {
            let mut j: usize = 0;
            while j < i
                invariant
                    j <= i < self.players.len(),
                    forall|a: int| 0 <= a < j ==> self.players@[a] != self.players@[i as int],
                decreases i - j,
            {
                if self.players[j].same(&self.players[i]) {
                    return false;
                }
                j += 1;
            }
            i += 1;
        }
        true
    }

    /// Tells whether every player's token is at or before the winning square.
    fn tokens_on_board(&self) -> (r: bool)
        requires
            self.players.len() <= MAX_PLAYERS,
        ensures
            r == (forall|i: int|
                0 <= i < self@.players.len() ==> self@.positions[i] <= self.win_position),
    {
        let mut i: usize = 0;
        while i < self.players.len()
            invariant
                i <= self.players.len() <= MAX_PLAYERS,
                forall|k: int| 0 <= k < i ==> self.positions@[k] <= self.win_position,
            decreases self.players.len() - i,
        {
            if self.positions[i] > self.win_position {
                assert(self@.positions[i as int] > self.win_position);
                return false;
            }
            i += 1;
        }
        true
    }

    /// Tells whether the table sends no token past the winning square.
    fn table_on_board(&self) -> (r: bool)
        requires
            self.transports.well_formed(),
        ensures
            r == self.transports.stays_within(self.win_position),
    {
        let mut i: usize = 0;
        while i < self.transports.len as usize
            invariant
                i <= self.transports.len <= crate::board::MAX_MAP_SIZE,
                forall|k: int| 0 <= k < i ==> self.transports.to[k] <= self.win_position,
            decreases self.transports.len - i,
        {
            if self.transports.to[i] > self.win_position {
                return false;
            }
            i += 1;
        }
        true
    }

    /// Checks the session's invariants at run time, for a record that comes
    /// from storage.
    pub fn is_well_formed(&self) -> (r: bool)
        ensures
            r == self@.well_formed(),
    {
        if self.max_players as usize > MAX_PLAYERS {
            return false;
        }
        if self.players.len() > self.max_players as usize {
            return false;
        }
        if self.transports.len as usize > crate::board::MAX_MAP_SIZE {
            return false;
        }
        if self.current_turn_index != 0 && self.current_turn_index as usize >= self.players.len() {
            return false;
        }
        if self.state == GameState::Started && self.players.len() == 0 {
            return false;
        }
        let over = self.state == GameState::Finished;
        if self.finished != over || self.winner.is_some() != over {
            return false;
        }
        self.players_distinct() && self.tokens_on_board() && self.table_on_board()
    }

    /// Tells whether an outstanding roll, if there is one, belongs to the
    /// player whose turn it is in a started session.
    pub fn is_pending_in_order(&self) -> (r: bool)
        ensures
            r == self@.pending_in_order(),
    {
        match &self.pending_player {
            None => true,
            Some(p) => {
                self.state == GameState::Started && (self.current_turn_index as usize)
                    < self.players.len() && self.players[self.current_turn_index as usize].same(p)
            },
        }
    }
}

} // verus!
