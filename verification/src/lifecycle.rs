//! Creating a session, joining it, starting it, and topping up its pool.

use crate::board::{standard_entries, TransportTable, DEFAULT_WIN_POSITION, MAX_MAP_SIZE};
use crate::error::ErrorCode;
use crate::game::{settles, Game, GameState, Session, MAX_PLAYERS};
use crate::identity::Identity;
use crate::operation::Operation;
use vstd::prelude::*;

verus! {

impl Session {
    /// The session is as `creator` has just made it: open, empty, with an
    /// empty pool, every token on square zero, and the standard board.
    pub open spec fn is_new(
        self,
        creator: Identity,
        game_id: [u8; 32],
        max_players: u8,
        entry_fee_lamports: u64,
        roll_fee_lamports: u64,
        bump: u8,
    ) -> bool {
        &&& self.creator == creator
        &&& self.game_id == game_id
        &&& self.max_players == max_players
        &&& self.players == Seq::<Identity>::empty()
        &&& self.positions == Seq::new(MAX_PLAYERS as nat, |i: int| 0u8)
        &&& self.entry_fee_lamports == entry_fee_lamports
        &&& self.roll_fee_lamports == roll_fee_lamports
        &&& self.total_pot == 0
        &&& self.current_turn_index == 0
        &&& self.turn_nonce == 0
        &&& self.win_position == DEFAULT_WIN_POSITION
        &&& self.state == GameState::Created
        &&& !self.finished
        &&& self.winner is None
        &&& self.last_anchor@ == Seq::new(32, |i: int| 0u8)
        &&& self.bump == bump
        &&& self.transports.entries() == standard_entries()
        &&& forall|i: int|
            15 <= i < MAX_MAP_SIZE ==> self.transports.from[i] == 0 && self.transports.to[i] == 0
        &&& self.pending_player is None
    }

    /// Why `player` cannot join, if anything stands in the way: the session
    /// is no longer open, it is full, or `player` has a seat already.
    pub open spec fn join_refusal(self, player: Identity) -> Option<ErrorCode> {
        if self.state != GameState::Created {
            Some(ErrorCode::GameAlreadyStarted)
        } else if self.players.len() >= self.max_players {
            Some(ErrorCode::GameFull)
        } else if self.players.contains(player) {
            Some(ErrorCode::AlreadyJoined)
        } else {
            None
        }
    }

    /// The session after `player` has taken the next seat, with the token on
    /// square zero and the pool as the custodian reports it.
    pub open spec fn joined(self, player: Identity, pot: u64) -> Session {
        Session {
            players: self.players.push(player),
            positions: self.positions.update(self.players.len() as int, 0u8),
            total_pot: pot,
            ..self
        }
    }

    /// Why `authority` cannot start the session, if anything stands in the
    /// way: it is not the creator, the session is no longer open, or nobody
    /// has joined.
    pub open spec fn start_refusal(self, authority: Identity) -> Option<ErrorCode> {
        if self.creator != authority {
            Some(ErrorCode::Unauthorized)
        } else if self.state != GameState::Created {
            Some(ErrorCode::GameAlreadyStarted)
        } else if self.players.len() == 0 {
            Some(ErrorCode::NoPlayers)
        } else {
            None
        }
    }

    /// The session once turns are being played.
    pub open spec fn started(self) -> Session {
        Session { state: GameState::Started, ..self }
    }

    /// Why the pool cannot be topped up, if anything stands in the way: the
    /// session is finished.
    pub open spec fn deposit_refusal(self) -> Option<ErrorCode> {
        if self.finished {
            Some(ErrorCode::GameFinished)
        } else {
            None
        }
    }

    /// The session with its pool as the custodian reports it.
    pub open spec fn with_pot(self, pot: u64) -> Session {
        Session { total_pot: pot, ..self }
    }
}

/// Creates a session for `creator`: open, without players or funds, with the
/// standard board and the default winning square.
///
/// Refused with `TooManyPlayers` where `max_players` is more than eight.
pub fn create_game(
    creator: Identity,
    game_id: [u8; 32],
    max_players: u8,
    entry_fee_lamports: u64,
    roll_fee_lamports: u64,
    bump: u8,
) -> (r: Result<Game, ErrorCode>)
    ensures
        match r {
            Ok(game) => {
                &&& max_players <= MAX_PLAYERS
                &&& game@.is_new(
                    creator,
                    game_id,
                    max_players,
                    entry_fee_lamports,
                    roll_fee_lamports,
                    bump,
                )
                &&& game@.well_formed()
                &&& game@.pending_in_order()
            },
            Err(e) => max_players > MAX_PLAYERS && e == ErrorCode::TooManyPlayers,
        },
{
    if max_players as usize > MAX_PLAYERS {
        return Err(ErrorCode::TooManyPlayers);
    }
    let game = Game {
        creator,
        game_id,
        max_players,
        players: Vec::new(),
        positions: [0u8; MAX_PLAYERS],
        entry_fee_lamports,
        roll_fee_lamports,
        total_pot: 0,
        current_turn_index: 0,
        turn_nonce: 0,
        win_position: DEFAULT_WIN_POSITION,
        state: GameState::Created,
        finished: false,
        winner: None,
        last_anchor: [0u8; 32],
        bump,
        transports: TransportTable::standard(),
        pending_player: None,
    };
    proof {
        assert(game@.positions =~= Seq::new(MAX_PLAYERS as nat, |i: int| 0u8));
        assert(game@.last_anchor@ =~= Seq::new(32, |i: int| 0u8));
        assert(game@.players =~= Seq::<Identity>::empty());
        assert forall|i: int| 0 <= i < game.transports.len implies game.transports.to[i]
            <= game.win_position by {
            assert(game.transports.entries()[i] == standard_entries()[i]);
        }
    }
    Ok(game)
}

/// What `player` has to pay into the pool before joining, if anything.
pub fn entry_fee_due(game: &Game) -> (fee: Option<u64>)
    ensures
        fee == if game.entry_fee_lamports > 0 {
            Some(game.entry_fee_lamports)
        } else {
            None
        },
{
    if game.entry_fee_lamports > 0 {
        Some(game.entry_fee_lamports)
    } else {
        None
    }
}

/// Seats `player` in an open session and records the pool.
///
/// `current_pot` is the balance that the custodian holds for the session,
/// read after the entry fee was paid in. The new player's token starts on
/// square zero.
pub fn join_game(game: &mut Game, player: Identity, current_pot: u64) -> (r: Result<(), ErrorCode>)
    requires
        old(game)@.well_formed(),
    ensures
        settles(
            r,
            final(game)@,
            old(game)@.join_refusal(player),
            old(game)@,
            old(game)@.joined(player, current_pot),
        ),
        final(game)@ == old(game)@.after((Operation::Join { player, pot: current_pot })),
        final(game)@.well_formed(),
        old(game)@.pending_in_order() ==> final(game)@.pending_in_order(),
{
    if game.state != GameState::Created {
        return Err(ErrorCode::GameAlreadyStarted);
    }
    if game.players.len() >= game.max_players as usize {
        return Err(ErrorCode::GameFull);
    }
    if game.seat_of(&player).is_some() {
        return Err(ErrorCode::AlreadyJoined);
    }
    let seat: usize = game.players.len();
    game.total_pot = current_pot;
    game.positions[seat] = 0;
    game.players.push(player);
    proof {
        assert(final(game)@ =~= old(game)@.joined(player, current_pot));
    }
    Ok(())
}

/// Starts an open session on behalf of `authority`: from now on turns are
/// played and nobody can join.
pub fn start_game(game: &mut Game, authority: Identity) -> (r: Result<(), ErrorCode>)
    requires
        old(game)@.well_formed(),
    ensures
        settles(
            r,
            final(game)@,
            old(game)@.start_refusal(authority),
            old(game)@,
            old(game)@.started(),
        ),
        final(game)@ == old(game)@.after((Operation::Start { authority })),
        final(game)@.well_formed(),
        old(game)@.pending_in_order() ==> final(game)@.pending_in_order(),
{
    if !game.creator.same(&authority) {
        return Err(ErrorCode::Unauthorized);
    }
    if game.state != GameState::Created {
        return Err(ErrorCode::GameAlreadyStarted);
    }
    if game.players.len() == 0 {
        return Err(ErrorCode::NoPlayers);
    }
    game.state = GameState::Started;
    Ok(())
}

/// Records the pool after a payer has topped it up.
///
/// `current_pot` is the balance that the custodian holds for the session,
/// read after the payment. Refused with `GameFinished` once the session is
/// finished; open to anyone at any other time.
pub fn deposit_fee(game: &mut Game, current_pot: u64) -> (r: Result<(), ErrorCode>)
    requires
        old(game)@.well_formed(),
    ensures
        settles(
            r,
            final(game)@,
            old(game)@.deposit_refusal(),
            old(game)@,
            old(game)@.with_pot(current_pot),
        ),
        final(game)@ == old(game)@.after((Operation::Deposit { pot: current_pot })),
        final(game)@.well_formed(),
        old(game)@.pending_in_order() ==> final(game)@.pending_in_order(),
{
    if game.finished {
        return Err(ErrorCode::GameFinished);
    }
    game.total_pot = current_pot;
    Ok(())
}

} // verus!
