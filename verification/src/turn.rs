//! Turns: rolling at once from the clock, rolling in two phases with
//! randomness delivered from outside, and passing.

use crate::board::{
    destination, dice_from_byte, dice_from_clock, die_of_byte, die_of_clock, reaches_goal,
    resolve_move,
};
use crate::clock::{read_clock, ClockReading};
use crate::error::ErrorCode;
use crate::game::{settles, Game, GameState, Session};
use crate::identity::Identity;
use crate::operation::Operation;
use anchor_lang::prelude::ProgramError;
use vstd::prelude::*;

verus! {

/// Why a roll from the clock did not take place.
#[derive(Debug)]
pub enum RollError {
    /// The session's rules refuse the roll.
    Refused(ErrorCode),
    /// The runtime did not supply the clock.
    ClockUnavailable(ProgramError),
}

/// What the randomness gateway is asked for when a roll is requested: a
/// random value for `requester`, varied by `client_seed`, to be delivered to
/// the session that `creator` and `game_id` name.
#[derive(Clone, Copy, Debug, PartialEq, Eq)]
pub struct RandomnessRequest {
    pub creator: Identity,
    pub game_id: [u8; 32],
    pub requester: Identity,
    pub client_seed: u8,
}

/// What arrives when randomness is delivered: who sent it, and the value.
#[derive(Clone, Copy, Debug, PartialEq, Eq)]
pub struct RandomnessDelivery {
    pub sender: Identity,
    pub random_value: [u8; 32],
}

impl Session {
    /// Why `player` cannot roll, if anything stands in the way: the session
    /// is not being played, it is not `player`'s turn, or the turn counter is
    /// exhausted.
    pub open spec fn roll_refusal(self, player: Identity) -> Option<ErrorCode> {
        if self.state != GameState::Started {
            Some(ErrorCode::GameNotStarted)
        } else if self.finished {
            Some(ErrorCode::GameFinished)
        } else if !self.is_turn_of(player) {
            Some(ErrorCode::NotYourTurn)
        } else if self.turn_nonce == u64::MAX {
            Some(ErrorCode::NonceOverflow)
        } else {
            None
        }
    }

    /// The roll takes the token at `seat` to rest exactly on the winning
    /// square.
    pub open spec fn wins(self, seat: int, roll: u8) -> bool {
        reaches_goal(self.transports, self.positions[seat], roll, self.win_position)
    }

    /// The session after the token at `seat` has moved by `roll`.
    ///
    /// The token rests where the board sends it. Where that is exactly the
    /// winning square, the session is finished, the player at `seat` has won
    /// and the turn stays. Otherwise the turn passes to the next seat, also
    /// where the token stayed put because the roll was too high.
    pub open spec fn moved(self, seat: int, roll: u8) -> Session {
        let rest = destination(self.transports, self.positions[seat], roll, self.win_position);
        if self.wins(seat, roll) {
            Session {
                positions: self.positions.update(seat, rest),
                finished: true,
                state: GameState::Finished,
                winner: Some(self.players[seat]),
                ..self
            }
        } else {
            Session {
                positions: self.positions.update(seat, rest),
                current_turn_index: self.next_turn(),
                ..self
            }
        }
    }

    /// The session after the player whose turn it is has rolled `roll` at
    /// once: the pool is as the custodian reports it, the token has moved,
    /// the turn is counted, and a roll that was outstanding is given up.
    pub open spec fn rolled(self, roll: u8, pot: u64) -> Session {
        Session {
            turn_nonce: (self.turn_nonce + 1) as u64,
            pending_player: None,
            ..self.with_pot(pot).moved(self.current_turn_index as int, roll)
        }
    }

    /// The session after the player whose turn it is has rolled at once with
    /// the clock at `reading`: the die is the one that the reading and the
    /// turn counter give.
    pub open spec fn rolled_at(self, reading: ClockReading, pot: u64) -> Session {
        self.rolled(
            die_of_clock(reading.unix_timestamp, reading.slot, self.turn_nonce) as u8,
            pot,
        )
    }

    /// Why `player` cannot request a roll, if anything stands in the way: the
    /// session is not being played, the turn is at no player, it is not
    /// `player`'s turn or `player` has a roll outstanding already, or the
    /// turn counter is exhausted.
    pub open spec fn request_refusal(self, player: Identity) -> Option<ErrorCode> {
        if self.state != GameState::Started {
            Some(ErrorCode::GameNotStarted)
        } else if self.finished {
            Some(ErrorCode::GameFinished)
        } else if self.current_turn_index >= self.players.len() {
            Some(ErrorCode::InvalidTurnIndex)
        } else if self.players[self.current_turn_index as int] != player {
            Some(ErrorCode::NotYourTurn)
        } else if self.pending_player is Some {
            Some(ErrorCode::NotYourTurn)
        } else if self.turn_nonce == u64::MAX {
            Some(ErrorCode::NonceOverflow)
        } else {
            None
        }
    }

    /// What the gateway is asked for when `player` requests a roll: a random
    /// value for `player`, to be delivered to this session.
    pub open spec fn roll_request(self, player: Identity, client_seed: u8) -> RandomnessRequest {
        RandomnessRequest {
            creator: self.creator,
            game_id: self.game_id,
            requester: player,
            client_seed,
        }
    }

    /// The session while it waits for `player`'s roll: the pool is as the
    /// custodian reports it, the turn is counted, and no token has moved.
    pub open spec fn roll_requested(self, player: Identity, pot: u64) -> Session {
        Session {
            total_pot: pot,
            pending_player: Some(player),
            turn_nonce: (self.turn_nonce + 1) as u64,
            ..self
        }
    }

    /// Why a delivery from `sender` cannot resolve a roll, if anything stands
    /// in the way: `sender` is not the gateway, the session is not being
    /// played, no roll is outstanding, or the player who asked has no seat.
    pub open spec fn resolve_refusal(
        self,
        gateway: Identity,
        sender: Identity,
    ) -> Option<ErrorCode> {
        if sender != gateway {
            Some(ErrorCode::InvalidVrfProgram)
        } else if self.state != GameState::Started {
            Some(ErrorCode::GameNotStarted)
        } else if self.finished {
            Some(ErrorCode::GameFinished)
        } else if self.pending_player is None {
            Some(ErrorCode::MoverMismatch)
        } else if !self.players.contains(self.pending_player->0) {
            Some(ErrorCode::InvalidMover)
        } else {
            None
        }
    }

    /// The session after the outstanding roll has come out as `roll`: the
    /// token of the player who asked has moved, and no roll is outstanding.
    pub open spec fn roll_resolved(self, roll: u8) -> Session {
        Session {
            pending_player: None,
            ..self.moved(self.seat_of(self.pending_player->0)->0, roll)
        }
    }

    /// Why `caller` cannot pass, if anything stands in the way: the session
    /// is not being played, it has no players, it is not `caller`'s turn, or
    /// the turn counter is exhausted.
    pub open spec fn pass_refusal(self, caller: Identity) -> Option<ErrorCode> {
        if self.state != GameState::Started {
            Some(ErrorCode::GameNotStarted)
        } else if self.finished {
            Some(ErrorCode::GameFinished)
        } else if self.players.len() == 0 {
            Some(ErrorCode::NoPlayers)
        } else if !self.is_turn_of(caller) {
            Some(ErrorCode::Unauthorized)
        } else if self.turn_nonce == u64::MAX {
            Some(ErrorCode::NonceOverflow)
        } else {
            None
        }
    }

    /// The session after the turn was passed on: no roll is outstanding, the
    /// turn is at the next seat and is counted, and no token has moved.
    pub open spec fn passed(self) -> Session {
        Session {
            pending_player: None,
            current_turn_index: self.next_turn(),
            turn_nonce: (self.turn_nonce + 1) as u64,
            ..self
        }
    }
}

/// What `player` has to pay into the pool before rolling, if anything.
pub fn roll_fee_due(game: &Game) -> (fee: Option<u64>)
    ensures
        fee == if game.roll_fee_lamports > 0 {
            Some(game.roll_fee_lamports)
        } else {
            None
        },
{
    if game.roll_fee_lamports > 0 {
        Some(game.roll_fee_lamports)
    } else {
        None
    }
}

/// Decides whether `player` may roll now.
fn check_roll(game: &Game, player: &Identity) -> (r: Result<(), ErrorCode>)
    requires
        game@.well_formed(),
    ensures
        match game@.roll_refusal(*player) {
            Some(e) => r == Err::<(), ErrorCode>(e),
            None => r is Ok,
        },
{
    if game.state != GameState::Started {
        return Err(ErrorCode::GameNotStarted);
    }
    if game.finished {
        return Err(ErrorCode::GameFinished);
    }
    if !game.players[game.current_turn_index as usize].same(player) {
        return Err(ErrorCode::NotYourTurn);
    }
    if game.turn_nonce == u64::MAX {
        return Err(ErrorCode::NonceOverflow);
    }
    Ok(())
}

/// Moves the token at `seat` by `roll`, and finishes the session or passes
/// the turn on.
fn apply_move(game: &mut Game, seat: usize, roll: u8)
    requires
        old(game)@.well_formed(),
        old(game).state == GameState::Started,
        seat < old(game).players.len(),
    ensures
        final(game)@ == old(game)@.moved(seat as int, roll),
        final(game)@.well_formed(),
{
    let (rest, wins) = resolve_move(&game.transports, game.positions[seat], roll, game.win_position);
    proof {
        game.transports.lemma_landing_cases((game.positions[seat as int] + roll) as u8);
    }
    game.positions[seat] = rest;
    if wins {
        game.finished = true;
        game.winner = Some(game.players[seat]);
        game.state = GameState::Finished;
    } else {
        game.current_turn_index = ((game.current_turn_index as usize + 1)
            % game.players.len()) as u8;
    }
    proof {
        assert(final(game)@ =~= old(game)@.moved(seat as int, roll));
    }
}

/// Applies a roll that was made at once: records the pool, moves the token
/// of the player whose turn it is, counts the turn, and gives up a roll that
/// was outstanding.
fn apply_roll(game: &mut Game, roll: u8, current_pot: u64)
    requires
        old(game)@.well_formed(),
        old(game).state == GameState::Started,
        old(game).turn_nonce < u64::MAX,
    ensures
        final(game)@ == old(game)@.rolled(roll, current_pot),
        final(game)@.well_formed(),
{
    game.total_pot = current_pot;
    let seat: usize = game.current_turn_index as usize;
    apply_move(game, seat, roll);
    game.turn_nonce = game.turn_nonce + 1;
    game.pending_player = None;
}

/// Resolves a turn at once with a roll derived from the given clock reading.
///
/// `current_pot` is the balance that the custodian holds for the session,
/// read after the roll fee was paid in. The roll is the one that
/// [`dice_from_clock`] derives from the reading and the turn counter. The
/// token of `player` moves by it; landing exactly on the winning square
/// finishes the session with `player` as the winner, anything else passes the
/// turn on. The turn is counted either way, and a roll that was outstanding
/// is given up. Refused with `NonceOverflow` once the turn counter cannot
/// count one more turn.
pub fn resolve_roll_sync(
    game: &mut Game,
    player: Identity,
    current_pot: u64,
    reading: ClockReading,
) -> (r: Result<(), ErrorCode>)
    requires
        old(game)@.well_formed(),
    ensures
        settles(
            r,
            final(game)@,
            old(game)@.roll_refusal(player),
            old(game)@,
            old(game)@.rolled_at(reading, current_pot),
        ),
        final(game)@ == old(game)@.after((Operation::Roll { player, pot: current_pot, reading })),
        final(game)@.well_formed(),
        old(game)@.pending_in_order() ==> final(game)@.pending_in_order(),
{
    match check_roll(game, &player) {
        Err(e) => Err(e),
        Ok(()) => {
            let roll: u8 = dice_from_clock(reading.unix_timestamp, reading.slot, game.turn_nonce);
            apply_roll(game, roll, current_pot);
            Ok(())
        },
    }
}

/// Resolves a turn at once with a roll derived from the cluster clock.
///
/// Does what [`resolve_roll_sync`] does with the clock as the runtime
/// reports it now. Which roll comes out is therefore not known beforehand:
/// on success the session is as [`resolve_roll_sync`] leaves it for some
/// reading of the clock. Where the runtime does not supply the clock, the
/// session is untouched.
pub fn request_roll(
    game: &mut Game,
    player: Identity,
    current_pot: u64,
) -> (r: Result<(), RollError>)
    requires
        old(game)@.well_formed(),
    ensures
        match r {
            Ok(()) => old(game)@.roll_refusal(player) is None && exists|reading: ClockReading|
                final(game)@ == #[trigger] old(game)@.rolled_at(reading, current_pot),
            Err(RollError::Refused(e)) => old(game)@.roll_refusal(player) == Some(e)
                && final(game)@ == old(game)@,
            Err(RollError::ClockUnavailable(_)) => old(game)@.roll_refusal(player) is None
                && final(game)@ == old(game)@,
        },
        final(game)@.well_formed(),
        old(game)@.pending_in_order() ==> final(game)@.pending_in_order(),
{
    match check_roll(game, &player) {
        Err(e) => Err(RollError::Refused(e)),
        Ok(()) => match read_clock() {
            Err(e) => Err(RollError::ClockUnavailable(e)),
            Ok(reading) => {
                let roll: u8 = dice_from_clock(reading.unix_timestamp, reading.slot, game.turn_nonce);
                apply_roll(game, roll, current_pot);
                assert(final(game)@ == old(game)@.rolled_at(reading, current_pot));
                Ok(())
            },
        },
    }
}

/// Opens a two-phase roll: records that `player` awaits a roll and says what
/// to ask the randomness gateway for.
///
/// `current_pot` is the balance that the custodian holds for the session,
/// read after the roll fee was paid in. No token moves until the randomness
/// is delivered to [`resolve_roll`]. While a roll is outstanding no further
/// one can be requested.
pub fn request_roll_async(
    game: &mut Game,
    player: Identity,
    client_seed: u8,
    current_pot: u64,
) -> (r: Result<RandomnessRequest, ErrorCode>)
    requires
        old(game)@.well_formed(),
    ensures
        match old(game)@.request_refusal(player) {
            Some(e) => r == Err::<RandomnessRequest, ErrorCode>(e) && final(game)@ == old(game)@,
            None => r == Ok::<RandomnessRequest, ErrorCode>(
                old(game)@.roll_request(player, client_seed),
            ) && final(game)@ == old(game)@.roll_requested(player, current_pot),
        },
        final(game)@ == old(game)@.after((Operation::RequestRoll { player, pot: current_pot })),
        final(game)@.well_formed(),
        old(game)@.pending_in_order() ==> final(game)@.pending_in_order(),
{
    if game.state != GameState::Started {
        return Err(ErrorCode::GameNotStarted);
    }
    if game.finished {
        return Err(ErrorCode::GameFinished);
    }
    if game.current_turn_index as usize >= game.players.len() {
        return Err(ErrorCode::InvalidTurnIndex);
    }
    if !game.players[game.current_turn_index as usize].same(&player) {
        return Err(ErrorCode::NotYourTurn);
    }
    if game.pending_player.is_some() {
        return Err(ErrorCode::NotYourTurn);
    }
    match game.turn_nonce.checked_add(1) {
        None => Err(ErrorCode::NonceOverflow),
        Some(nonce) => {
            game.total_pot = current_pot;
            game.pending_player = Some(player);
            game.turn_nonce = nonce;
            Ok(
                RandomnessRequest {
                    creator: game.creator,
                    game_id: game.game_id,
                    requester: player,
                    client_seed,
                },
            )
        },
    }
}

/// Closes a two-phase roll with the randomness that was delivered.
///
/// Only a delivery sent by `gateway` counts. The die is the first random
/// byte's remainder by six, plus one. The token of the player who asked
/// moves by it as in a roll made at once, and no roll is outstanding
/// afterwards, whether the token moved, stayed put or won.
pub fn resolve_roll(
    game: &mut Game,
    gateway: Identity,
    delivery: &RandomnessDelivery,
) -> (r: Result<(), ErrorCode>)
    requires
        old(game)@.well_formed(),
    ensures
        settles(
            r,
            final(game)@,
            old(game)@.resolve_refusal(gateway, delivery.sender),
            old(game)@,
            old(game)@.roll_resolved(die_of_byte(delivery.random_value[0]) as u8),
        ),
        final(game)@ == old(game)@.after((Operation::ResolveRoll { gateway, delivery: *delivery })),
        final(game)@.well_formed(),
        old(game)@.pending_in_order() ==> final(game)@.pending_in_order(),
{
    if !delivery.sender.same(&gateway) {
        return Err(ErrorCode::InvalidVrfProgram);
    }
    if game.state != GameState::Started {
        return Err(ErrorCode::GameNotStarted);
    }
    if game.finished {
        return Err(ErrorCode::GameFinished);
    }
    let mover = match game.pending_player {
        None => {
            return Err(ErrorCode::MoverMismatch);
        },
        Some(p) => p,
    };
    let seat: usize = match game.seat_of(&mover) {
        None => {
            return Err(ErrorCode::InvalidMover);
        },
        Some(i) => i,
    };
    let roll: u8 = dice_from_byte(delivery.random_value[0]);
    apply_move(game, seat, roll);
    game.pending_player = None;
    Ok(())
}

/// Passes the turn on without a roll.
///
/// Only the player whose turn it is can pass. An outstanding roll is given
/// up, the turn goes to the next seat and is counted; no token moves.
pub fn pass_turn(game: &mut Game, caller: Identity) -> (r: Result<(), ErrorCode>)
    requires
        old(game)@.well_formed(),
    ensures
        settles(
            r,
            final(game)@,
            old(game)@.pass_refusal(caller),
            old(game)@,
            old(game)@.passed(),
        ),
        final(game)@ == old(game)@.after((Operation::Pass { caller })),
        final(game)@.well_formed(),
        old(game)@.pending_in_order() ==> final(game)@.pending_in_order(),
{
    if game.state != GameState::Started {
        return Err(ErrorCode::GameNotStarted);
    }
    if game.finished {
        return Err(ErrorCode::GameFinished);
    }
    if game.players.len() == 0 {
        return Err(ErrorCode::NoPlayers);
    }
    if !game.players[game.current_turn_index as usize].same(&caller) {
        return Err(ErrorCode::Unauthorized);
    }
    match game.turn_nonce.checked_add(1) {
        None => Err(ErrorCode::NonceOverflow),
        Some(nonce) => {
            game.pending_player = None;
            game.current_turn_index = ((game.current_turn_index as usize + 1)
                % game.players.len()) as u8;
            game.turn_nonce = nonce;
            Ok(())
        },
    }
}

} // verus!
