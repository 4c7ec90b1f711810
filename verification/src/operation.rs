//! The operations on a session as values, and what each does to the
//! session's model.

use crate::board::{die_of_byte, die_of_clock};
use crate::clock::ClockReading;
use crate::error::ErrorCode;
use crate::game::Session;
use crate::identity::Identity;
use crate::turn::RandomnessDelivery;
use vstd::prelude::*;

verus! {

/// One operation on a session, with what it is handed.
pub enum Operation {
    /// `player` joins; `pot` is the pool read after the entry fee.
    Join { player: Identity, pot: u64 },
    /// `authority` starts the session.
    Start { authority: Identity },
    /// The pool is topped up; `pot` is the pool read after the payment.
    Deposit { pot: u64 },
    /// `player` rolls at once from the clock at `reading`; `pot` is the pool
    /// read after the roll fee.
    Roll { player: Identity, pot: u64, reading: ClockReading },
    /// `player` asks for a roll; `pot` is the pool read after the roll fee.
    RequestRoll { player: Identity, pot: u64 },
    /// Randomness arrives for the roll that was asked for.
    ResolveRoll { gateway: Identity, delivery: RandomnessDelivery },
    /// `caller` passes.
    Pass { caller: Identity },
    /// `claimant` collects the pool.
    Claim { claimant: Identity },
}

impl Session {
    /// Why the operation is refused, if it is.
    pub open spec fn refusal(self, op: Operation) -> Option<ErrorCode> {
        match op {
            Operation::Join { player, pot } => self.join_refusal(player),
            Operation::Start { authority } => self.start_refusal(authority),
            Operation::Deposit { pot } => self.deposit_refusal(),
            Operation::Roll { player, pot, reading } => self.roll_refusal(player),
            Operation::RequestRoll { player, pot } => self.request_refusal(player),
            Operation::ResolveRoll { gateway, delivery } => self.resolve_refusal(
                gateway,
                delivery.sender,
            ),
            Operation::Pass { caller } => self.pass_refusal(caller),
            Operation::Claim { claimant } => self.claim_refusal(claimant),
        }
    }

    /// The die that the operation rolls, where it rolls one.
    pub open spec fn die_of(self, op: Operation) -> u8 {
        match op {
            Operation::Roll { player, pot, reading } => die_of_clock(
                reading.unix_timestamp,
                reading.slot,
                self.turn_nonce,
            ) as u8,
            Operation::ResolveRoll { gateway, delivery } => die_of_byte(
                delivery.random_value[0],
            ) as u8,
            _ => 0,
        }
    }

    /// The seat whose token the operation moves, where it moves one.
    pub open spec fn mover_of(self, op: Operation) -> int {
        match op {
            Operation::ResolveRoll { gateway, delivery } => self.seat_of(
                self.pending_player->0,
            )->0,
            _ => self.current_turn_index as int,
        }
    }

    /// The session after the operation: untouched where it is refused, and
    /// as the operation leaves it otherwise.
    pub open spec fn after(self, op: Operation) -> Session {
        if self.refusal(op) is Some {
            self
        } else {
            match op {
                Operation::Join { player, pot } => self.joined(player, pot),
                Operation::Start { authority } => self.started(),
                Operation::Deposit { pot } => self.with_pot(pot),
                Operation::Roll { player, pot, reading } => self.rolled_at(reading, pot),
                Operation::RequestRoll { player, pot } => self.roll_requested(player, pot),
                Operation::ResolveRoll { gateway, delivery } => self.roll_resolved(
                    self.die_of(op),
                ),
                Operation::Pass { caller } => self.passed(),
                Operation::Claim { claimant } => self.claimed(),
            }
        }
    }

    /// The session after a run of operations, one after the other.
    pub open spec fn after_all(self, ops: Seq<Operation>) -> Session
        decreases ops.len(),
    {
        if ops.len() == 0 {
            self
        } else {
            self.after_all(ops.drop_last()).after(ops.last())
        }
    }

    /// The operation is accepted and rolls a die.
    pub open spec fn moves_token(self, op: Operation) -> bool {
        self.refusal(op) is None && (op is Roll || op is ResolveRoll)
    }

    /// The operation is accepted and ends a turn without ending the game: a
    /// pass, or a roll that does not win.
    pub open spec fn completes_turn(self, op: Operation) -> bool {
        self.refusal(op) is None && (op is Pass || (self.moves_token(op) && !self.wins(
            self.mover_of(op),
            self.die_of(op),
        )))
    }
}

} // verus!
