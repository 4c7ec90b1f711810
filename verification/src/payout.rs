//! Paying the pool out to the winner.

use crate::error::ErrorCode;
use crate::game::{Game, GameState, Session};
use crate::identity::Identity;
use crate::operation::Operation;
use vstd::prelude::*;

verus! {

impl Session {
    /// Why `claimant` cannot collect the pool, if anything stands in the way:
    /// the session is not finished, `claimant` is not its winner, or the pool
    /// is empty.
    pub open spec fn claim_refusal(self, claimant: Identity) -> Option<ErrorCode> {
        if self.state != GameState::Finished {
            Some(ErrorCode::GameNotFinished)
        } else if self.winner != Some(claimant) {
            Some(ErrorCode::Unauthorized)
        } else if self.total_pot == 0 {
            Some(ErrorCode::InvalidWinner)
        } else {
            None
        }
    }

    /// The session after the pool was paid out.
    pub open spec fn claimed(self) -> Session {
        Session { total_pot: 0, ..self }
    }
}

/// Settles the pool: tells how much the custodian has to pay `claimant`, and
/// empties the pool in the record.
///
/// The amount is the whole pool. Only the winner of a finished session can
/// claim, and only while the pool holds something: a second claim is refused
/// with `InvalidWinner`.
pub fn claim_prize(game: &mut Game, claimant: Identity) -> (r: Result<u64, ErrorCode>)
    requires
        old(game)@.well_formed(),
    ensures
        match old(game)@.claim_refusal(claimant) {
            Some(e) => r == Err::<u64, ErrorCode>(e) && final(game)@ == old(game)@,
            None => r == Ok::<u64, ErrorCode>(old(game).total_pot)
                && final(game)@ == old(game)@.claimed(),
        },
        final(game)@ == old(game)@.after((Operation::Claim { claimant })),
        final(game)@.well_formed(),
        old(game)@.pending_in_order() ==> final(game)@.pending_in_order(),
{
    if game.state != GameState::Finished {
        return Err(ErrorCode::GameNotFinished);
    }
    let is_winner = match &game.winner {
        Some(w) => w.same(&claimant),
        None => false,
    };
    if !is_winner {
        return Err(ErrorCode::Unauthorized);
    }
    if game.total_pot == 0 {
        return Err(ErrorCode::InvalidWinner);
    }
    let amount: u64 = game.total_pot;
    game.total_pot = 0;
    Ok(amount)
}

} // verus!
