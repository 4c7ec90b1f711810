//! The pool against the custodian's books.
//!
//! The custodian that holds a session's funds is outside this library; the
//! session only records, in `total_pot`, what it was told the custodian
//! holds. This module models the custodian's books beside the session and
//! shows that the record follows them.

use crate::clock::ClockReading;
use crate::game::Session;
use crate::identity::Identity;
use crate::operation::Operation;
use crate::turn::RandomnessDelivery;
use vstd::prelude::*;

verus! {

/// The custodian's books for one session: everything paid into its pool and
/// everything paid out of it.
pub struct Books {
    pub deposits: nat,
    pub payouts: nat,
}

impl Books {
    /// What the custodian holds for the session.
    pub open spec fn balance(self) -> int {
        self.deposits - self.payouts
    }
}

/// What a party asks for, before any funds have moved.
pub enum Command {
    /// `player` joins and pays the entry fee.
    Join { player: Identity },
    /// `authority` starts the session.
    Start { authority: Identity },
    /// Somebody tops the pool up by `amount`.
    Deposit { amount: u64 },
    /// `player` pays the roll fee and rolls at once from the clock.
    Roll { player: Identity, reading: ClockReading },
    /// `player` pays the roll fee and asks for a roll.
    RequestRoll { player: Identity },
    /// Randomness arrives for the roll that was asked for.
    ResolveRoll { gateway: Identity, delivery: RandomnessDelivery },
    /// `caller` passes.
    Pass { caller: Identity },
    /// `claimant` collects the pool.
    Claim { claimant: Identity },
}

/// A session together with the custodian's books for it.
pub struct Escrow {
    pub session: Session,
    pub books: Books,
}

impl Escrow {
    /// What the command pays into the pool before the session hears of it.
    pub open spec fn payment(self, command: Command) -> nat {
        match command {
            Command::Join { player } => self.session.entry_fee_lamports as nat,
            Command::Deposit { amount } => amount as nat,
            Command::Roll { player, reading } => self.session.roll_fee_lamports as nat,
            Command::RequestRoll { player } => self.session.roll_fee_lamports as nat,
            _ => 0,
        }
    }

    /// The command is one of those that pay into the pool and have the
    /// session read it again.
    pub open spec fn pays_in(command: Command) -> bool {
        command is Join || command is Deposit || command is Roll || command is RequestRoll
    }

    /// The operation that the session is handed: the command, with the pool
    /// as the books show it after the payment.
    pub open spec fn operation(self, command: Command) -> Operation {
        let pot = (self.books.balance() + self.payment(command)) as u64;
        match command {
            Command::Join { player } => Operation::Join { player, pot },
            Command::Start { authority } => Operation::Start { authority },
            Command::Deposit { amount } => Operation::Deposit { pot },
            Command::Roll { player, reading } => Operation::Roll { player, pot, reading },
            Command::RequestRoll { player } => Operation::RequestRoll { player, pot },
            Command::ResolveRoll { gateway, delivery } => Operation::ResolveRoll {
                gateway,
                delivery,
            },
            Command::Pass { caller } => Operation::Pass { caller },
            Command::Claim { claimant } => Operation::Claim { claimant },
        }
    }

    /// The command goes through: the custodian can make the movement, and the
    /// session accepts the operation. Otherwise nothing happens at all.
    pub open spec fn carried_out(self, command: Command) -> bool {
        &&& 0 <= self.books.balance() + self.payment(command) <= u64::MAX
        &&& command is Claim ==> self.session.total_pot <= self.books.balance()
        &&& self.session.refusal(self.operation(command)) is None
    }

    /// Session and books after the command.
    pub open spec fn after(self, command: Command) -> Escrow {
        if self.carried_out(command) {
            Escrow {
                session: self.session.after(self.operation(command)),
                books: Books {
                    deposits: self.books.deposits + self.payment(command),
                    payouts: self.books.payouts + if command is Claim {
                        self.session.total_pot as nat
                    } else {
                        0
                    },
                },
            }
        } else {
            self
        }
    }

    /// The session records exactly what the custodian holds.
    pub open spec fn in_balance(self) -> bool {
        self.session.total_pot == self.books.balance()
    }
}

/// After every operation that pays into the pool, the recorded pool is what
/// was paid in less what was paid out, whatever it was before.
pub proof fn law_payment_settles_pot(e: Escrow, command: Command)
    requires
        e.session.well_formed(),
        e.carried_out(command),
        Escrow::pays_in(command),
    ensures
        e.after(command).in_balance(),
        e.after(command).books.balance() == e.books.balance() + e.payment(command),
{
    law_pot_is_what_was_handed(e.session, e.operation(command));
}

/// A payout is the whole recorded pool and leaves the record empty.
pub proof fn law_payout_is_whole_pot(e: Escrow, command: Command)
    requires
        e.session.well_formed(),
        command is Claim,
        e.carried_out(command),
    ensures
        e.after(command).books.payouts == e.books.payouts + e.session.total_pot,
        e.after(command).books.deposits == e.books.deposits,
        e.after(command).session.total_pot == 0,
{
}

/// Once the recorded pool agrees with the books, it agrees with them after
/// every operation, the payout included.
pub proof fn law_pot_follows_books(e: Escrow, command: Command)
    requires
        e.session.well_formed(),
        e.in_balance(),
    ensures
        e.after(command).in_balance(),
{
    if e.carried_out(command) {
        law_pot_is_what_was_handed(e.session, e.operation(command));
    }
}

/// An operation records the pool it is handed, a claim empties the record,
/// and nothing else touches it.
pub proof fn law_pot_is_what_was_handed(s: Session, op: Operation)
    requires
        s.well_formed(),
    ensures
        s.after(op).total_pot == if s.refusal(op) is Some {
            s.total_pot
        } else {
            match op {
                Operation::Join { player, pot } => pot,
                Operation::Deposit { pot } => pot,
                Operation::Roll { player, pot, reading } => pot,
                Operation::RequestRoll { player, pot } => pot,
                Operation::Claim { claimant } => 0,
                _ => s.total_pot,
            }
        },
{
}

} // verus!
