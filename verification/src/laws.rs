//! What holds of every session, whatever is done to it.

use crate::board::{destination, die_of_byte, die_of_clock, overshoots};
use crate::error::ErrorCode;
use crate::game::{GameState, Session, MAX_PLAYERS};
use crate::identity::Identity;
use crate::operation::Operation;
use vstd::arithmetic::div_mod::{
    lemma_add_mod_noop_right, lemma_mod_add_multiples_vanish, lemma_mod_equivalence,
    lemma_mod_pos_bound, lemma_small_mod,
};
use vstd::prelude::*;

verus! {

impl Session {
    /// The session after `k` passes in a row, each asked for by the player
    /// whose turn it is.
    pub open spec fn after_passes(self, k: nat) -> Session
        decreases k,
    {
        if k == 0 {
            self
        } else {
            let before = self.after_passes((k - 1) as nat);
            before.after((Operation::Pass { caller: before.passer() }))
        }
    }

    /// The player whose turn it is.
    pub open spec fn passer(self) -> Identity {
        self.players[self.current_turn_index as int]
    }

    /// No token rests on a square that the table leaves from, and the table
    /// neither leaves from the first square nor sends a token where it would
    /// leave again.
    pub open spec fn tokens_at_rest(self) -> bool {
        &&& self.transports.chain_free()
        &&& !self.transports.leaves_from(0)
        &&& forall|k: int|
            0 <= k < self.players.len() ==> !self.transports.leaves_from(#[trigger] self.positions[k])
    }
}

/// Every die shows between one and six, whether it comes from the clock or
/// from a random byte.
pub proof fn law_die_in_range(unix_timestamp: i64, slot: u64, nonce: u64, byte: u8)
    ensures
        1 <= die_of_clock(unix_timestamp, slot, nonce) <= 6,
        1 <= die_of_byte(byte) <= 6,
{
}

/// Moving a token keeps a session that is being played well formed, and
/// leaves every other token where it was.
pub proof fn lemma_moved(s: Session, seat: int, roll: u8)
    requires
        s.well_formed(),
        s.state == GameState::Started,
        0 <= seat < s.players.len(),
    ensures
        s.moved(seat, roll).well_formed(),
        s.moved(seat, roll).players == s.players,
        s.moved(seat, roll).positions[seat] == destination(
            s.transports,
            s.positions[seat],
            roll,
            s.win_position,
        ),
        forall|k: int|
            0 <= k < MAX_PLAYERS && k != seat ==> s.moved(seat, roll).positions[k]
                == s.positions[k],
{
    let square = (s.positions[seat] + roll) as u8;
    s.transports.lemma_landing_cases(square);
}

/// Every operation keeps a well-formed session well formed.
pub proof fn law_invariant_step(s: Session, op: Operation)
    requires
        s.well_formed(),
    ensures
        s.after(op).well_formed(),
{
    if s.refusal(op) is None {
        match op {
            Operation::Roll { player, pot, reading } => {
                lemma_moved(s.with_pot(pot), s.current_turn_index as int, s.die_of(op));
            },
            Operation::ResolveRoll { gateway, delivery } => {
                s.players.index_of_first_ensures(s.pending_player->0);
                lemma_moved(s, s.mover_of(op), s.die_of(op));
            },
            _ => {},
        }
    }
}

/// At all times a session holds no more players than it seats, seats at most
/// eight, and holds no player twice: this holds of a well-formed session
/// after any run of operations.
pub proof fn law_seats_bounded_and_distinct(s: Session, ops: Seq<Operation>)
    requires
        s.well_formed(),
    ensures
        s.after_all(ops).well_formed(),
        s.after_all(ops).players.len() <= s.after_all(ops).max_players <= MAX_PLAYERS,
        s.after_all(ops).players.no_duplicates(),
    decreases ops.len(),
{
    if ops.len() > 0 {
        law_seats_bounded_and_distinct(s, ops.drop_last());
        law_invariant_step(s.after_all(ops.drop_last()), ops.last());
    }
}

/// A freshly created session is well formed, has no roll outstanding, and
/// has every token at rest.
pub proof fn law_new_session(
    s: Session,
    creator: Identity,
    game_id: [u8; 32],
    max_players: u8,
    entry_fee_lamports: u64,
    roll_fee_lamports: u64,
    bump: u8,
)
    requires
        max_players <= MAX_PLAYERS,
        s.is_new(creator, game_id, max_players, entry_fee_lamports, roll_fee_lamports, bump),
    ensures
        s.well_formed(),
        s.pending_in_order(),
        s.tokens_at_rest(),
        !s.transports.leaves_from(s.win_position),
{
    s.transports.lemma_standard_board();
}

/// A move touches one token only. A roll that is too high leaves it where it
/// was, and a roll that wins leaves it exactly on the winning square.
pub proof fn law_move_touches_one_token(s: Session, seat: int, roll: u8)
    requires
        s.well_formed(),
        0 <= seat < s.players.len(),
    ensures
        forall|k: int|
            0 <= k < MAX_PLAYERS && k != seat ==> s.moved(seat, roll).positions[k]
                == s.positions[k],
        overshoots(s.positions[seat], roll, s.win_position) ==> s.moved(seat, roll).positions[seat]
            == s.positions[seat],
        s.wins(seat, roll) ==> s.moved(seat, roll).positions[seat] == s.win_position,
{
}

/// A token never retreats, and advances by at least the roll where it moves
/// at all, unless it lands on a square from which the table sends it back.
pub proof fn law_token_never_retreats(s: Session, seat: int, roll: u8)
    requires
        s.well_formed(),
        0 <= seat < s.players.len(),
        !overshoots(s.positions[seat], roll, s.win_position) ==> s.transports.landing(
            (s.positions[seat] + roll) as u8,
        ) >= s.positions[seat] + roll,
    ensures
        s.moved(seat, roll).positions[seat] >= s.positions[seat],
        !overshoots(s.positions[seat], roll, s.win_position) ==> s.moved(
            seat,
            roll,
        ).positions[seat] >= s.positions[seat] + roll,
{
}

/// Landing exactly on the winning square finishes the game: the player has
/// won, the token rests on the winning square and is sent nowhere else, and
/// the turn stays. This holds where the table does not leave from the winning
/// square.
pub proof fn law_exact_landing_wins(s: Session, seat: int, roll: u8)
    requires
        s.well_formed(),
        0 <= seat < s.players.len(),
        s.positions[seat] + roll == s.win_position,
        !s.transports.leaves_from(s.win_position),
    ensures
        s.wins(seat, roll),
        s.moved(seat, roll).state == GameState::Finished,
        s.moved(seat, roll).finished,
        s.moved(seat, roll).winner == Some(s.players[seat]),
        s.moved(seat, roll).positions[seat] == s.win_position,
        s.moved(seat, roll).current_turn_index == s.current_turn_index,
{
    s.transports.lemma_landing_cases(s.win_position);
}

/// A token that lands on a square which entry `i` is the first to leave from
/// rests on that entry's target when the turn completes.
pub proof fn law_transport_applies(s: Session, seat: int, roll: u8, i: int)
    requires
        s.well_formed(),
        0 <= seat < s.players.len(),
        !overshoots(s.positions[seat], roll, s.win_position),
        s.transports.is_first_hit(i, (s.positions[seat] + roll) as u8),
    ensures
        s.moved(seat, roll).positions[seat] == s.transports.to[i],
{
    let square = (s.positions[seat] + roll) as u8;
    let k: int = choose|k: int| s.transports.is_first_hit(k, square);
    s.transports.lemma_first_hit_unique(i, k, square);
}

/// On a board whose table sends no token where it would leave again, a token
/// that was at rest is at rest after its move: never on a square that the
/// table leaves from.
pub proof fn lemma_moved_at_rest(s: Session, seat: int, roll: u8)
    requires
        s.well_formed(),
        s.tokens_at_rest(),
        0 <= seat < s.players.len(),
    ensures
        s.moved(seat, roll).tokens_at_rest(),
{
    let t = s.moved(seat, roll);
    let square = (s.positions[seat] + roll) as u8;
    s.transports.lemma_landing_cases(square);
    assert forall|k: int| 0 <= k < t.players.len() implies !t.transports.leaves_from(
        #[trigger] t.positions[k],
    ) by {
        if k != seat {
            assert(t.positions[k] == s.positions[k]);
        } else if overshoots(s.positions[seat], roll, s.win_position) {
            assert(t.positions[k] == s.positions[k]);
        } else if s.transports.leaves_from(square) {
            let i: int = choose|i: int|
                s.transports.is_first_hit(i, square) && s.transports.landing(square)
                    == s.transports.to[i];
            assert(t.positions[k] == s.transports.to[i]);
        } else {
            assert(t.positions[k] == square);
        }
    }
}

/// No token stays on a square that the table leaves from: where every token
/// is at rest, every token is at rest after any operation.
pub proof fn law_tokens_stay_at_rest(s: Session, op: Operation)
    requires
        s.well_formed(),
        s.tokens_at_rest(),
    ensures
        s.after(op).tokens_at_rest(),
{
    let t = s.after(op);
    if s.refusal(op) is None {
        match op {
            Operation::Join { player, pot } => {
                assert forall|k: int| 0 <= k < t.players.len() implies !t.transports.leaves_from(
                    #[trigger] t.positions[k],
                ) by {
                    if k < s.players.len() {
                        assert(t.positions[k] == s.positions[k]);
                    }
                }
            },
            Operation::Roll { player, pot, reading } => {
                lemma_moved_at_rest(s.with_pot(pot), s.current_turn_index as int, s.die_of(op));
            },
            Operation::ResolveRoll { gateway, delivery } => {
                s.players.index_of_first_ensures(s.pending_player->0);
                lemma_moved_at_rest(s, s.mover_of(op), s.die_of(op));
            },
            _ => {},
        }
    }
}

/// The turn moves in one way only: to the next seat, and only when a turn
/// completes. A pass and a roll that does not win, a roll that is too high
/// among them, pass the turn on; everything else leaves it where it is.
pub proof fn law_turn_order(s: Session, op: Operation)
    requires
        s.well_formed(),
    ensures
        s.completes_turn(op) ==> s.after(op).current_turn_index == s.next_turn(),
        !s.completes_turn(op) ==> s.after(op).current_turn_index == s.current_turn_index,
        s.completes_turn(op) ==> s.players.len() > 0 && s.next_turn() == (s.current_turn_index
            + 1) % (s.players.len() as int),
{
    if s.refusal(op) is None {
        match op {
            Operation::ResolveRoll { gateway, delivery } => {
                s.players.index_of_first_ensures(s.pending_player->0);
            },
            _ => {},
        }
    }
}

/// The pool can be claimed once: after a claim that was accepted, every
/// further claim is refused, the winner's own with `InvalidWinner`.
pub proof fn law_claim_once(s: Session, claimant: Identity, again: Identity)
    requires
        s.well_formed(),
        s.claim_refusal(claimant) is None,
    ensures
        s.claimed().claim_refusal(claimant) == Some(ErrorCode::InvalidWinner),
        s.claimed().claim_refusal(again) is Some,
        s.claimed().total_pot == 0,
{
}

/// The turn counter never goes back: an operation leaves it as it was or
/// counts one more turn. A roll made at once, a request for a roll and a pass
/// count one, and nothing else does.
pub proof fn law_nonce_never_decreases(s: Session, op: Operation)
    requires
        s.well_formed(),
    ensures
        s.after(op).turn_nonce >= s.turn_nonce,
        s.after(op).turn_nonce == if s.refusal(op) is None && (op is Roll || op is RequestRoll
            || op is Pass) {
            s.turn_nonce + 1
        } else {
            s.turn_nonce as int
        },
{
    if s.refusal(op) is None {
        match op {
            Operation::ResolveRoll { gateway, delivery } => {
                s.players.index_of_first_ensures(s.pending_player->0);
            },
            _ => {},
        }
    }
}

/// At most one roll is outstanding, and only for the player whose turn it is
/// in a started session: this holds after every operation if it held before.
pub proof fn law_pending_in_order(s: Session, op: Operation)
    requires
        s.well_formed(),
        s.pending_in_order(),
    ensures
        s.after(op).pending_in_order(),
{
    if s.refusal(op) is None {
        match op {
            Operation::Join { player, pot } => {
                if s.pending_player is Some {
                    assert(s.state == GameState::Started);
                }
            },
            Operation::Roll { player, pot, reading } => {
                lemma_moved(s.with_pot(pot), s.current_turn_index as int, s.die_of(op));
            },
            _ => {},
        }
    }
}

/// Passes in a row go round the table in seat order. After `k` of them, each
/// asked for by the player whose turn it was, the turn is `k` seats further
/// on, counted from the seat it started at and going round; the turn counter
/// has counted `k` turns; no roll is outstanding; and nothing else has
/// changed. Every one of the passes was accepted.
pub proof fn law_passes_go_round(s: Session, k: nat)
    requires
        s.well_formed(),
        s.state == GameState::Started,
        s.turn_nonce + k <= u64::MAX,
    ensures
        s.after_passes(k).well_formed(),
        s.after_passes(k).current_turn_index == (s.current_turn_index + k) % (
        s.players.len() as int),
        s.after_passes(k).turn_nonce == s.turn_nonce + k,
        s.after_passes(k) == (Session {
            current_turn_index: s.after_passes(k).current_turn_index,
            turn_nonce: s.after_passes(k).turn_nonce,
            pending_player: if k == 0 {
                s.pending_player
            } else {
                None
            },
            ..s
        }),
        s.after_passes(k).passer() == s.players[(s.current_turn_index + k) % (
        s.players.len() as int)],
        k > 0 ==> s.after_passes((k - 1) as nat).pass_refusal(
            s.after_passes((k - 1) as nat).passer(),
        ) is None,
    decreases k,
{
    let n = s.players.len() as int;
    let start = s.current_turn_index as int;
    if k == 0 {
        lemma_small_mod(start as nat, n as nat);
    } else {
        let j = (k - 1) as nat;
        law_passes_go_round(s, j);
        let before = s.after_passes(j);
        lemma_mod_pos_bound(start + j, n);
        lemma_mod_pos_bound(start + k, n);
        assert(before.pass_refusal(before.passer()) is None);
        assert((1 + (start + j) % n) % n == (start + k) % n) by {
            lemma_add_mod_noop_right(1, start + j, n);
        }
        assert(s.after_passes(k) == before.passed());
    }
}

/// A full round of passes brings the turn back to where it was: with `n`
/// players, after `n` passes in a row, each asked for by the player whose
/// turn it was, the turn is at the seat it started at and the turn counter
/// has counted `n` turns.
pub proof fn law_full_round_of_passes(s: Session)
    requires
        s.well_formed(),
        s.state == GameState::Started,
        s.turn_nonce + s.players.len() <= u64::MAX,
    ensures
        s.after_passes(s.players.len()).current_turn_index == s.current_turn_index,
        s.after_passes(s.players.len()).turn_nonce == s.turn_nonce + s.players.len(),
        s.after_passes(s.players.len()).players == s.players,
        s.after_passes(s.players.len()).positions == s.positions,
{
    let n = s.players.len() as int;
    let start = s.current_turn_index as int;
    law_passes_go_round(s, s.players.len());
    lemma_mod_add_multiples_vanish(start, n);
    lemma_small_mod(start as nat, n as nat);
}

/// In a round of passes every player passes: the player at `seat` is the one
/// who asks for the pass that comes after `(seat - start) mod n` others, where
/// `start` is the seat the round began at and `n` the number of players.
pub proof fn law_every_player_passes_in_a_round(s: Session, seat: int)
    requires
        s.well_formed(),
        s.state == GameState::Started,
        s.turn_nonce + s.players.len() <= u64::MAX,
        0 <= seat < s.players.len(),
    ensures
        0 <= (seat - s.current_turn_index) % (s.players.len() as int) < s.players.len(),
        s.after_passes(
            ((seat - s.current_turn_index) % (s.players.len() as int)) as nat,
        ).passer() == s.players[seat],
{
    let n = s.players.len() as int;
    let start = s.current_turn_index as int;
    let k = (seat - start) % n;
    lemma_mod_add_multiples_vanish(seat - start, n);
    lemma_mod_pos_bound(n + seat - start, n);
    law_passes_go_round(s, k as nat);
    lemma_add_mod_noop_right(start, seat - start, n);
    lemma_small_mod(seat as nat, n as nat);
}

/// In a round of passes nobody passes twice: two different passes among the
/// first `n` are asked for by different players.
pub proof fn law_nobody_passes_twice_in_a_round(s: Session, k1: nat, k2: nat)
    requires
        s.well_formed(),
        s.state == GameState::Started,
        s.turn_nonce + s.players.len() <= u64::MAX,
        k1 < k2 < s.players.len(),
    ensures
        s.after_passes(k1).passer() != s.after_passes(k2).passer(),
{
    let n = s.players.len() as int;
    let start = s.current_turn_index as int;
    law_passes_go_round(s, k1);
    law_passes_go_round(s, k2);
    let a = (start + k1) % n;
    let b = (start + k2) % n;
    lemma_mod_pos_bound(start + k1, n);
    lemma_mod_pos_bound(start + k2, n);
    if a == b {
        lemma_mod_equivalence(start + k2, start + k1, n);
        lemma_small_mod((k2 - k1) as nat, n as nat);
    }
}

} // verus!
