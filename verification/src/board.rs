//! The board: its transport table of shortcuts and setbacks, and where a
//! token comes to rest after a roll.

use vstd::prelude::*;

verus! {

/// The square a token has to reach exactly to win, unless a session says otherwise.
pub const DEFAULT_WIN_POSITION: u8 = 100;

/// The most entries a transport table can hold.
pub const MAX_MAP_SIZE: usize = 20;

/// A fixed lookup of board shortcuts and setbacks.
///
/// Entry `i` sends a token that lands on `from[i]` on to `to[i]`. Only the
/// first `len` entries count. Where two entries share a `from` square, the
/// earlier one decides.
#[derive(Clone, Copy, Debug, PartialEq, Eq)]
pub struct TransportTable {
    pub from: [u8; MAX_MAP_SIZE],
    pub to: [u8; MAX_MAP_SIZE],
    pub len: u8,
}

/// The entries of the standard board, in table order.
pub open spec fn standard_entries() -> Seq<(u8, u8)> {
    seq![
        (1u8, 38u8),
        (4u8, 14u8),
        (8u8, 30u8),
        (21u8, 42u8),
        (28u8, 76u8),
        (32u8, 10u8),
        (36u8, 6u8),
        (48u8, 26u8),
        (50u8, 67u8),
        (62u8, 18u8),
        (71u8, 92u8),
        (80u8, 99u8),
        (88u8, 24u8),
        (95u8, 56u8),
        (97u8, 78u8),
    ]
}

impl TransportTable {
    /// The table holds no more entries than it has room for.
    pub open spec fn well_formed(self) -> bool {
        self.len <= MAX_MAP_SIZE
    }

    /// The entries that count, as `(from, to)` pairs in table order.
    pub open spec fn entries(self) -> Seq<(u8, u8)> {
        Seq::new(self.len as nat, |i: int| (self.from[i], self.to[i]))
    }

    /// Entry `i` is the earliest one that leaves from `square`.
    pub open spec fn is_first_hit(self, i: int, square: u8) -> bool {
        &&& 0 <= i < self.len
        &&& self.from[i] == square
        &&& forall|j: int| 0 <= j < i ==> self.from[j] != square
    }

    /// Some entry leaves from `square`.
    pub open spec fn leaves_from(self, square: u8) -> bool {
        exists|i: int| 0 <= i < self.len && self.from[i] == square
    }

    /// Where a token that lands on `square` comes to rest: the `to` of the
    /// earliest entry that leaves from `square`, or `square` itself where no
    /// entry does.
    pub open spec fn landing(self, square: u8) -> u8 {
        if exists|i: int| self.is_first_hit(i, square) {
            self.to[choose|i: int| self.is_first_hit(i, square)]
        } else {
            square
        }
    }

    /// No entry sends a token past `limit`.
    pub open spec fn stays_within(self, limit: u8) -> bool {
        forall|i: int| 0 <= i < self.len ==> self.to[i] <= limit
    }

    /// No entry sends a token onto a square that another entry (or itself)
    /// leaves from.
    pub open spec fn chain_free(self) -> bool {
        forall|i: int, j: int|
            0 <= i < self.len && 0 <= j < self.len ==> self.to[i] != self.from[j]
    }

    /// At most one entry leaves from each square.
    pub open spec fn distinct_sources(self) -> bool {
        forall|i: int, j: int|
            0 <= i < j < self.len ==> self.from[i] != self.from[j]
    }

    /// The earliest entry that leaves from a square is the only first hit.
    pub proof fn lemma_first_hit_unique(self, i: int, k: int, square: u8)
        requires
            self.is_first_hit(i, square),
            self.is_first_hit(k, square),
        ensures
            i == k,
    {
        if i < k {
            assert(self.from[i] != square);
        } else if k < i {
            assert(self.from[k] != square);
        }
    }

    /// A square that some entry leaves from has an earliest such entry.
    pub proof fn lemma_first_hit_exists(self, n: int, square: u8)
        requires
            0 <= n < self.len,
            self.from[n] == square,
        ensures
            exists|i: int| self.is_first_hit(i, square),
        decreases n,
    {
        if forall|j: int| 0 <= j < n ==> self.from[j] != square {
            assert(self.is_first_hit(n, square));
        } else {
            let j: int = choose|j: int| 0 <= j < n && self.from[j] == square;
            self.lemma_first_hit_exists(j, square);
        }
    }

    /// A token rests on the square it landed on exactly where no entry leaves
    /// from it; otherwise it rests on the `to` of one of the entries.
    pub proof fn lemma_landing_cases(self, square: u8)
        ensures
            !self.leaves_from(square) ==> self.landing(square) == square,
            self.leaves_from(square) ==> exists|i: int|
                self.is_first_hit(i, square) && self.landing(square) == self.to[i],
    {
        if self.leaves_from(square) {
            let n: int = choose|i: int| 0 <= i < self.len && self.from[i] == square;
            self.lemma_first_hit_exists(n, square);
            let i: int = choose|i: int| self.is_first_hit(i, square);
            assert(self.is_first_hit(i, square) && self.landing(square) == self.to[i]);
        } else {
            assert(forall|i: int| !self.is_first_hit(i, square));
        }
    }

    /// The standard board has fifteen entries, each leaving from a square of
    /// its own before the last one and arriving before it, none arriving
    /// where another leaves, and none leaving from the first square.
    pub proof fn lemma_standard_board(self)
        requires
            self.entries() == standard_entries(),
        ensures
            self.len == 15,
            self.well_formed(),
            self.chain_free(),
            self.distinct_sources(),
            self.stays_within(99),
            !self.leaves_from(0),
            forall|square: u8| square >= 98 ==> !self.leaves_from(square),
    {
        assert(self.entries().len() == 15);
        assert forall|i: int| 0 <= i < 15 implies (self.from[i], self.to[i])
            == #[trigger] standard_entries()[i] by {
            assert(self.entries()[i] == standard_entries()[i]);
        }
        assert(standard_entries()[0] == (1u8, 38u8));
        assert(standard_entries()[1] == (4u8, 14u8));
        assert(standard_entries()[2] == (8u8, 30u8));
        assert(standard_entries()[3] == (21u8, 42u8));
        assert(standard_entries()[4] == (28u8, 76u8));
        assert(standard_entries()[5] == (32u8, 10u8));
        assert(standard_entries()[6] == (36u8, 6u8));
        assert(standard_entries()[7] == (48u8, 26u8));
        assert(standard_entries()[8] == (50u8, 67u8));
        assert(standard_entries()[9] == (62u8, 18u8));
        assert(standard_entries()[10] == (71u8, 92u8));
        assert(standard_entries()[11] == (80u8, 99u8));
        assert(standard_entries()[12] == (88u8, 24u8));
        assert(standard_entries()[13] == (95u8, 56u8));
        assert(standard_entries()[14] == (97u8, 78u8));
    }

    /// Looks up where a token that lands on `square` comes to rest.
    pub fn lookup(&self, square: u8) -> (rest: u8)
        requires
            self.well_formed(),
        ensures
            rest == self.landing(square),
    {
        let mut i: usize = 0;
        while i < self.len as usize
            invariant
                i <= self.len <= MAX_MAP_SIZE,
                forall|j: int| 0 <= j < i ==> self.from[j] != square,
            decreases self.len - i,
        {
            if self.from[i] == square {
                proof {
                    assert(self.is_first_hit(i as int, square));
                    let k: int = choose|k: int| self.is_first_hit(k, square);
                    self.lemma_first_hit_unique(i as int, k, square);
                }
                return self.to[i];
            }
            i += 1;
        }
        assert(forall|k: int| !self.is_first_hit(k, square));
        square
    }

    /// The table of the standard board: fifteen shortcuts and setbacks.
    pub fn standard() -> (table: TransportTable)
        ensures
            table.well_formed(),
            table.entries() == standard_entries(),
            forall|i: int| 15 <= i < MAX_MAP_SIZE ==> table.from[i] == 0 && table.to[i] == 0,
    {
        let table = TransportTable {
            from: [1, 4, 8, 21, 28, 32, 36, 48, 50, 62, 71, 80, 88, 95, 97, 0, 0, 0, 0, 0],
            to: [38, 14, 30, 42, 76, 10, 6, 26, 67, 18, 92, 99, 24, 56, 78, 0, 0, 0, 0, 0],
            len: 15,
        };
        assert(table.entries() =~= standard_entries());
        table
    }
}

/// Where a token on `position` comes to rest after a roll: it stays put
/// where the roll would carry it past the winning square, and otherwise rests
/// where the table sends the square it lands on.
pub open spec fn destination(table: TransportTable, position: u8, roll: u8, win_position: u8) -> u8 {
    if position + roll > win_position {
        position
    } else {
        table.landing((position + roll) as u8)
    }
}

/// The roll would carry the token past the winning square.
pub open spec fn overshoots(position: u8, roll: u8, win_position: u8) -> bool {
    position + roll > win_position
}

/// The roll brings the token to rest exactly on the winning square.
pub open spec fn reaches_goal(table: TransportTable, position: u8, roll: u8, win_position: u8) -> bool {
    !overshoots(position, roll, win_position) && table.landing((position + roll) as u8)
        == win_position
}

/// Moves a token: computes where it rests after a roll, and whether that
/// wins the game.
pub fn resolve_move(
    table: &TransportTable,
    position: u8,
    roll: u8,
    win_position: u8,
) -> (r: (u8, bool))
    requires
        table.well_formed(),
    ensures
        r.0 == destination(*table, position, roll, win_position),
        r.1 == reaches_goal(*table, position, roll, win_position),
{
    let candidate: u16 = position as u16 + roll as u16;
    if candidate > win_position as u16 {
        (position, false)
    } else {
        let rest: u8 = table.lookup(candidate as u8);
        (rest, rest == win_position)
    }
}

/// The die shown for one byte of randomness.
pub open spec fn die_of_byte(b: u8) -> int {
    b % 6 + 1
}

/// Turns one random byte into a die roll between one and six.
pub fn dice_from_byte(b: u8) -> (roll: u8)
    ensures
        roll == die_of_byte(b),
        1 <= roll <= 6,
{
    b % 6 + 1
}

/// The seed of a clock-driven roll: timestamp, slot and nonce summed and
/// reduced to the range of a signed 64-bit integer, wrapping around.
pub open spec fn clock_seed(unix_timestamp: i64, slot: u64, nonce: u64) -> int {
    (unix_timestamp + slot + nonce + 0x8000_0000_0000_0000) % 0x1_0000_0000_0000_0000
        - 0x8000_0000_0000_0000
}

/// The die shown for a clock-driven roll: the magnitude of the seed's
/// remainder by six, plus one.
pub open spec fn die_of_clock(unix_timestamp: i64, slot: u64, nonce: u64) -> int {
    let seed = clock_seed(unix_timestamp, slot, nonce);
    (if seed < 0 { -seed } else { seed }) % 6 + 1
}

/// Derives a die roll between one and six from the clock and the turn nonce.
///
/// The roll is predictable to anyone who knows the clock: it varies the
/// outcome, it does not protect it.
pub fn dice_from_clock(unix_timestamp: i64, slot: u64, nonce: u64) -> (roll: u8)
    ensures
        roll == die_of_clock(unix_timestamp, slot, nonce),
        1 <= roll <= 6,
{
    let total: i128 = unix_timestamp as i128 + slot as i128 + nonce as i128;
    let shifted: u128 = (total + 0x8000_0000_0000_0000) as u128;
    let seed: i128 = (shifted % 0x1_0000_0000_0000_0000) as i128 - 0x8000_0000_0000_0000;
    let magnitude: u128 = if seed < 0 {
        (-seed) as u128
    } else {
        seed as u128
    };
    (magnitude % 6) as u8 + 1
}

} // verus!
