use ladders_engine::board::{dice_from_clock, TransportTable, MAX_MAP_SIZE};
use ladders_engine::clock::ClockReading;
use ladders_engine::error::ErrorCode;
use ladders_engine::game::{Game, GameState};
use ladders_engine::identity::Identity;
use ladders_engine::lifecycle::{create_game, join_game, start_game};
use ladders_engine::turn::{
    pass_turn, request_roll, request_roll_async, resolve_roll, resolve_roll_sync, roll_fee_due,
    RandomnessDelivery, RandomnessRequest, RollError,
};

const CREATOR: u8 = 200;
const GATEWAY: u8 = 250;

fn id(n: u8) -> Identity {
    Identity::new([n; 32])
}

fn started(players: u8) -> Game {
    let mut game = create_game(id(CREATOR), [9u8; 32], players, 0, 0, 254).unwrap();
    for n in 1..=players {
        join_game(&mut game, id(n), 0).unwrap();
    }
    start_game(&mut game, id(CREATOR)).unwrap();
    game
}

fn no_transports() -> TransportTable {
    TransportTable { from: [0u8; MAX_MAP_SIZE], to: [0u8; MAX_MAP_SIZE], len: 0 }
}

/// A delivery from the gateway whose first byte yields the die `roll`.
fn delivery(roll: u8) -> RandomnessDelivery {
    let mut random_value = [0xAAu8; 32];
    random_value[0] = roll - 1;
    RandomnessDelivery { sender: id(GATEWAY), random_value }
}

/// A clock reading that yields the die `roll` at turn counter `nonce`.
fn reading_for(roll: u8, nonce: u64) -> ClockReading {
    for slot in 0..6u64 {
        if dice_from_clock(1_700_000_000, slot, nonce) == roll {
            return ClockReading { unix_timestamp: 1_700_000_000, slot };
        }
    }
    unreachable!()
}

/// Plays one two-phase roll of `roll` for `player`.
fn roll_two_phase(game: &mut Game, player: Identity, roll: u8) -> Result<(), ErrorCode> {
    request_roll_async(game, player, 0, game.total_pot)?;
    resolve_roll(game, id(GATEWAY), &delivery(roll))
}

#[test]
fn scenario_first_roll_of_four_without_transport() {
    let mut game = create_game(id(CREATOR), [9u8; 32], 2, 0, 0, 254).unwrap();
    game.transports = no_transports();
    join_game(&mut game, id(1), 0).unwrap();
    join_game(&mut game, id(2), 0).unwrap();
    start_game(&mut game, id(CREATOR)).unwrap();
    assert_eq!(game.positions[0], 0);
    assert_eq!(resolve_roll_sync(&mut game, id(1), 0, reading_for(4, 0)), Ok(()));
    assert_eq!(game.positions[0], 4);
    assert_eq!(game.positions[1], 0);
    assert_eq!(game.current_turn_index, 1);
    assert_eq!(game.players[usize::from(game.current_turn_index)], id(2));
    assert_eq!(game.state, GameState::Started);
    assert_eq!(game.turn_nonce, 1);
}

#[test]
fn scenario_first_roll_of_three_on_the_standard_board() {
    let mut game = started(2);
    assert_eq!(resolve_roll_sync(&mut game, id(1), 0, reading_for(3, 0)), Ok(()));
    assert_eq!(game.positions[0], 3);
    assert_eq!(game.current_turn_index, 1);
}

#[test]
fn scenario_first_roll_of_four_on_the_standard_board_climbs() {
    let mut game = started(2);
    assert_eq!(resolve_roll_sync(&mut game, id(1), 0, reading_for(4, 0)), Ok(()));
    assert_eq!(game.positions[0], 14);
    assert_eq!(game.current_turn_index, 1);
}

#[test]
fn scenario_overshoot_keeps_position_and_passes_the_turn() {
    let mut game = started(2);
    game.positions[0] = 97;
    let mut expected = game.clone();
    assert_eq!(resolve_roll_sync(&mut game, id(1), 0, reading_for(4, 0)), Ok(()));
    expected.current_turn_index = 1;
    expected.turn_nonce = 1;
    assert_eq!(game, expected);
    assert_eq!(game.positions[0], 97);
}

#[test]
fn scenario_overshoot_in_two_phases_passes_the_turn() {
    let mut game = started(2);
    game.positions[0] = 97;
    assert_eq!(roll_two_phase(&mut game, id(1), 4), Ok(()));
    assert_eq!(game.positions[0], 97);
    assert_eq!(game.current_turn_index, 1);
    assert_eq!(game.pending_player, None);
    assert_eq!(game.state, GameState::Started);
}

#[test]
fn scenario_setback_from_ninety_seven() {
    let mut game = started(2);
    game.positions[0] = 95;
    assert_eq!(resolve_roll_sync(&mut game, id(1), 0, reading_for(2, 0)), Ok(()));
    assert_eq!(game.positions[0], 78);
    assert_eq!(game.current_turn_index, 1);
    assert!(!game.finished);
}

#[test]
fn scenario_exact_landing_finishes_the_game() {
    let mut game = started(2);
    game.positions[0] = 98;
    assert_eq!(resolve_roll_sync(&mut game, id(1), 640, reading_for(2, 0)), Ok(()));
    assert_eq!(game.positions[0], 100);
    assert!(game.finished);
    assert_eq!(game.state, GameState::Finished);
    assert_eq!(game.winner, Some(id(1)));
    assert_eq!(game.current_turn_index, 0);
    assert_eq!(game.turn_nonce, 1);
    assert_eq!(game.total_pot, 640);
    assert!(game.is_well_formed());
}

#[test]
fn exact_landing_in_two_phases_finishes_the_game() {
    let mut game = started(3);
    pass_turn(&mut game, id(1)).unwrap();
    game.positions[1] = 94;
    assert_eq!(roll_two_phase(&mut game, id(2), 6), Ok(()));
    assert_eq!(game.positions[1], 100);
    assert_eq!(game.state, GameState::Finished);
    assert!(game.finished);
    assert_eq!(game.winner, Some(id(2)));
    assert_eq!(game.current_turn_index, 1);
    assert_eq!(game.pending_player, None);
}

#[test]
fn nothing_can_be_played_after_the_game_is_finished() {
    let mut game = started(2);
    game.positions[0] = 98;
    resolve_roll_sync(&mut game, id(1), 0, reading_for(2, 0)).unwrap();
    let before = game.clone();
    let reading = ClockReading { unix_timestamp: 0, slot: 0 };
    assert_eq!(
        resolve_roll_sync(&mut game, id(1), 5, reading),
        Err(ErrorCode::GameNotStarted)
    );
    assert_eq!(request_roll_async(&mut game, id(1), 0, 5), Err(ErrorCode::GameNotStarted));
    assert_eq!(
        resolve_roll(&mut game, id(GATEWAY), &delivery(1)),
        Err(ErrorCode::GameNotStarted)
    );
    assert_eq!(pass_turn(&mut game, id(1)), Err(ErrorCode::GameNotStarted));
    assert_eq!(game, before);
}

#[test]
fn sync_roll_records_pool_and_counts_the_turn() {
    let mut game = started(2);
    let mut expected = game.clone();
    let reading = ClockReading { unix_timestamp: 1_700_000_000, slot: 250_000_000 };
    let roll = dice_from_clock(1_700_000_000, 250_000_000, 0);
    assert_eq!(roll, 1);
    assert_eq!(resolve_roll_sync(&mut game, id(1), 123, reading), Ok(()));
    expected.total_pot = 123;
    expected.positions[0] = 38;
    expected.current_turn_index = 1;
    expected.turn_nonce = 1;
    assert_eq!(game, expected);
}

#[test]
fn sync_roll_uses_the_turn_counter_in_the_seed() {
    let mut game = started(1);
    game.transports = no_transports();
    let reading = ClockReading { unix_timestamp: 12, slot: 0 };
    resolve_roll_sync(&mut game, id(1), 0, reading).unwrap();
    assert_eq!(game.positions[0], 1);
    resolve_roll_sync(&mut game, id(1), 0, reading).unwrap();
    assert_eq!(game.positions[0], 3);
    resolve_roll_sync(&mut game, id(1), 0, reading).unwrap();
    assert_eq!(game.positions[0], 6);
    assert_eq!(game.turn_nonce, 3);
}

#[test]
fn sync_roll_refused_when_the_counter_is_exhausted() {
    let mut game = started(2);
    game.turn_nonce = u64::MAX;
    game.positions[0] = 98;
    let before = game.clone();
    let reading = ClockReading { unix_timestamp: 0, slot: 0 };
    assert_eq!(resolve_roll_sync(&mut game, id(1), 77, reading), Err(ErrorCode::NonceOverflow));
    assert_eq!(game, before);
    assert!(matches!(
        request_roll(&mut game, id(1), 77),
        Err(RollError::Refused(ErrorCode::NonceOverflow))
    ));
    assert_eq!(game, before);
}

#[test]
fn sync_roll_counts_the_last_turn_that_fits() {
    let mut game = started(2);
    game.turn_nonce = u64::MAX - 1;
    let reading = ClockReading { unix_timestamp: 0, slot: 0 };
    assert_eq!(resolve_roll_sync(&mut game, id(1), 0, reading), Ok(()));
    assert_eq!(game.turn_nonce, u64::MAX);
    assert_eq!(resolve_roll_sync(&mut game, id(2), 0, reading), Err(ErrorCode::NonceOverflow));
}

#[test]
fn turn_counter_never_goes_back() {
    let mut game = started(3);
    let mut last = game.turn_nonce;
    let reading = ClockReading { unix_timestamp: 5, slot: 9 };
    for step in 0..40u32 {
        let player = game.players[usize::from(game.current_turn_index)];
        let accepted = match step % 4 {
            0 => resolve_roll_sync(&mut game, player, 0, reading).is_ok(),
            1 => request_roll_async(&mut game, player, 0, 0).is_ok(),
            2 => {
                let _ = resolve_roll(&mut game, id(GATEWAY), &delivery(1));
                false
            }
            _ => pass_turn(&mut game, player).is_ok(),
        };
        assert_eq!(game.turn_nonce, if accepted { last + 1 } else { last });
        last = game.turn_nonce;
    }
}

#[test]
fn sync_roll_gives_up_an_outstanding_roll() {
    let mut game = started(2);
    request_roll_async(&mut game, id(1), 0, 0).unwrap();
    assert_eq!(game.pending_player, Some(id(1)));
    assert_eq!(resolve_roll_sync(&mut game, id(1), 0, reading_for(3, 1)), Ok(()));
    assert_eq!(game.pending_player, None);
    assert_eq!(game.positions[0], 3);
    assert_eq!(game.current_turn_index, 1);
    assert_eq!(game.turn_nonce, 2);
    assert!(game.is_pending_in_order());
    assert_eq!(
        resolve_roll(&mut game, id(GATEWAY), &delivery(6)),
        Err(ErrorCode::MoverMismatch)
    );
}

#[test]
fn sync_win_leaves_no_roll_outstanding() {
    let mut game = started(2);
    game.positions[0] = 98;
    request_roll_async(&mut game, id(1), 0, 0).unwrap();
    assert_eq!(resolve_roll_sync(&mut game, id(1), 0, reading_for(2, 1)), Ok(()));
    assert_eq!(game.state, GameState::Finished);
    assert_eq!(game.winner, Some(id(1)));
    assert_eq!(game.pending_player, None);
    assert!(game.is_pending_in_order());
    assert!(game.is_well_formed());
}

#[test]
fn passes_in_a_row_go_round_the_table() {
    for players in 1..=8u8 {
        for first in 0..players {
            let mut game = started(players);
            for n in 0..first {
                pass_turn(&mut game, id(n + 1)).unwrap();
            }
            assert_eq!(game.current_turn_index, first);
            let nonce = game.turn_nonce;
            let positions = game.positions;
            let mut passed = Vec::new();
            for k in 0..players {
                let player = game.players[usize::from(game.current_turn_index)];
                assert_eq!(player, id((first + k) % players + 1));
                assert_eq!(pass_turn(&mut game, player), Ok(()));
                assert!(!passed.contains(&player));
                passed.push(player);
            }
            assert_eq!(passed.len(), usize::from(players));
            assert_eq!(game.current_turn_index, first);
            assert_eq!(game.turn_nonce, nonce + u64::from(players));
            assert_eq!(game.positions, positions);
        }
    }
}

#[test]
fn sync_roll_refused_before_start() {
    let mut game = create_game(id(CREATOR), [9u8; 32], 2, 0, 0, 254).unwrap();
    join_game(&mut game, id(1), 0).unwrap();
    let before = game.clone();
    let reading = ClockReading { unix_timestamp: 0, slot: 0 };
    assert_eq!(
        resolve_roll_sync(&mut game, id(1), 9, reading),
        Err(ErrorCode::GameNotStarted)
    );
    assert_eq!(game, before);
}

#[test]
fn sync_roll_refused_out_of_turn() {
    let mut game = started(2);
    let before = game.clone();
    let reading = ClockReading { unix_timestamp: 0, slot: 0 };
    assert_eq!(resolve_roll_sync(&mut game, id(2), 9, reading), Err(ErrorCode::NotYourTurn));
    assert_eq!(resolve_roll_sync(&mut game, id(77), 9, reading), Err(ErrorCode::NotYourTurn));
    assert_eq!(game, before);
}

#[test]
fn roll_from_the_runtime_clock_is_refused_by_the_rules_first() {
    let mut game = started(2);
    let before = game.clone();
    assert!(matches!(
        request_roll(&mut game, id(2), 9),
        Err(RollError::Refused(ErrorCode::NotYourTurn))
    ));
    assert_eq!(game, before);
    let mut open = create_game(id(CREATOR), [9u8; 32], 2, 0, 0, 254).unwrap();
    assert!(matches!(
        request_roll(&mut open, id(1), 9),
        Err(RollError::Refused(ErrorCode::GameNotStarted))
    ));
}

#[test]
fn roll_from_the_runtime_clock_moves_by_a_die_or_leaves_the_session_alone() {
    let mut game = started(2);
    game.transports = no_transports();
    let before = game.clone();
    match request_roll(&mut game, id(1), 55) {
        Ok(()) => {
            assert!((1..=6).contains(&game.positions[0]));
            assert_eq!(game.current_turn_index, 1);
            assert_eq!(game.turn_nonce, 1);
            assert_eq!(game.total_pot, 55);
        }
        Err(RollError::ClockUnavailable(_)) => assert_eq!(game, before),
        Err(RollError::Refused(e)) => panic!("refused: {}", e.message()),
    }
}

#[test]
fn roll_fee_is_due_only_when_positive() {
    let free = create_game(id(CREATOR), [9u8; 32], 2, 10, 0, 254).unwrap();
    assert_eq!(roll_fee_due(&free), None);
    let paid = create_game(id(CREATOR), [9u8; 32], 2, 10, 25, 254).unwrap();
    assert_eq!(roll_fee_due(&paid), Some(25));
}

#[test]
fn request_marks_the_player_pending_without_moving() {
    let mut game = started(2);
    let mut expected = game.clone();
    assert_eq!(
        request_roll_async(&mut game, id(1), 42, 900),
        Ok(RandomnessRequest {
            creator: id(CREATOR),
            game_id: [9u8; 32],
            requester: id(1),
            client_seed: 42
        })
    );
    expected.pending_player = Some(id(1));
    expected.turn_nonce = 1;
    expected.total_pot = 900;
    assert_eq!(game, expected);
    assert!(game.is_pending_in_order());
}

#[test]
fn request_refused_out_of_turn() {
    let mut game = started(2);
    let before = game.clone();
    assert_eq!(request_roll_async(&mut game, id(2), 0, 5), Err(ErrorCode::NotYourTurn));
    assert_eq!(game, before);
}

#[test]
fn request_refused_before_start() {
    let mut game = create_game(id(CREATOR), [9u8; 32], 2, 0, 0, 254).unwrap();
    join_game(&mut game, id(1), 0).unwrap();
    assert_eq!(request_roll_async(&mut game, id(1), 0, 5), Err(ErrorCode::GameNotStarted));
}

#[test]
fn request_refused_while_a_roll_is_outstanding() {
    let mut game = started(2);
    request_roll_async(&mut game, id(1), 0, 0).unwrap();
    let before = game.clone();
    assert_eq!(request_roll_async(&mut game, id(1), 1, 5), Err(ErrorCode::NotYourTurn));
    assert_eq!(request_roll_async(&mut game, id(2), 1, 5), Err(ErrorCode::NotYourTurn));
    assert_eq!(game, before);
}

#[test]
fn request_refused_when_the_counter_is_exhausted() {
    let mut game = started(2);
    game.turn_nonce = u64::MAX;
    let before = game.clone();
    assert_eq!(request_roll_async(&mut game, id(1), 0, 5), Err(ErrorCode::NonceOverflow));
    assert_eq!(game, before);
}

#[test]
fn resolve_moves_the_pending_player_and_clears_the_request() {
    let mut game = started(2);
    request_roll_async(&mut game, id(1), 0, 70).unwrap();
    let mut expected = game.clone();
    assert_eq!(resolve_roll(&mut game, id(GATEWAY), &delivery(5)), Ok(()));
    expected.positions[0] = 5;
    expected.current_turn_index = 1;
    expected.pending_player = None;
    assert_eq!(game, expected);
    assert_eq!(game.turn_nonce, 1);
    assert_eq!(game.total_pot, 70);
}

#[test]
fn resolve_reads_only_the_first_random_byte() {
    let mut game = started(2);
    request_roll_async(&mut game, id(1), 0, 0).unwrap();
    let mut random_value = [0u8; 32];
    random_value[0] = 8;
    random_value[1] = 5;
    random_value[31] = 4;
    let d = RandomnessDelivery { sender: id(GATEWAY), random_value };
    assert_eq!(resolve_roll(&mut game, id(GATEWAY), &d), Ok(()));
    assert_eq!(game.positions[0], 3);
}

#[test]
fn resolve_refused_from_anyone_but_the_gateway() {
    let mut game = started(2);
    request_roll_async(&mut game, id(1), 0, 0).unwrap();
    let before = game.clone();
    let forged = RandomnessDelivery { sender: id(1), random_value: [0u8; 32] };
    assert_eq!(
        resolve_roll(&mut game, id(GATEWAY), &forged),
        Err(ErrorCode::InvalidVrfProgram)
    );
    assert_eq!(game, before);
}

#[test]
fn resolve_refused_before_start() {
    let mut game = create_game(id(CREATOR), [9u8; 32], 2, 0, 0, 254).unwrap();
    join_game(&mut game, id(1), 0).unwrap();
    assert_eq!(
        resolve_roll(&mut game, id(GATEWAY), &delivery(1)),
        Err(ErrorCode::GameNotStarted)
    );
}

#[test]
fn resolve_refused_without_a_request() {
    let mut game = started(2);
    let before = game.clone();
    assert_eq!(
        resolve_roll(&mut game, id(GATEWAY), &delivery(1)),
        Err(ErrorCode::MoverMismatch)
    );
    assert_eq!(game, before);
}

#[test]
fn resolve_refused_twice_for_one_request() {
    let mut game = started(2);
    request_roll_async(&mut game, id(1), 0, 0).unwrap();
    resolve_roll(&mut game, id(GATEWAY), &delivery(2)).unwrap();
    let before = game.clone();
    assert_eq!(
        resolve_roll(&mut game, id(GATEWAY), &delivery(2)),
        Err(ErrorCode::MoverMismatch)
    );
    assert_eq!(game, before);
}

#[test]
fn resolve_refused_for_a_player_without_a_seat() {
    let mut game = started(2);
    game.pending_player = Some(id(9));
    let before = game.clone();
    assert_eq!(
        resolve_roll(&mut game, id(GATEWAY), &delivery(1)),
        Err(ErrorCode::InvalidMover)
    );
    assert_eq!(game, before);
}

#[test]
fn pass_hands_the_turn_on_and_counts_it() {
    let mut game = started(3);
    let mut expected = game.clone();
    assert_eq!(pass_turn(&mut game, id(1)), Ok(()));
    expected.current_turn_index = 1;
    expected.turn_nonce = 1;
    assert_eq!(game, expected);
    assert_eq!(pass_turn(&mut game, id(2)), Ok(()));
    assert_eq!(pass_turn(&mut game, id(3)), Ok(()));
    assert_eq!(game.current_turn_index, 0);
    assert_eq!(game.turn_nonce, 3);
    assert_eq!(game.positions, expected.positions);
}

#[test]
fn pass_gives_up_an_outstanding_roll() {
    let mut game = started(2);
    request_roll_async(&mut game, id(1), 0, 0).unwrap();
    assert_eq!(pass_turn(&mut game, id(1)), Ok(()));
    assert_eq!(game.pending_player, None);
    assert_eq!(game.current_turn_index, 1);
    assert_eq!(game.turn_nonce, 2);
    assert_eq!(
        resolve_roll(&mut game, id(GATEWAY), &delivery(3)),
        Err(ErrorCode::MoverMismatch)
    );
}

#[test]
fn pass_refused_out_of_turn() {
    let mut game = started(2);
    let before = game.clone();
    assert_eq!(pass_turn(&mut game, id(2)), Err(ErrorCode::Unauthorized));
    assert_eq!(game, before);
}

#[test]
fn pass_refused_before_start() {
    let mut game = create_game(id(CREATOR), [9u8; 32], 2, 0, 0, 254).unwrap();
    join_game(&mut game, id(1), 0).unwrap();
    assert_eq!(pass_turn(&mut game, id(1)), Err(ErrorCode::GameNotStarted));
}

#[test]
fn pass_refused_when_the_counter_is_exhausted() {
    let mut game = started(2);
    game.turn_nonce = u64::MAX;
    game.pending_player = Some(id(1));
    let before = game.clone();
    assert_eq!(pass_turn(&mut game, id(1)), Err(ErrorCode::NonceOverflow));
    assert_eq!(game, before);
}

#[test]
fn turn_goes_round_the_table() {
    let mut game = started(3);
    game.transports = no_transports();
    let order = [1u8, 2, 3, 1, 2, 3, 1];
    for (n, player) in order.iter().enumerate() {
        let seat = game.current_turn_index;
        assert_eq!(usize::from(seat), n % 3);
        assert_eq!(roll_two_phase(&mut game, id(*player), 1), Ok(()));
        assert_eq!(usize::from(game.current_turn_index), (usize::from(seat) + 1) % 3);
    }
    assert_eq!(game.positions[..3], [3, 2, 2]);
}

#[test]
fn turn_stays_with_a_single_player() {
    let mut game = started(1);
    assert_eq!(pass_turn(&mut game, id(1)), Ok(()));
    assert_eq!(game.current_turn_index, 0);
    assert_eq!(roll_two_phase(&mut game, id(1), 2), Ok(()));
    assert_eq!(game.current_turn_index, 0);
    assert_eq!(game.positions[0], 2);
}

#[test]
fn refused_operations_never_move_the_turn() {
    let mut game = started(3);
    pass_turn(&mut game, id(1)).unwrap();
    let reading = ClockReading { unix_timestamp: 0, slot: 0 };
    let _ = resolve_roll_sync(&mut game, id(1), 0, reading);
    let _ = request_roll_async(&mut game, id(3), 0, 0);
    let _ = pass_turn(&mut game, id(3));
    let _ = resolve_roll(&mut game, id(GATEWAY), &delivery(1));
    let _ = join_game(&mut game, id(9), 0);
    let _ = start_game(&mut game, id(CREATOR));
    assert_eq!(game.current_turn_index, 1);
}

#[test]
fn tokens_advance_on_plain_squares_and_shortcuts() {
    let mut game = started(1);
    let rolls = [2u8, 6, 5, 3, 6, 6];
    let expect = [2u8, 30, 35, 38, 44, 67];
    let mut last = 0u8;
    for (roll, want) in rolls.iter().zip(expect.iter()) {
        roll_two_phase(&mut game, id(1), *roll).unwrap();
        assert_eq!(game.positions[0], *want);
        assert!(game.positions[0] >= last + roll);
        last = game.positions[0];
    }
}

#[test]
fn a_setback_is_the_only_way_down() {
    let mut game = started(1);
    game.positions[0] = 30;
    roll_two_phase(&mut game, id(1), 2).unwrap();
    assert_eq!(game.positions[0], 10);
}

#[test]
fn no_token_rests_on_a_source_square() {
    let sources = [1u8, 4, 8, 21, 28, 32, 36, 48, 50, 62, 71, 80, 88, 95, 97];
    for first in 1..=6u8 {
        let mut game = started(2);
        let mut roll = first;
        for _ in 0..60 {
            if game.state != GameState::Started {
                break;
            }
            let player = game.players[usize::from(game.current_turn_index)];
            roll_two_phase(&mut game, player, roll).unwrap();
            for seat in 0..2 {
                assert!(!sources.contains(&game.positions[seat]));
                assert!(game.positions[seat] <= 100);
            }
            assert!(game.is_well_formed());
            assert!(game.is_pending_in_order());
            roll = roll % 6 + 1;
        }
    }
}

#[test]
fn pool_is_what_the_custodian_reported_last() {
    let mut game = create_game(id(CREATOR), [9u8; 32], 2, 100, 10, 254).unwrap();
    let mut held: u64 = 0;
    held += 100;
    join_game(&mut game, id(1), held).unwrap();
    assert_eq!(game.total_pot, held);
    held += 100;
    join_game(&mut game, id(2), held).unwrap();
    assert_eq!(game.total_pot, held);
    start_game(&mut game, id(CREATOR)).unwrap();
    assert_eq!(game.total_pot, held);
    held += 10;
    request_roll_async(&mut game, id(1), 0, held).unwrap();
    assert_eq!(game.total_pot, held);
    resolve_roll(&mut game, id(GATEWAY), &delivery(3)).unwrap();
    assert_eq!(game.total_pot, held);
    held += 10;
    let reading = reading_for(3, game.turn_nonce);
    resolve_roll_sync(&mut game, id(2), held, reading).unwrap();
    assert_eq!(game.total_pot, held);
    pass_turn(&mut game, id(1)).unwrap();
    assert_eq!(game.total_pot, 220);
}
