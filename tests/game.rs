use tic_tac_toe::account::AccountId;
use tic_tac_toe::board::{clear_board, has_won, is_board_filled, is_cell_empty};
use tic_tac_toe::game::{Debit, GameError, Outcome, Phase, TicTacToe, MAX_STAKE};

fn alice() -> AccountId {
    AccountId([1; 32])
}

fn bob() -> AccountId {
    AccountId([2; 32])
}

fn carol() -> AccountId {
    AccountId([3; 32])
}

fn token() -> AccountId {
    AccountId([9; 32])
}

fn fresh() -> TicTacToe {
    TicTacToe::new(alice(), bob(), 1, 2, token(), 100).unwrap()
}

fn stake(game: &mut TicTacToe, who: AccountId) {
    let debit = game.stake_tokens(who, 1000, 1000).unwrap();
    assert_eq!(debit.from, who);
    assert_eq!(debit.amount, 100);
    game.finish_stake(who, true).unwrap();
}

fn staked() -> TicTacToe {
    let mut game = fresh();
    stake(&mut game, alice());
    stake(&mut game, bob());
    game
}

fn is_continue(o: &Outcome) -> bool {
    matches!(o, Outcome::Continue)
}

#[test]
fn new_sets_up_an_empty_match() {
    let game = fresh();
    assert_eq!(game.get_board(), vec![0u64; 9]);
    assert_eq!(game.get_current_turn(), alice());
    assert_eq!(game.get_player_one(), alice());
    assert_eq!(game.get_player_two(), bob());
    assert_eq!(game.get_player_one_symbol(), 1);
    assert_eq!(game.get_player_two_symbol(), 2);
    assert_eq!(game.get_staking_token(), token());
    assert_eq!(game.get_stake_amount(), 100);
    assert_eq!(game.get_player_one_stake(), 0);
    assert_eq!(game.get_player_two_stake(), 0);
    assert_eq!(game.get_last_winner(), None);
}

#[test]
fn new_accepts_symbols_in_either_order() {
    let game = TicTacToe::new(alice(), bob(), 2, 1, token(), MAX_STAKE).unwrap();
    assert_eq!(game.get_player_one_symbol(), 2);
    assert_eq!(game.get_player_two_symbol(), 1);
    assert_eq!(game.get_stake_amount(), MAX_STAKE);
}

#[test]
fn new_rejects_bad_configurations() {
    let bad = GameError::InvalidConfiguration;
    assert_eq!(TicTacToe::new(alice(), alice(), 1, 2, token(), 100).err(), Some(bad));
    assert_eq!(TicTacToe::new(alice(), bob(), 1, 1, token(), 100).err(), Some(bad));
    assert_eq!(TicTacToe::new(alice(), bob(), 0, 2, token(), 100).err(), Some(bad));
    assert_eq!(TicTacToe::new(alice(), bob(), 1, 3, token(), 100).err(), Some(bad));
    assert_eq!(TicTacToe::new(alice(), bob(), 3, 0, token(), 100).err(), Some(bad));
}

#[test]
fn both_stakes_are_recorded() {
    let game = staked();
    assert_eq!(game.phase(), Phase::InProgress);
    assert_eq!(game.get_player_one_stake(), 100);
    assert_eq!(game.get_player_two_stake(), 100);
    assert_eq!(game.get_player_one_stake(), game.get_stake_amount());
}

#[test]
fn stake_is_recorded_only_on_confirmation() {
    let mut game = fresh();
    assert_eq!(game.phase(), Phase::AwaitingStakes);
    let debit: Debit = game.stake_tokens(bob(), 101, 101).unwrap();
    assert_eq!(debit.from, bob());
    assert_eq!(game.get_player_two_stake(), 0);
    assert_eq!(game.stake_tokens(bob(), 1000, 1000).err(), Some(GameError::AlreadyStaked));
    assert_eq!(game.finish_stake(bob(), true), Ok(()));
    assert_eq!(game.get_player_two_stake(), 100);
    assert_eq!(game.get_player_one_stake(), 0);
}

#[test]
fn stake_rejects_strangers_and_second_stakes() {
    let mut game = fresh();
    assert_eq!(game.stake_tokens(carol(), 1000, 1000).err(), Some(GameError::NotAPlayer));
    stake(&mut game, alice());
    assert_eq!(game.stake_tokens(alice(), 1000, 1000).err(), Some(GameError::AlreadyStaked));
    assert_eq!(game.get_player_one_stake(), 100);
}

#[test]
fn stake_needs_balance_and_allowance_above_the_amount() {
    let mut game = fresh();
    assert_eq!(game.stake_tokens(alice(), 100, 1000).err(), Some(GameError::InsufficientBalance));
    assert_eq!(game.stake_tokens(alice(), 1000, 100).err(), Some(GameError::InsufficientAllowance));
    assert_eq!(game.finish_stake(alice(), true).err(), Some(GameError::NoDebitOutstanding));
    assert_eq!(game.get_player_one_stake(), 0);
}

#[test]
fn failed_debit_records_nothing_and_can_be_retried() {
    let mut game = fresh();
    game.stake_tokens(alice(), 1000, 1000).unwrap();
    assert_eq!(game.finish_stake(alice(), false).err(), Some(GameError::TransferFailed));
    assert_eq!(game.get_player_one_stake(), 0);
    assert_eq!(game.finish_stake(carol(), true).err(), Some(GameError::NotAPlayer));
    stake(&mut game, alice());
    assert_eq!(game.get_player_one_stake(), 100);
}

#[test]
fn play_rejections_change_nothing() {
    let mut unstaked = fresh();
    assert_eq!(unstaked.play(alice(), 0).err(), Some(GameError::StakesIncomplete));
    stake(&mut unstaked, alice());
    assert_eq!(unstaked.play(alice(), 0).err(), Some(GameError::StakesIncomplete));

    let mut game = staked();
    assert!(is_continue(&game.play(alice(), 4).unwrap()));
    let board = game.get_board();
    assert_eq!(game.play(bob(), 9).err(), Some(GameError::CellOutOfRange));
    assert_eq!(game.play(carol(), 0).err(), Some(GameError::NotAPlayer));
    assert_eq!(game.play(bob(), 4).err(), Some(GameError::CellOccupied));
    assert_eq!(game.play(alice(), 0).err(), Some(GameError::NotYourTurn));
    assert_eq!(game.get_board(), board);
    assert_eq!(game.get_current_turn(), bob());
    assert_eq!(game.get_player_one_stake(), 100);
    assert_eq!(game.get_player_two_stake(), 100);
}

#[test]
fn turn_alternates_on_ordinary_moves() {
    let mut game = staked();
    let moves: [(AccountId, u64); 4] = [(alice(), 0), (bob(), 4), (alice(), 8), (bob(), 2)];
    for (who, cell) in moves {
        assert_eq!(game.get_current_turn(), who);
        assert!(is_continue(&game.play(who, cell).unwrap()));
        assert_ne!(game.get_current_turn(), who);
    }
    assert_eq!(game.get_board(), vec![1, 0, 2, 0, 2, 0, 0, 0, 1]);
}

#[test]
fn worked_win_example() {
    let mut game = staked();
    assert_eq!(game.get_player_one_stake(), 100);
    assert_eq!(game.get_player_two_stake(), 100);
    assert!(is_continue(&game.play(alice(), 0).unwrap()));
    assert_eq!(game.get_current_turn(), bob());
    assert!(is_continue(&game.play(bob(), 3).unwrap()));
    assert!(is_continue(&game.play(alice(), 1).unwrap()));
    assert!(is_continue(&game.play(bob(), 4).unwrap()));
    match game.play(alice(), 2).unwrap() {
        Outcome::Won { winner, amount } => {
            assert_eq!(winner, alice());
            assert_eq!(amount, 200);
        }
        _ => panic!("expected a win"),
    }
    assert_eq!(game.get_player_one_stake(), 0);
    assert_eq!(game.get_player_two_stake(), 0);
    assert_eq!(game.get_board(), vec![0u64; 9]);
    assert_eq!(game.get_current_turn(), alice());
    assert_eq!(game.get_last_winner(), Some(alice()));
    assert_eq!(game.phase(), Phase::AwaitingStakes);
    assert_eq!(game.play(alice(), 0).err(), Some(GameError::StakesIncomplete));
}

#[test]
fn player_two_win_opens_next_round() {
    let mut game = staked();
    for (who, cell) in [(alice(), 0), (bob(), 2), (alice(), 1), (bob(), 4), (alice(), 8)] {
        assert!(is_continue(&game.play(who, cell).unwrap()));
    }
    match game.play(bob(), 6).unwrap() {
        Outcome::Won { winner, amount } => {
            assert_eq!(winner, bob());
            assert_eq!(amount, 200);
        }
        _ => panic!("expected a win"),
    }
    assert_eq!(game.get_current_turn(), bob());
    assert_eq!(game.get_last_winner(), Some(bob()));
    assert_eq!(game.get_board(), vec![0u64; 9]);
    assert_eq!(game.get_player_one_stake(), 0);
    assert_eq!(game.get_player_two_stake(), 0);
}

#[test]
fn worked_draw_example() {
    let mut game = staked();
    let moves: [(AccountId, u64); 8] = [
        (alice(), 0),
        (bob(), 1),
        (alice(), 2),
        (bob(), 4),
        (alice(), 3),
        (bob(), 5),
        (alice(), 7),
        (bob(), 6),
    ];
    for (who, cell) in moves {
        assert!(is_continue(&game.play(who, cell).unwrap()));
    }
    match game.play(alice(), 8).unwrap() {
        Outcome::Draw { each } => assert_eq!(each, 100),
        _ => panic!("expected a draw"),
    }
    assert_eq!(game.get_board(), vec![0u64; 9]);
    assert_eq!(game.get_current_turn(), alice());
    assert_eq!(game.get_player_one_stake(), 0);
    assert_eq!(game.get_player_two_stake(), 0);
    assert_eq!(game.get_last_winner(), None);
}

#[test]
fn last_move_completing_a_line_is_a_win_not_a_draw() {
    let mut game = staked();
    let moves: [(AccountId, u64); 8] = [
        (alice(), 0),
        (bob(), 1),
        (alice(), 2),
        (bob(), 3),
        (alice(), 4),
        (bob(), 5),
        (alice(), 7),
        (bob(), 6),
    ];
    for (who, cell) in moves {
        assert!(is_continue(&game.play(who, cell).unwrap()));
    }
    match game.play(alice(), 8).unwrap() {
        Outcome::Won { winner, amount } => {
            assert_eq!(winner, alice());
            assert_eq!(amount, 200);
        }
        _ => panic!("expected a win"),
    }
}

#[test]
fn board_rules() {
    let mut board = clear_board();
    assert_eq!(board, vec![0u64; 9]);
    assert!(!has_won(&board, 0));
    assert!(!has_won(&board, 1));
    assert!(is_cell_empty(&board, 4));
    board[2] = 2;
    board[4] = 2;
    board[6] = 2;
    assert!(has_won(&board, 2));
    assert!(!has_won(&board, 1));
    assert!(!is_cell_empty(&board, 4));
    assert!(!is_board_filled(&board));
    let full = vec![1, 2, 1, 1, 2, 2, 2, 1, 1];
    assert!(is_board_filled(&full));
    assert!(!has_won(&full, 1));
    assert!(!has_won(&full, 2));
    for line in [[0usize, 3, 6], [1, 4, 7], [2, 5, 8], [0, 1, 2], [3, 4, 5], [6, 7, 8], [0, 4, 8], [2, 4, 6]] {
        let mut b = vec![0u64; 9];
        for i in line {
            b[i] = 1;
        }
        assert!(has_won(&b, 1));
        assert!(!has_won(&b, 2));
    }
}
