use vstd::prelude::*;

use crate::account::{AccountId, Balance};
use crate::board::{empty_board, is_full, wins, EMPTY};
use crate::game::{GameError, MatchView, Outcome};

verus! {

/// Once each of the two players, in either order, has asked for their stake and had the
/// debit confirmed by the ledger, both have exactly the stake amount in escrow, and moves
/// are accepted.
pub proof fn lemma_both_stakes_recorded(
    v: MatchView,
    first: AccountId,
    balance_first: Balance,
    allowance_first: Balance,
    balance_second: Balance,
    allowance_second: Balance,
)
    requires
        v.wf(),
        v.stake_error(first, balance_first, allowance_first) is None,
        v.with_debit(first, true).with_stake_recorded(first).stake_error(
            v.other(first),
            balance_second,
            allowance_second,
        ) is None,
    ensures
        ({
            let second = v.other(first);
            let after = v.with_debit(first, true).with_stake_recorded(first).with_debit(
                second,
                true,
            ).with_stake_recorded(second);
            &&& after.stake_one == after.stake_amount
            &&& after.stake_two == after.stake_amount
            &&& after.stakes_complete()
            &&& after.stake_amount == v.stake_amount
        }),
{
}

/// A move is refused when the cell is out of range, the caller is not a player, the
/// stakes are incomplete, the cell is taken, or it is the other player's turn.
pub proof fn lemma_play_rejects(v: MatchView, caller: AccountId, cell: u64)
    requires
        v.wf(),
    ensures
        cell > 8 ==> v.play_error(caller, cell) == Some(GameError::CellOutOfRange),
        !v.is_player(caller) ==> v.play_error(caller, cell) is Some,
        !v.stakes_complete() ==> v.play_error(caller, cell) is Some,
        cell <= 8 && v.board[cell as int] != EMPTY ==> v.play_error(caller, cell) is Some,
        v.turn != caller ==> v.play_error(caller, cell) is Some,
{
}

/// A move that completes a line pays the winner both stakes in one transfer, empties the
/// escrow and the board, gives the winner the next move and records them as the last
/// winner. Player one's symbol is looked at first.
pub proof fn lemma_win_settles(v: MatchView, caller: AccountId, cell: u64)
    requires
        v.wf(),
        v.play_error(caller, cell) is None,
        wins(v.placed(caller, cell), v.symbol_one) || wins(v.placed(caller, cell), v.symbol_two),
    ensures
        ({
            let (next, outcome) = v.after_move(caller, cell);
            let winner = if wins(v.placed(caller, cell), v.symbol_one) {
                v.player_one
            } else {
                v.player_two
            };
            &&& outcome == (Outcome::Won { winner, amount: (2 * v.stake_amount) as Balance })
            &&& v.escrow_total() == 2 * v.stake_amount
            &&& next.stake_one == 0
            &&& next.stake_two == 0
            &&& next.board == empty_board()
            &&& next.turn == winner
            &&& next.last_winner == Some(winner)
            &&& next.wf()
        }),
{
}

/// A move that fills the board with no line completed refunds each player their stake,
/// empties the escrow and the board, and gives player one the next move.
pub proof fn lemma_draw_refunds(v: MatchView, caller: AccountId, cell: u64)
    requires
        v.wf(),
        v.play_error(caller, cell) is None,
        !wins(v.placed(caller, cell), v.symbol_one),
        !wins(v.placed(caller, cell), v.symbol_two),
        is_full(v.placed(caller, cell)),
    ensures
        ({
            let (next, outcome) = v.after_move(caller, cell);
            &&& outcome == (Outcome::Draw { each: v.stake_amount })
            &&& next.stake_one == 0
            &&& next.stake_two == 0
            &&& next.board == empty_board()
            &&& next.turn == v.player_one
            &&& next.last_winner == v.last_winner
            &&& next.wf()
        }),
{
}

/// A move that ends no round passes the turn to the other player.
pub proof fn lemma_turn_alternates(v: MatchView, caller: AccountId, cell: u64)
    requires
        v.wf(),
        v.play_error(caller, cell) is None,
        v.after_move(caller, cell).1 == Outcome::Continue,
    ensures
        ({
            let next = v.after_move(caller, cell).0;
            &&& next.turn == v.other(v.turn)
            &&& next.turn != v.turn
            &&& next.is_player(next.turn)
            &&& next.board == v.placed(caller, cell)
            &&& next.wf()
        }),
{
}

} // verus!
