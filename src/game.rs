use vstd::prelude::*;

use crate::account::{AccountId, Balance};
use crate::board::{clear_board, empty_board, has_won, is_board_filled, is_cell_empty, is_full, wins, CELLS, EMPTY};

verus! {

/// The largest stake a match accepts: the two stakes together must fit in a `Balance`.
pub const MAX_STAKE: Balance = 170141183460469231731687303715884105727;

/// Why an operation on a match was refused. A refused operation changes nothing.
#[derive(Clone, Copy, Debug, PartialEq, Eq, Structural)]
pub enum GameError {
    /// The two players are the same account, or their symbols are equal or not 1 or 2.
    InvalidConfiguration,
    /// The caller is neither of the two players.
    NotAPlayer,
    /// The caller already holds a stake in escrow, or a debit of it is still outstanding.
    AlreadyStaked,
    /// The caller's ledger balance does not exceed the stake amount.
    InsufficientBalance,
    /// The caller's allowance to the match does not exceed the stake amount.
    InsufficientAllowance,
    /// The ledger did not carry out the debit of the stake.
    TransferFailed,
    /// No debit of the caller's stake is outstanding.
    NoDebitOutstanding,
    /// The cell index is not in `0..=8`.
    CellOutOfRange,
    /// The cell already holds a symbol.
    CellOccupied,
    /// The other player is to move.
    NotYourTurn,
    /// Not both players have their stake in escrow.
    StakesIncomplete,
}

/// A debit that the ledger is asked to make: `amount` from `from` into the match's own account.
#[derive(Clone, Copy, Debug)]
pub struct Debit {
    pub from: AccountId,
    pub amount: Balance,
}

/// What an accepted move leads to.
#[derive(Clone, Copy, Debug)]
pub enum Outcome {
    /// The round goes on: the other player moves next.
    Continue,
    /// `winner` completed a line and is paid `amount`, the whole escrow, in one transfer.
    Won { winner: AccountId, amount: Balance },
    /// The board filled up with no line completed: each player is paid `each`.
    Draw { each: Balance },
}

/// Where a round stands: moves are accepted only once both stakes are in escrow.
/// A round that ends goes straight back to awaiting stakes.
#[derive(Clone, Copy, Debug, PartialEq, Eq, Structural)]
pub enum Phase {
    AwaitingStakes,
    InProgress,
}

/// The abstract state of a match.
pub struct MatchView {
    pub board: Seq<u64>,
    pub turn: AccountId,
    pub player_one: AccountId,
    pub player_two: AccountId,
    pub symbol_one: u64,
    pub symbol_two: u64,
    pub staking_token: AccountId,
    pub stake_amount: Balance,
    pub stake_one: Balance,
    pub stake_two: Balance,
    pub last_winner: Option<AccountId>,
    /// A debit of player one's stake has been requested and not yet answered.
    pub debit_one: bool,
    /// A debit of player two's stake has been requested and not yet answered.
    pub debit_two: bool,
}

/// Two distinct accounts with distinct symbols, each symbol 1 or 2.
pub open spec fn valid_config(p1: AccountId, p2: AccountId, s1: u64, s2: u64) -> bool {
    &&& p1 != p2
    &&& s1 != s2
    &&& (s1 == 1 || s1 == 2)
    &&& (s2 == 1 || s2 == 2)
}

impl MatchView {
    /// A fresh match: empty board, player one to move, nothing in escrow, no winner yet.
    pub open spec fn fresh(
        p1: AccountId,
        p2: AccountId,
        s1: u64,
        s2: u64,
        token: AccountId,
        amount: Balance,
    ) -> MatchView {
        MatchView {
            board: empty_board(),
            turn: p1,
            player_one: p1,
            player_two: p2,
            symbol_one: s1,
            symbol_two: s2,
            staking_token: token,
            stake_amount: amount,
            stake_one: 0,
            stake_two: 0,
            last_winner: None,
            debit_one: false,
            debit_two: false,
        }
    }

    pub open spec fn is_player(self, p: AccountId) -> bool {
        p == self.player_one || p == self.player_two
    }

    /// The player who is not `p`.
    pub open spec fn other(self, p: AccountId) -> AccountId {
        if p == self.player_one {
            self.player_two
        } else {
            self.player_one
        }
    }

    pub open spec fn symbol_of(self, p: AccountId) -> u64 {
        if p == self.player_one {
            self.symbol_one
        } else {
            self.symbol_two
        }
    }

    pub open spec fn stake_of(self, p: AccountId) -> Balance {
        if p == self.player_one {
            self.stake_one
        } else {
            self.stake_two
        }
    }

    pub open spec fn debit_outstanding(self, p: AccountId) -> bool {
        if p == self.player_one {
            self.debit_one
        } else {
            self.debit_two
        }
    }

    /// Both players have the full stake in escrow: moves are accepted.
    pub open spec fn stakes_complete(self) -> bool {
        self.stake_one == self.stake_amount && self.stake_two == self.stake_amount
    }

    /// What holds of a match at all times.
    pub open spec fn wf(self) -> bool {
        &&& valid_config(self.player_one, self.player_two, self.symbol_one, self.symbol_two)
        &&& self.is_player(self.turn)
        &&& self.board.len() == 9
        &&& forall|i: int|
            0 <= i < 9 ==> #[trigger] self.board[i] == EMPTY || self.board[i] == self.symbol_one
                || self.board[i] == self.symbol_two
        &&& self.stake_amount <= MAX_STAKE
        &&& (self.stake_one == 0 || self.stake_one == self.stake_amount)
        &&& (self.stake_two == 0 || self.stake_two == self.stake_amount)
        &&& (self.debit_one ==> self.stake_one == 0)
        &&& (self.debit_two ==> self.stake_two == 0)
    }

    /// The first check that `caller` playing `cell` fails, in the order: cell in range,
    /// caller a player, stakes complete, cell empty, caller's turn.
    pub open spec fn play_error(self, caller: AccountId, cell: u64) -> Option<GameError> {
        if cell > 8 {
            Some(GameError::CellOutOfRange)
        } else if !self.is_player(caller) {
            Some(GameError::NotAPlayer)
        } else if !self.stakes_complete() {
            Some(GameError::StakesIncomplete)
        } else if self.board[cell as int] != EMPTY {
            Some(GameError::CellOccupied)
        } else if self.turn != caller {
            Some(GameError::NotYourTurn)
        } else {
            None
        }
    }

    /// The board once `caller` has put their symbol on `cell`.
    pub open spec fn placed(self, caller: AccountId, cell: u64) -> Seq<u64> {
        self.board.update(cell as int, self.symbol_of(caller))
    }

    /// Everything held in escrow.
    pub open spec fn escrow_total(self) -> int {
        self.stake_one + self.stake_two
    }

    /// The match after a round ends: board cleared, escrow emptied.
    pub open spec fn settled(self, next: AccountId, last_winner: Option<AccountId>) -> MatchView {
        MatchView {
            board: empty_board(),
            turn: next,
            stake_one: 0,
            stake_two: 0,
            last_winner,
            ..self
        }
    }

    /// The match and the outcome after an accepted move of `caller` on `cell`. A line of
    /// player one's symbol is looked for first, then one of player two's; a full board
    /// with no line is a draw.
    pub open spec fn after_move(self, caller: AccountId, cell: u64) -> (MatchView, Outcome) {
        let b = self.placed(caller, cell);
        let total = self.escrow_total() as Balance;
        if wins(b, self.symbol_one) {
            (
                self.settled(self.player_one, Some(self.player_one)),
                Outcome::Won { winner: self.player_one, amount: total },
            )
        } else if wins(b, self.symbol_two) {
            (
                self.settled(self.player_two, Some(self.player_two)),
                Outcome::Won { winner: self.player_two, amount: total },
            )
        } else if is_full(b) {
            (self.settled(self.player_one, self.last_winner), Outcome::Draw { each: total / 2 })
        } else {
            (MatchView { board: b, turn: self.other(caller), ..self }, Outcome::Continue)
        }
    }

    /// The first check that a stake of `caller` fails, given the ledger's `balance` of
    /// the caller and the caller's `allowance` to the match.
    pub open spec fn stake_error(self, caller: AccountId, balance: Balance, allowance: Balance) -> Option<GameError> {
        if !self.is_player(caller) {
            Some(GameError::NotAPlayer)
        } else if self.stake_of(caller) != 0 || self.debit_outstanding(caller) {
            Some(GameError::AlreadyStaked)
        } else if balance <= self.stake_amount {
            Some(GameError::InsufficientBalance)
        } else if allowance <= self.stake_amount {
            Some(GameError::InsufficientAllowance)
        } else {
            None
        }
    }

    /// The match with the outstanding-debit mark of `p` set to `flag`.
    pub open spec fn with_debit(self, p: AccountId, flag: bool) -> MatchView {
        if p == self.player_one {
            MatchView { debit_one: flag, ..self }
        } else {
            MatchView { debit_two: flag, ..self }
        }
    }

    /// The match once the ledger confirmed the debit of `p`'s stake.
    pub open spec fn with_stake_recorded(self, p: AccountId) -> MatchView {
        if p == self.player_one {
            MatchView { stake_one: self.stake_amount, debit_one: false, ..self }
        } else {
            MatchView { stake_two: self.stake_amount, debit_two: false, ..self }
        }
    }
}

/// A staked tic-tac-toe match between two fixed accounts, over many rounds.
#[derive(Clone, Debug)]
pub struct TicTacToe {
    board: Vec<u64>,
    turn: AccountId,
    player_one: AccountId,
    player_two: AccountId,
    player_one_symbol: u64,
    player_two_symbol: u64,
    staking_token: AccountId,
    stake_amount: Balance,
    player_one_stake: Balance,
    player_two_stake: Balance,
    last_winner: Option<AccountId>,
    debit_one: bool,
    debit_two: bool,
}

impl View for TicTacToe {
    type V = MatchView;

    closed spec fn view(&self) -> MatchView {
        MatchView {
            board: self.board@,
            turn: self.turn,
            player_one: self.player_one,
            player_two: self.player_two,
            symbol_one: self.player_one_symbol,
            symbol_two: self.player_two_symbol,
            staking_token: self.staking_token,
            stake_amount: self.stake_amount,
            stake_one: self.player_one_stake,
            stake_two: self.player_two_stake,
            last_winner: self.last_winner,
            debit_one: self.debit_one,
            debit_two: self.debit_two,
        }
    }
}

impl TicTacToe {
    pub open spec fn wf(&self) -> bool {
        self@.wf()
    }

    /// Creates a match between `player_one` and `player_two`, who place
    /// `player_one_symbol` and `player_two_symbol`, staking `stake_amount` of the
    /// asset that `staking_token` keeps. Refused unless the accounts differ and the
    /// symbols are 1 and 2 in some order.
    pub fn new(
        player_one: AccountId,
        player_two: AccountId,
        player_one_symbol: u64,
        player_two_symbol: u64,
        staking_token: AccountId,
        stake_amount: Balance,
    ) -> (r: Result<TicTacToe, GameError>)
        requires
            stake_amount <= MAX_STAKE,
        ensures
            r is Ok <==> valid_config(player_one, player_two, player_one_symbol, player_two_symbol),
            r is Err ==> r == Err::<TicTacToe, GameError>(GameError::InvalidConfiguration),
            r matches Ok(g) ==> g.wf() && g@ == MatchView::fresh(
                player_one,
                player_two,
                player_one_symbol,
                player_two_symbol,
                staking_token,
                stake_amount,
            ),
    {
        if player_one == player_two {
            return Err(GameError::InvalidConfiguration);
        }
        if player_one_symbol == player_two_symbol {
            return Err(GameError::InvalidConfiguration);
        }
        if !((player_one_symbol == 1 || player_one_symbol == 2) && (player_two_symbol == 1
            || player_two_symbol == 2)) {
            return Err(GameError::InvalidConfiguration);
        }
        let g = TicTacToe {
            board: clear_board(),
            turn: player_one,
            player_one,
            player_two,
            player_one_symbol,
            player_two_symbol,
            staking_token,
            stake_amount,
            player_one_stake: 0,
            player_two_stake: 0,
            last_winner: None,
            debit_one: false,
            debit_two: false,
        };
        Ok(g)
    }
    /// Pays the whole escrow to `winner` and empties it.
    fn reward_winner(&mut self, winner: AccountId) -> (r: Outcome)
        requires
            old(self).wf(),
        ensures
            final(self)@ == (MatchView { stake_one: 0, stake_two: 0, ..old(self)@ }),
            r == (Outcome::Won { winner, amount: old(self)@.escrow_total() as Balance }),
    {
        let amount = self.player_one_stake + self.player_two_stake;
        self.player_one_stake = 0;
        self.player_two_stake = 0;
        Outcome::Won { winner, amount }
    }

    /// Splits the escrow evenly between the two players and empties it.
    fn refund_tokens(&mut self) -> (r: Outcome)
        requires
            old(self).wf(),
        ensures
            final(self)@ == (MatchView { stake_one: 0, stake_two: 0, ..old(self)@ }),
            r == (Outcome::Draw { each: (old(self)@.escrow_total() as Balance) / 2 }),
    {
        let total = self.player_one_stake + self.player_two_stake;
        let each = total / 2;
        self.player_one_stake = 0;
        self.player_two_stake = 0;
        Outcome::Draw { each }
    }

    /// `caller` puts their symbol on `cell` (0 to 8, row by row). A move that completes
    /// a line wins the whole escrow for its player, who opens the next round; a move
    /// that fills the board otherwise is a draw, refunded half each, and player one
    /// opens the next round. Either way the board and the escrow are emptied. Any
    /// other accepted move passes the turn to the other player.
    pub fn play(&mut self, caller: AccountId, cell: u64) -> (r: Result<Outcome, GameError>)
        requires
            old(self).wf(),
        ensures
            final(self).wf(),
            match old(self)@.play_error(caller, cell) {
                Some(e) => r == Err::<Outcome, GameError>(e) && final(self)@ == old(self)@,
                None => r is Ok && (final(self)@, r->Ok_0) == old(self)@.after_move(caller, cell),
            },
    {
        if cell > 8 {
            return Err(GameError::CellOutOfRange);
        }
        if !(caller == self.player_one || caller == self.player_two) {
            return Err(GameError::NotAPlayer);
        }
        if !(self.player_one_stake == self.stake_amount && self.player_two_stake
            == self.stake_amount) {
            return Err(GameError::StakesIncomplete);
        }
        let index = cell as usize;
        if !is_cell_empty(&self.board, index) {
            return Err(GameError::CellOccupied);
        }
        if !(self.turn == caller) {
            return Err(GameError::NotYourTurn);
        }
        let symbol = if caller == self.player_one {
            self.player_one_symbol
        } else {
            self.player_two_symbol
        };
        self.board.set(index, symbol);
        assert(self.board@ == old(self)@.placed(caller, cell));
        let player_one = self.player_one;
        let player_two = self.player_two;
        if has_won(&self.board, self.player_one_symbol) {
            self.turn = player_one;
            let outcome = self.reward_winner(player_one);
            self.board = clear_board();
            self.last_winner = Some(player_one);
            Ok(outcome)
        } else if has_won(&self.board, self.player_two_symbol) {
            self.turn = player_two;
            let outcome = self.reward_winner(player_two);
            self.board = clear_board();
            self.last_winner = Some(player_two);
            Ok(outcome)
        } else if is_board_filled(&self.board) {
            self.turn = player_one;
            let outcome = self.refund_tokens();
            self.board = clear_board();
            Ok(outcome)
        } else {
            self.turn = if caller == player_one {
                player_two
            } else {
                player_one
            };
            Ok(Outcome::Continue)
        }
    }
    /// `caller` asks to put their stake in escrow. `balance` and `allowance` are what
    /// the ledger reports of the caller's holding and of the caller's allowance to the
    /// match. On success the returned debit is outstanding for the caller: nothing is
    /// in escrow until `finish_stake` records the ledger's answer, and a second stake
    /// of the same caller is refused meanwhile.
    pub fn stake_tokens(&mut self, caller: AccountId, balance: Balance, allowance: Balance) -> (r: Result<Debit, GameError>)
        requires
            old(self).wf(),
        ensures
            final(self).wf(),
            match old(self)@.stake_error(caller, balance, allowance) {
                Some(e) => r == Err::<Debit, GameError>(e) && final(self)@ == old(self)@,
                None => r == Ok::<Debit, GameError>(Debit { from: caller, amount: old(self)@.stake_amount })
                    && final(self)@ == old(self)@.with_debit(caller, true),
            },
    {
        let is_one = caller == self.player_one;
        if !(is_one || caller == self.player_two) {
            return Err(GameError::NotAPlayer);
        }
        let (stake, outstanding) = if is_one {
            (self.player_one_stake, self.debit_one)
        } else {
            (self.player_two_stake, self.debit_two)
        };
        if stake != 0 || outstanding {
            return Err(GameError::AlreadyStaked);
        }
        if balance <= self.stake_amount {
            return Err(GameError::InsufficientBalance);
        }
        if allowance <= self.stake_amount {
            return Err(GameError::InsufficientAllowance);
        }
        if is_one {
            self.debit_one = true;
        } else {
            self.debit_two = true;
        }
        Ok(Debit { from: caller, amount: self.stake_amount })
    }

    /// Records the ledger's answer to the outstanding debit of `caller`'s stake:
    /// when `debited`, the stake is in escrow; otherwise nothing is, and the stake
    /// may be asked for again.
    pub fn finish_stake(&mut self, caller: AccountId, debited: bool) -> (r: Result<(), GameError>)
        requires
            old(self).wf(),
        ensures
            final(self).wf(),
            !old(self)@.is_player(caller) ==> r == Err::<(), GameError>(GameError::NotAPlayer)
                && final(self)@ == old(self)@,
            old(self)@.is_player(caller) && !old(self)@.debit_outstanding(caller) ==> r == Err::<
                (),
                GameError,
            >(GameError::NoDebitOutstanding) && final(self)@ == old(self)@,
            old(self)@.is_player(caller) && old(self)@.debit_outstanding(caller) && debited ==> r
                is Ok && final(self)@ == old(self)@.with_stake_recorded(caller),
            old(self)@.is_player(caller) && old(self)@.debit_outstanding(caller) && !debited ==> r
                == Err::<(), GameError>(GameError::TransferFailed) && final(self)@ == old(
                self,
            )@.with_debit(caller, false),
    {
        let is_one = caller == self.player_one;
        if !(is_one || caller == self.player_two) {
            return Err(GameError::NotAPlayer);
        }
        let outstanding = if is_one {
            self.debit_one
        } else {
            self.debit_two
        };
        if !outstanding {
            return Err(GameError::NoDebitOutstanding);
        }
        if is_one {
            self.debit_one = false;
            if debited {
                self.player_one_stake = self.stake_amount;
            }
        } else {
            self.debit_two = false;
            if debited {
                self.player_two_stake = self.stake_amount;
            }
        }
        if debited {
            Ok(())
        } else {
            Err(GameError::TransferFailed)
        }
    }

    /// The phase of the current round.
    pub fn phase(&self) -> (r: Phase)
        ensures
            r == (if self@.stakes_complete() {
                Phase::InProgress
            } else {
                Phase::AwaitingStakes
            }),
    {
        if self.player_one_stake == self.stake_amount && self.player_two_stake == self.stake_amount {
            Phase::InProgress
        } else {
            Phase::AwaitingStakes
        }
    }

    /// The amount each player stakes per round.
    pub fn get_stake_amount(&self) -> (r: Balance)
        ensures
            r == self@.stake_amount,
    {
        self.stake_amount
    }

    /// The winner of the most recent round that was won, if any was.
    pub fn get_last_winner(&self) -> (r: Option<AccountId>)
        ensures
            r == self@.last_winner,
    {
        self.last_winner
    }

    /// The player who is to move.
    pub fn get_current_turn(&self) -> (r: AccountId)
        ensures
            r == self@.turn,
    {
        self.turn
    }

    /// The account of the ledger that keeps the staked asset.
    pub fn get_staking_token(&self) -> (r: AccountId)
        ensures
            r == self@.staking_token,
    {
        self.staking_token
    }

    /// What player two has in escrow.
    pub fn get_player_two_stake(&self) -> (r: Balance)
        ensures
            r == self@.stake_two,
    {
        self.player_two_stake
    }

    /// What player one has in escrow.
    pub fn get_player_one_stake(&self) -> (r: Balance)
        ensures
            r == self@.stake_one,
    {
        self.player_one_stake
    }

    pub fn get_player_one(&self) -> (r: AccountId)
        ensures
            r == self@.player_one,
    {
        self.player_one
    }

    pub fn get_player_two(&self) -> (r: AccountId)
        ensures
            r == self@.player_two,
    {
        self.player_two
    }

    pub fn get_player_two_symbol(&self) -> (r: u64)
        ensures
            r == self@.symbol_two,
    {
        self.player_two_symbol
    }

    pub fn get_player_one_symbol(&self) -> (r: u64)
        ensures
            r == self@.symbol_one,
    {
        self.player_one_symbol
    }

    /// The nine cells, row by row.
    pub fn get_board(&self) -> (r: Vec<u64>)
        ensures
            r@ == self@.board,
    {
        self.board.clone()
    }
}

} // verus!
