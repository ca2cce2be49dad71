//! The search, on the demo account, for four equal outcomes in a row.

use vstd::prelude::*;

use crate::request::Direction;

verus! {

/// How many equal outcomes in a row end the search.
pub const STREAK: usize = 4;

/// A search under way.
#[derive(Debug, Clone, Copy, PartialEq, Eq, Structural)]
pub struct DemoCycle {
    pub losses_in_a_row: usize,
    pub winner_in_a_row: usize,
    /// How many trades were begun.
    pub trade_count: usize,
}

/// What comes after the outcome of a demo trade.
#[derive(Debug, Clone, Copy, PartialEq, Eq, Structural)]
pub enum DemoStep {
    /// Another demo trade.
    Again(DemoCycle),
    /// The real account, with a bet in this direction.
    GoReal(Direction),
}

/// How many outcomes at the end of a history equal `outcome`, without a
/// break.
pub open spec fn trailing(history: Seq<bool>, outcome: bool) -> nat
    decreases history.len(),
{
    if history.len() > 0 && history.last() == outcome {
        trailing(history.drop_last(), outcome) + 1
    } else {
        0
    }
}

/// The last four outcomes of a history are all `outcome`.
pub open spec fn ends_with_streak(history: Seq<bool>, outcome: bool) -> bool {
    &&& history.len() >= STREAK
    &&& forall|i: int|
        history.len() - STREAK <= i < history.len() ==> #[trigger] history[i] == outcome
}

/// The search is over after this history of wins and losses.
pub open spec fn over_after(history: Seq<bool>) -> bool {
    ends_with_streak(history, true) || ends_with_streak(history, false)
}

/// The search goes on through every part of this history but, it may be, the
/// whole of it.
pub open spec fn undecided_before_end(history: Seq<bool>) -> bool {
    forall|n: int| 0 <= n < history.len() ==> !over_after(#[trigger] history.take(n))
}

impl DemoCycle {
    /// The search before its first trade is settled.
    pub open spec fn spec_start() -> DemoCycle {
        DemoCycle { losses_in_a_row: 0, winner_in_a_row: 0, trade_count: 1 }
    }

    /// The counts are those of a search that is not over: at most one of the
    /// two runs has begun, and neither is complete.
    pub open spec fn wf(self) -> bool {
        &&& self.losses_in_a_row < STREAK
        &&& self.winner_in_a_row < STREAK
        &&& self.losses_in_a_row == 0 || self.winner_in_a_row == 0
    }

    /// The counts are those of the history of wins (`true`) and losses.
    pub open spec fn counts(self, history: Seq<bool>) -> bool {
        &&& self.losses_in_a_row == trailing(history, false)
        &&& self.winner_in_a_row == trailing(history, true)
    }

    /// What comes after an outcome: the run that it continues grows, the other
    /// one starts over. Four losses call for a bet on a rise, four wins for a
    /// bet on a fall.
    pub open spec fn spec_record(self, won: bool) -> DemoStep {
        if won {
            if self.winner_in_a_row + 1 >= STREAK {
                DemoStep::GoReal(Direction::Fall)
            } else {
                DemoStep::Again(
                    DemoCycle {
                        losses_in_a_row: 0,
                        winner_in_a_row: (self.winner_in_a_row + 1) as usize,
                        ..self
                    },
                )
            }
        } else {
            if self.losses_in_a_row + 1 >= STREAK {
                DemoStep::GoReal(Direction::Rise)
            } else {
                DemoStep::Again(
                    DemoCycle {
                        losses_in_a_row: (self.losses_in_a_row + 1) as usize,
                        winner_in_a_row: 0,
                        ..self
                    },
                )
            }
        }
    }

    /// The search after another trade was begun.
    pub open spec fn spec_begin_trade(self) -> DemoCycle {
        DemoCycle { trade_count: (self.trade_count + 1) as usize, ..self }
    }

    /// The search, with its first trade begun.
    pub fn start() -> (r: DemoCycle)
        ensures
            r == DemoCycle::spec_start(),
            r.wf(),
    {
        DemoCycle { losses_in_a_row: 0, winner_in_a_row: 0, trade_count: 1 }
    }

    /// Begins another trade.
    pub fn begin_trade(self) -> (r: DemoCycle)
        requires
            self.trade_count < usize::MAX,
        ensures
            r == self.spec_begin_trade(),
    {
        DemoCycle { trade_count: self.trade_count + 1, ..self }
    }

    /// Records the outcome of a trade.
    pub fn record(self, won: bool) -> (r: DemoStep)
        requires
            self.wf(),
        ensures
            r == self.spec_record(won),
            r matches DemoStep::Again(next) ==> next.wf(),
    {
        let mut next = self;
        if !won {
            next.losses_in_a_row += 1;
            next.winner_in_a_row = 0;
            if next.losses_in_a_row >= STREAK {
                return DemoStep::GoReal(Direction::Rise);
            }
        } else {
            next.winner_in_a_row += 1;
            next.losses_in_a_row = 0;
            if next.winner_in_a_row >= STREAK {
                return DemoStep::GoReal(Direction::Fall);
            }
        }
        DemoStep::Again(next)
    }
}

/// What a search that sees the outcomes of a history one after the other has
/// come to.
pub open spec fn search(history: Seq<bool>) -> DemoStep
    decreases history.len(),
{
    if history.len() == 0 {
        DemoStep::Again(DemoCycle::spec_start())
    } else {
        match search(history.drop_last()) {
            DemoStep::Again(cycle) => match cycle.spec_record(history.last()) {
                DemoStep::Again(next) => DemoStep::Again(next.spec_begin_trade()),
                over => over,
            },
            over => over,
        }
    }
}

/// A run of at least `n` equal outcomes is the same as `n` equal outcomes at
/// the end.
proof fn lemma_trailing(history: Seq<bool>, outcome: bool, n: nat)
    ensures
        trailing(history, outcome) <= history.len(),
        trailing(history, outcome) >= n <==> history.len() >= n && forall|i: int|
            history.len() - n <= i < history.len() ==> #[trigger] history[i] == outcome,
    decreases history.len(),
{
    if history.len() > 0 {
        let shorter = history.drop_last();
        if n > 0 {
            lemma_trailing(shorter, outcome, (n - 1) as nat);
            assert(forall|i: int| 0 <= i < shorter.len() ==> #[trigger] shorter[i] == history[i]);
            if history.last() == outcome {
                assert(trailing(history, outcome) == trailing(shorter, outcome) + 1);
                if trailing(history, outcome) >= n {
                    assert forall|i: int| history.len() - n <= i < history.len() implies
                        #[trigger] history[i] == outcome by {
                        if i < history.len() - 1 {
                            assert(shorter[i] == outcome);
                        }
                    }
                }
                if history.len() >= n && (forall|i: int|
                    history.len() - n <= i < history.len() ==> #[trigger] history[i] == outcome) {
                    assert forall|i: int|
                        shorter.len() - (n - 1) <= i < shorter.len() implies #[trigger] shorter[i]
                        == outcome by {
                        assert(history[i] == outcome);
                    }
                }
            } else {
                assert(history[history.len() - 1] != outcome);
            }
        } else {
            lemma_trailing(shorter, outcome, 0);
        }
    }
}

/// What one more outcome does to a search that has counted what it has seen.
pub(crate) proof fn lemma_record(cycle: DemoCycle, history: Seq<bool>, won: bool)
    requires
        cycle.wf(),
        cycle.counts(history),
        undecided_before_end(history),
        !over_after(history),
    ensures
        undecided_before_end(history.push(won)),
        match cycle.spec_record(won) {
            DemoStep::Again(next) => {
                &&& next.wf()
                &&& next.counts(history.push(won))
                &&& !over_after(history.push(won))
            },
            DemoStep::GoReal(direction) => {
                &&& direction == Direction::Rise ==> ends_with_streak(history.push(won), false)
                &&& direction == Direction::Fall ==> ends_with_streak(history.push(won), true)
            },
        },
{
    let longer = history.push(won);
    assert(longer.drop_last() =~= history);
    lemma_trailing(longer, true, STREAK as nat);
    lemma_trailing(longer, false, STREAK as nat);
    assert forall|n: int| 0 <= n < longer.len() implies !over_after(#[trigger] longer.take(n)) by {
        if n < history.len() {
            assert(longer.take(n) =~= history.take(n));
        } else {
            assert(longer.take(n) =~= history);
        }
    }
}

/// The counts of a search are those of what it has seen, and they stay within
/// bounds: through every history that has not ended it.
pub proof fn law_counts_follow_history(history: Seq<bool>)
    requires
        undecided_before_end(history),
    ensures
        match search(history) {
            DemoStep::Again(cycle) => !over_after(history) && cycle.wf() && cycle.counts(history),
            DemoStep::GoReal(direction) => {
                &&& direction == Direction::Rise ==> ends_with_streak(history, false)
                &&& direction == Direction::Fall ==> ends_with_streak(history, true)
            },
        },
    decreases history.len(),
{
    if history.len() > 0 {
        let shorter = history.drop_last();
        assert(shorter =~= history.take(history.len() - 1));
        assert(!over_after(history.take(history.len() - 1)));
        assert forall|n: int| 0 <= n < shorter.len() implies !over_after(
            #[trigger] shorter.take(n),
        ) by {
            assert(shorter.take(n) =~= history.take(n));
        }
        law_counts_follow_history(shorter);
        if let DemoStep::Again(cycle) = search(shorter) {
            lemma_record(cycle, shorter, history.last());
            assert(shorter.push(history.last()) =~= history);
        }
    }
}

/// The search ends with the first outcome that makes four in a row, and with
/// no other: after a history that had not ended it before, it is over exactly
/// when the last four outcomes are equal. Four losses lead to a bet on a rise,
/// four wins to a bet on a fall.
pub proof fn law_search_ends_at_four_in_a_row(history: Seq<bool>)
    requires
        undecided_before_end(history),
    ensures
        search(history) == DemoStep::GoReal(Direction::Rise) <==> ends_with_streak(history, false),
        search(history) == DemoStep::GoReal(Direction::Fall) <==> ends_with_streak(history, true),
        search(history) is Again <==> !over_after(history),
{
    law_counts_follow_history(history);
    if ends_with_streak(history, true) && ends_with_streak(history, false) {
        assert(history[history.len() - 1] == true);
    }
}

/// Nothing that comes after the end of a search changes what it has come to.
pub proof fn law_search_stays_over(history: Seq<bool>, later: Seq<bool>)
    requires
        search(history) is GoReal,
    ensures
        search(history + later) == search(history),
    decreases later.len(),
{
    if later.len() == 0 {
        assert(history + later =~= history);
    } else {
        assert((history + later).drop_last() =~= history + later.drop_last());
        law_search_stays_over(history, later.drop_last());
    }
}

/// What one outcome does, in numbers: three of its kind before it make four,
/// and the search is over, with a rise after losses and a fall after wins;
/// otherwise its own run is one longer, the other run is zero, and the number
/// of trades begun stays the same.
pub proof fn law_record(cycle: DemoCycle, won: bool)
    requires
        cycle.wf(),
    ensures
        match cycle.spec_record(won) {
            DemoStep::GoReal(Direction::Rise) => !won && cycle.losses_in_a_row == 3,
            DemoStep::GoReal(Direction::Fall) => won && cycle.winner_in_a_row == 3,
            DemoStep::Again(next) => {
                &&& won ==> cycle.winner_in_a_row < 3 && next.winner_in_a_row
                    == cycle.winner_in_a_row + 1 && next.losses_in_a_row == 0
                &&& !won ==> cycle.losses_in_a_row < 3 && next.losses_in_a_row
                    == cycle.losses_in_a_row + 1 && next.winner_in_a_row == 0
                &&& next.trade_count == cycle.trade_count
            },
        },
{
}

/// The search looks at the last four outcomes, one by one: it is over after
/// losses exactly when all four are losses, after wins exactly when all four
/// are wins.
pub proof fn law_last_four_decide(history: Seq<bool>)
    requires
        undecided_before_end(history),
    ensures
        ({
            let n = history.len() as int;
            &&& search(history) == DemoStep::GoReal(Direction::Rise) <==> n >= 4 && !history[n - 1]
                && !history[n - 2] && !history[n - 3] && !history[n - 4]
            &&& search(history) == DemoStep::GoReal(Direction::Fall) <==> n >= 4 && history[n - 1]
                && history[n - 2] && history[n - 3] && history[n - 4]
        }),
{
    law_search_ends_at_four_in_a_row(history);
    let n = history.len() as int;
    if n >= 4 && ends_with_streak(history, true) {
        assert(history[n - 1] && history[n - 2] && history[n - 3] && history[n - 4]);
    }
    if n >= 4 && ends_with_streak(history, false) {
        assert(!history[n - 1] && !history[n - 2] && !history[n - 3] && !history[n - 4]);
    }
}

/// Every trade of a search is counted: while outcomes come in, the number of
/// trades begun is one more than the number of outcomes.
pub proof fn law_every_trade_is_counted(history: Seq<bool>)
    requires
        history.len() < usize::MAX,
    ensures
        search(history) matches DemoStep::Again(cycle) ==> cycle.trade_count == history.len() + 1,
    decreases history.len(),
{
    if history.len() > 0 {
        law_every_trade_is_counted(history.drop_last());
    }
}

} // verus!
