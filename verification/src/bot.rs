//! The bot: a search on the demo account, then a bet on the real account,
//! over and over.

use vstd::prelude::*;

use crate::client::Mode;
use crate::demo::{
    ends_with_streak, lemma_record, over_after, undecided_before_end, DemoCycle, DemoStep,
};
use crate::request::Direction;

verus! {

/// The stake of a demo trade, in cents.
pub const STAKE_DEMO_CENTS: u64 = 50;

/// The stake of the first real trade, in cents.
pub const STAKE_REAL_STEP1_CENTS: u64 = 35;

/// The stake of the second real trade, in cents, which follows when the first
/// is lost.
pub const STAKE_REAL_STEP2_CENTS: u64 = 79;

/// How long the bot waits, in seconds: between trades and between accounts,
pub const PAUSE_SECS: u64 = 2;

/// after a trade that failed,
pub const RECOVER_SECS: u64 = 3;

/// and after a connection that failed.
pub const RECONNECT_SECS: u64 = 5;

/// How long the bot rests after a real trade that was won, in minutes.
pub const COOL_DOWN_MINUTES: u64 = 5;

/// A rung of the ladder of real trades.
#[derive(Debug, Clone, Copy, PartialEq, Eq, Structural)]
pub enum RealStep {
    Step1,
    Step2,
}

impl RealStep {
    /// The stake of the trade, in cents.
    pub open spec fn spec_stake_cents(self) -> u64 {
        match self {
            RealStep::Step1 => STAKE_REAL_STEP1_CENTS,
            RealStep::Step2 => STAKE_REAL_STEP2_CENTS,
        }
    }

    /// The stake of the trade, in cents.
    pub fn stake_cents(self) -> (r: u64)
        ensures
            r == self.spec_stake_cents(),
    {
        match self {
            RealStep::Step1 => STAKE_REAL_STEP1_CENTS,
            RealStep::Step2 => STAKE_REAL_STEP2_CENTS,
        }
    }
}

/// Where the bot is in its cycle.
#[derive(Debug, Clone, Copy, PartialEq, Eq, Structural)]
pub enum Phase {
    /// Connecting to the demo account.
    ConnectDemo,
    /// Waiting after the demo account could not be connected to.
    RetryDemo,
    /// Trading on the demo account.
    DemoTrade(DemoCycle),
    /// Waiting between two demo trades.
    DemoPause(DemoCycle),
    /// Waiting after a demo trade that failed.
    RecoverDemo,
    /// Waiting between the end of the search and the real account.
    HandOver,
    /// Connecting to the real account.
    ConnectReal,
    /// Waiting after the real account could not be connected to.
    RetryReal,
    /// Trading on the real account.
    RealTrade(RealStep),
    /// Resting after a real trade that was won.
    CoolDown,
    /// Waiting after a real trade that failed.
    RecoverReal,
    /// Waiting between two cycles.
    CycleEnd,
}

/// The bot.
#[derive(Debug, Clone, Copy, PartialEq, Eq, Structural)]
pub struct Bot {
    /// The number of the cycle, from one.
    pub cycle_count: usize,
    /// The account that was connected to last; the demo account again once a
    /// bet on the real account is through.
    pub current_mode: Mode,
    /// Whether there is a connection to the demo account.
    pub demo_open: bool,
    /// Whether there is a connection to the real account.
    pub real_open: bool,
    /// Whether the bet on the real account is on a rise.
    pub rise: bool,
    pub phase: Phase,
}

/// What the bot asks for.
#[derive(Debug, Clone, Copy, PartialEq, Eq, Structural)]
pub enum Action {
    /// Connect to the account and authorize.
    Connect(Mode),
    /// Make a trade on the account.
    Trade { mode: Mode, direction: Direction, stake_cents: u64 },
    /// Wait so many seconds.
    Pause(u64),
    /// Rest so many minutes.
    Rest(u64),
}

/// What the bot is told.
#[derive(Debug, Clone, Copy, PartialEq, Eq, Structural)]
pub enum Event {
    Connected,
    ConnectFailed,
    /// The trade ended, won or lost.
    TradeSettled { won: bool },
    TradeFailed,
    /// The time is over.
    Waited,
}

impl Bot {
    /// The bot at the start of its first cycle.
    pub open spec fn spec_new() -> Bot {
        Bot {
            cycle_count: 1,
            current_mode: Mode::Demo,
            demo_open: false,
            real_open: false,
            rise: false,
            phase: Phase::ConnectDemo,
        }
    }

    /// Whether there is a connection to the account.
    pub open spec fn is_open(self, mode: Mode) -> bool {
        match mode {
            Mode::Demo => self.demo_open,
            Mode::Real => self.real_open,
        }
    }

    /// The bot is between the end of a search and the end of its cycle.
    pub open spec fn search_is_over(self) -> bool {
        match self.phase {
            Phase::HandOver
            | Phase::ConnectReal
            | Phase::RetryReal
            | Phase::RealTrade(_)
            | Phase::CoolDown
            | Phase::RecoverReal
            | Phase::CycleEnd => true,
            _ => false,
        }
    }

    /// The bot connects to an account exactly while it has no connection to
    /// it, and its counts are those of a search under way.
    pub open spec fn wf(self) -> bool {
        &&& self.search_is_over() ==> self.demo_open
        &&& match self.phase {
            Phase::ConnectDemo | Phase::RetryDemo | Phase::RecoverDemo => !self.demo_open,
            Phase::DemoTrade(cycle) | Phase::DemoPause(cycle) => self.demo_open && cycle.wf(),
            Phase::HandOver => true,
            Phase::ConnectReal | Phase::RetryReal | Phase::RecoverReal => !self.real_open,
            Phase::RealTrade(_) | Phase::CoolDown | Phase::CycleEnd => self.real_open,
        }
    }

    /// The bet on the real account.
    pub open spec fn spec_direction(self) -> Direction {
        if self.rise {
            Direction::Rise
        } else {
            Direction::Fall
        }
    }

    /// What the bot asks for now.
    pub open spec fn spec_action(self) -> Action {
        match self.phase {
            Phase::ConnectDemo => Action::Connect(Mode::Demo),
            Phase::ConnectReal => Action::Connect(Mode::Real),
            Phase::RetryDemo | Phase::RetryReal => Action::Pause(RECONNECT_SECS),
            Phase::RecoverDemo | Phase::RecoverReal => Action::Pause(RECOVER_SECS),
            Phase::DemoPause(_) | Phase::HandOver | Phase::CycleEnd => Action::Pause(PAUSE_SECS),
            Phase::CoolDown => Action::Rest(COOL_DOWN_MINUTES),
            Phase::DemoTrade(_) => Action::Trade {
                mode: Mode::Demo,
                direction: Direction::Fall,
                stake_cents: STAKE_DEMO_CENTS,
            },
            Phase::RealTrade(step) => Action::Trade {
                mode: Mode::Real,
                direction: self.spec_direction(),
                stake_cents: step.spec_stake_cents(),
            },
        }
    }

    /// The bot in another phase.
    pub open spec fn at(self, phase: Phase) -> Bot {
        Bot { phase, ..self }
    }

    /// The bot at the start of a search, over the connection that it has or
    /// else over a new one.
    pub open spec fn to_demo(self) -> Bot {
        self.at(
            if self.demo_open {
                Phase::DemoTrade(DemoCycle::spec_start())
            } else {
                Phase::ConnectDemo
            },
        )
    }

    /// The bot at the start of a bet on the real account, over the connection
    /// that it has or else over a new one.
    pub open spec fn to_real(self) -> Bot {
        self.at(
            if self.real_open {
                Phase::RealTrade(RealStep::Step1)
            } else {
                Phase::ConnectReal
            },
        )
    }

    /// The bot after a bet on the real account is through.
    pub open spec fn bet_done(self) -> Bot {
        Bot { current_mode: Mode::Demo, phase: Phase::CycleEnd, ..self }
    }

    /// The bot after an event. An event that the bot is not waiting for
    /// changes nothing.
    pub open spec fn next(self, event: Event) -> Bot {
        match (self.phase, event) {
            (Phase::ConnectDemo, Event::Connected) => (Bot {
                demo_open: true,
                current_mode: Mode::Demo,
                ..self
            }).to_demo(),
            (Phase::ConnectDemo, Event::ConnectFailed) => self.at(Phase::RetryDemo),
            (Phase::RetryDemo, Event::Waited) => self.to_demo(),
            (Phase::DemoTrade(cycle), Event::TradeSettled { won }) => match cycle.spec_record(won) {
                DemoStep::Again(next) => self.at(Phase::DemoPause(next)),
                DemoStep::GoReal(direction) => Bot {
                    rise: direction == Direction::Rise,
                    phase: Phase::HandOver,
                    ..self
                },
            },
            (Phase::DemoTrade(_), Event::TradeFailed) => Bot {
                demo_open: false,
                phase: Phase::RecoverDemo,
                ..self
            },
            (Phase::DemoPause(cycle), Event::Waited) => self.at(
                Phase::DemoTrade(cycle.spec_begin_trade()),
            ),
            (Phase::RecoverDemo, Event::Waited) => self.to_demo(),
            (Phase::HandOver, Event::Waited) => self.to_real(),
            (Phase::ConnectReal, Event::Connected) => (Bot {
                real_open: true,
                current_mode: Mode::Real,
                ..self
            }).to_real(),
            (Phase::ConnectReal, Event::ConnectFailed) => self.at(Phase::RetryReal),
            (Phase::RetryReal, Event::Waited) => self.to_real(),
            (Phase::RealTrade(step), Event::TradeSettled { won }) => if won {
                self.at(Phase::CoolDown)
            } else if step == RealStep::Step1 {
                self.at(Phase::RealTrade(RealStep::Step2))
            } else {
                self.bet_done()
            },
            (Phase::RealTrade(_), Event::TradeFailed) => Bot {
                real_open: false,
                phase: Phase::RecoverReal,
                ..self
            },
            (Phase::CoolDown, Event::Waited) => self.bet_done(),
            (Phase::RecoverReal, Event::Waited) => self.to_real(),
            (Phase::CycleEnd, Event::Waited) => (Bot {
                cycle_count: (self.cycle_count + 1) as usize,
                ..self
            }).to_demo(),
            _ => self,
        }
    }

    /// The counts that are only ever counted up still have room.
    pub open spec fn has_room(self) -> bool {
        &&& self.cycle_count < usize::MAX
        &&& match self.phase {
            Phase::DemoPause(cycle) => cycle.trade_count < usize::MAX,
            _ => true,
        }
    }

    /// The bot at the start of its first cycle.
    pub fn new() -> (r: Bot)
        ensures
            r == Bot::spec_new(),
            r.wf(),
    {
        Bot {
            cycle_count: 1,
            current_mode: Mode::Demo,
            demo_open: false,
            real_open: false,
            rise: false,
            phase: Phase::ConnectDemo,
        }
    }

    /// The bet on the real account.
    pub fn direction(&self) -> (r: Direction)
        ensures
            r == self.spec_direction(),
    {
        if self.rise {
            Direction::Rise
        } else {
            Direction::Fall
        }
    }

    /// What the bot asks for now.
    pub fn action(&self) -> (r: Action)
        ensures
            r == self.spec_action(),
    {
        match self.phase {
            Phase::ConnectDemo => Action::Connect(Mode::Demo),
            Phase::ConnectReal => Action::Connect(Mode::Real),
            Phase::RetryDemo | Phase::RetryReal => Action::Pause(RECONNECT_SECS),
            Phase::RecoverDemo | Phase::RecoverReal => Action::Pause(RECOVER_SECS),
            Phase::DemoPause(_) | Phase::HandOver | Phase::CycleEnd => Action::Pause(PAUSE_SECS),
            Phase::CoolDown => Action::Rest(COOL_DOWN_MINUTES),
            Phase::DemoTrade(_) => Action::Trade {
                mode: Mode::Demo,
                direction: Direction::Fall,
                stake_cents: STAKE_DEMO_CENTS,
            },
            Phase::RealTrade(step) => Action::Trade {
                mode: Mode::Real,
                direction: self.direction(),
                stake_cents: step.stake_cents(),
            },
        }
    }

    fn enter_demo(&mut self)
        ensures
            *final(self) == old(self).to_demo(),
    {
        if self.demo_open {
            self.phase = Phase::DemoTrade(DemoCycle::start());
        } else {
            self.phase = Phase::ConnectDemo;
        }
    }

    fn enter_real(&mut self)
        ensures
            *final(self) == old(self).to_real(),
    {
        if self.real_open {
            self.phase = Phase::RealTrade(RealStep::Step1);
        } else {
            self.phase = Phase::ConnectReal;
        }
    }

    fn finish_bet(&mut self)
        ensures
            *final(self) == old(self).bet_done(),
    {
        self.current_mode = Mode::Demo;
        self.phase = Phase::CycleEnd;
    }

    /// Takes the bot one step further.
    pub fn step(&mut self, event: Event)
        requires
            old(self).wf(),
            old(self).has_room(),
        ensures
            *final(self) == old(self).next(event),
            final(self).wf(),
    {
        match (self.phase, event) {
            (Phase::ConnectDemo, Event::Connected) => {
                self.demo_open = true;
                self.current_mode = Mode::Demo;
                self.enter_demo();
            },
            (Phase::ConnectDemo, Event::ConnectFailed) => {
                self.phase = Phase::RetryDemo;
            },
            (Phase::RetryDemo, Event::Waited) => self.enter_demo(),
            (Phase::DemoTrade(cycle), Event::TradeSettled { won }) => match cycle.record(won) {
                DemoStep::Again(next) => {
                    self.phase = Phase::DemoPause(next);
                },
                DemoStep::GoReal(direction) => {
                    self.rise = direction == Direction::Rise;
                    self.phase = Phase::HandOver;
                },
            },
            (Phase::DemoTrade(_), Event::TradeFailed) => {
                self.demo_open = false;
                self.phase = Phase::RecoverDemo;
            },
            (Phase::DemoPause(cycle), Event::Waited) => {
                self.phase = Phase::DemoTrade(cycle.begin_trade());
            },
            (Phase::RecoverDemo, Event::Waited) => self.enter_demo(),
            (Phase::HandOver, Event::Waited) => self.enter_real(),
            (Phase::ConnectReal, Event::Connected) => {
                self.real_open = true;
                self.current_mode = Mode::Real;
                self.enter_real();
            },
            (Phase::ConnectReal, Event::ConnectFailed) => {
                self.phase = Phase::RetryReal;
            },
            (Phase::RetryReal, Event::Waited) => self.enter_real(),
            (Phase::RealTrade(step), Event::TradeSettled { won }) => {
                if won {
                    self.phase = Phase::CoolDown;
                } else {
                    match step {
                        RealStep::Step1 => {
                            self.phase = Phase::RealTrade(RealStep::Step2);
                        },
                        RealStep::Step2 => self.finish_bet(),
                    }
                }
            },
            (Phase::RealTrade(_), Event::TradeFailed) => {
                self.real_open = false;
                self.phase = Phase::RecoverReal;
            },
            (Phase::CoolDown, Event::Waited) => self.finish_bet(),
            (Phase::RecoverReal, Event::Waited) => self.enter_real(),
            (Phase::CycleEnd, Event::Waited) => {
                self.cycle_count += 1;
                self.enter_demo();
            },
            _ => {},
        }
    }
}

/// The bot after a sequence of events from its start.
pub open spec fn run(events: Seq<Event>) -> Bot
    decreases events.len(),
{
    if events.len() == 0 {
        Bot::spec_new()
    } else {
        run(events.drop_last()).next(events.last())
    }
}

/// The outcomes of the demo trades of the latest search, in a run from the
/// start: a search begins empty, and is given up when one of its trades fails.
pub open spec fn search_history(events: Seq<Event>) -> Seq<bool>
    decreases events.len(),
{
    if events.len() == 0 {
        Seq::empty()
    } else {
        let before = search_history(events.drop_last());
        match (run(events.drop_last()).phase, events.last()) {
            (Phase::DemoTrade(_), Event::TradeSettled { won }) => before.push(won),
            (Phase::DemoTrade(_), Event::TradeFailed) => Seq::empty(),
            (Phase::CycleEnd, Event::Waited) => Seq::empty(),
            _ => before,
        }
    }
}

/// Whatever happens to the bot, it stays well-formed.
pub proof fn law_next_is_wf(bot: Bot, event: Event)
    requires
        bot.wf(),
    ensures
        bot.next(event).wf(),
{
}

/// Every state that the bot can come to is well-formed, and its counts and
/// its bet are those of the latest search: while the search lasts, the runs of
/// losses and of wins are counted and neither is four long; once it is over,
/// its last four outcomes are equal, and the bet is on a rise after losses and
/// on a fall after wins.
pub proof fn law_bet_follows_search(events: Seq<Event>)
    ensures
        run(events).wf(),
        undecided_before_end(search_history(events)),
        match run(events).phase {
            Phase::DemoTrade(cycle) | Phase::DemoPause(cycle) => {
                &&& cycle.counts(search_history(events))
                &&& !over_after(search_history(events))
            },
            Phase::ConnectDemo | Phase::RetryDemo | Phase::RecoverDemo => {
                search_history(events).len() == 0
            },
            _ => ends_with_streak(search_history(events), !run(events).rise),
        },
    decreases events.len(),
{
    if events.len() > 0 {
        let shorter = events.drop_last();
        law_bet_follows_search(shorter);
        let before = run(shorter);
        law_next_is_wf(before, events.last());
        match (before.phase, events.last()) {
            (Phase::DemoTrade(cycle), Event::TradeSettled { won }) => {
                lemma_record(cycle, search_history(shorter), won);
            },
            _ => {},
        }
    }
}

/// No trade is made on the real account but after four equal outcomes in a
/// row on the demo account: a bet on a rise only after four losses, a bet on a
/// fall only after four wins.
pub proof fn law_real_trade_after_four_in_a_row(events: Seq<Event>)
    requires
        run(events).spec_action() is Trade,
        run(events).spec_action()->mode == Mode::Real,
    ensures
        run(events).spec_action()->direction == Direction::Rise ==> ends_with_streak(
            search_history(events),
            false,
        ),
        run(events).spec_action()->direction == Direction::Fall ==> ends_with_streak(
            search_history(events),
            true,
        ),
{
    law_bet_follows_search(events);
}

/// A trade is only made over a connection to its account, and a connection is
/// only opened where there is none.
pub proof fn law_trade_needs_connection(bot: Bot)
    requires
        bot.wf(),
    ensures
        match bot.spec_action() {
            Action::Trade { mode, .. } => bot.is_open(mode),
            Action::Connect(mode) => !bot.is_open(mode),
            _ => true,
        },
{
}

/// A trade that fails costs the connection to its account and no other. After
/// three seconds the bot connects to that account again, and then starts over
/// on it: with an empty search, or with the first step of the same bet.
pub proof fn law_failed_trade_is_started_over(bot: Bot)
    requires
        bot.wf(),
        bot.spec_action() is Trade,
    ensures
        ({
            let mode = bot.spec_action()->mode;
            let failed = bot.next(Event::TradeFailed);
            let waited = failed.next(Event::Waited);
            let again = waited.next(Event::Connected);
            &&& !failed.is_open(mode)
            &&& mode == Mode::Demo ==> failed.real_open == bot.real_open
            &&& mode == Mode::Real ==> failed.demo_open == bot.demo_open
            &&& failed.spec_action() == Action::Pause(RECOVER_SECS)
            &&& waited.spec_action() == Action::Connect(mode)
            &&& again.current_mode == mode
            &&& again.rise == bot.rise
            &&& again.phase == match mode {
                Mode::Demo => Phase::DemoTrade(DemoCycle::spec_start()),
                Mode::Real => Phase::RealTrade(RealStep::Step1),
            }
        }),
{
}

/// A connection that fails is tried again, five seconds later, for as long as
/// it fails.
pub proof fn law_failed_connection_is_tried_again(bot: Bot)
    requires
        bot.wf(),
        bot.spec_action() is Connect,
    ensures
        bot.next(Event::ConnectFailed).spec_action() == Action::Pause(RECONNECT_SECS),
        bot.next(Event::ConnectFailed).next(Event::Waited) == bot,
{
}

/// A connection lasts from cycle to cycle: it is opened when the bot has asked
/// for it, and given up when a trade over it fails, and at no other time.
pub proof fn law_connections_last(bot: Bot, event: Event, mode: Mode)
    requires
        bot.wf(),
    ensures
        !bot.is_open(mode) && bot.next(event).is_open(mode) <==> bot.spec_action()
            == Action::Connect(mode) && event == Event::Connected,
        bot.is_open(mode) && !bot.next(event).is_open(mode) <==> bot.spec_action() is Trade
            && bot.spec_action()->mode == mode && event == Event::TradeFailed,
{
}

/// The bet is settled by the end of a search and by nothing else.
pub proof fn law_bet_changes_with_search_only(bot: Bot, event: Event)
    ensures
        bot.next(event).rise != bot.rise ==> bot.phase is DemoTrade && bot.next(event).phase
            == Phase::HandOver,
{
}

/// A bet on the real account is at most two trades in one direction: the
/// second follows at once when the first is lost.
pub proof fn law_second_step_follows_lost_first(bot: Bot)
    requires
        bot.phase == Phase::RealTrade(RealStep::Step1),
    ensures
        bot.spec_action() == (Action::Trade {
            mode: Mode::Real,
            direction: bot.spec_direction(),
            stake_cents: STAKE_REAL_STEP1_CENTS,
        }),
        bot.next(Event::TradeSettled { won: false }).spec_action() == (Action::Trade {
            mode: Mode::Real,
            direction: bot.spec_direction(),
            stake_cents: STAKE_REAL_STEP2_CENTS,
        }),
{
}

/// A real trade that is won, and a second step that is lost, end the bet: the
/// bot rests for five minutes after a win, and then a new cycle begins with a
/// search over the same demo connection.
pub proof fn law_bet_leads_back_to_demo(bot: Bot, step: RealStep, won: bool)
    requires
        bot.wf(),
        bot.has_room(),
        bot.phase == Phase::RealTrade(step),
        won || step == RealStep::Step2,
    ensures
        ({
            let settled = bot.next(Event::TradeSettled { won });
            let done = if won {
                settled.next(Event::Waited)
            } else {
                settled
            };
            let again = done.next(Event::Waited);
            &&& won ==> settled.spec_action() == Action::Rest(COOL_DOWN_MINUTES)
            &&& done.spec_action() == Action::Pause(PAUSE_SECS)
            &&& done.current_mode == Mode::Demo
            &&& again == (Bot {
                cycle_count: (bot.cycle_count + 1) as usize,
                current_mode: Mode::Demo,
                phase: Phase::DemoTrade(DemoCycle::spec_start()),
                ..bot
            })
        }),
{
}

/// Every demo trade is a bet on a fall with the stake of the demo account.
pub proof fn law_demo_trades_bet_on_fall(bot: Bot)
    requires
        bot.spec_action() is Trade,
        bot.spec_action()->mode == Mode::Demo,
    ensures
        bot.spec_action() == (Action::Trade {
            mode: Mode::Demo,
            direction: Direction::Fall,
            stake_cents: STAKE_DEMO_CENTS,
        }),
{
}

/// The bot starts out on the demo account, in its first cycle, without any
/// connection.
pub proof fn law_start()
    ensures
        Bot::spec_new().spec_action() == Action::Connect(Mode::Demo),
        Bot::spec_new().cycle_count == 1,
        Bot::spec_new().current_mode == Mode::Demo,
        !Bot::spec_new().demo_open,
        !Bot::spec_new().real_open,
        !Bot::spec_new().rise,
{
}

/// The bot heeds only the answer to what it has asked for: any other event
/// changes nothing.
pub proof fn law_only_answers_count(bot: Bot, event: Event)
    ensures
        match (bot.spec_action(), event) {
            (Action::Connect(_), Event::Connected | Event::ConnectFailed) => true,
            (Action::Trade { .. }, Event::TradeSettled { .. } | Event::TradeFailed) => true,
            (Action::Pause(_) | Action::Rest(_), Event::Waited) => true,
            _ => bot.next(event) == bot,
        },
{
}

/// A connection that is opened is traded over at once, from the beginning: on
/// the demo account with a bet of fifty cents on a fall and a new search, on
/// the real account with thirty-five cents on what the search has settled.
pub proof fn law_connected(bot: Bot)
    requires
        bot.wf(),
        bot.spec_action() is Connect,
    ensures
        ({
            let mode = bot.spec_action()->Connect_0;
            let after = bot.next(Event::Connected);
            &&& after.current_mode == mode
            &&& after.rise == bot.rise
            &&& after.cycle_count == bot.cycle_count
            &&& mode == Mode::Demo ==> {
                &&& after.demo_open
                &&& after.real_open == bot.real_open
                &&& after.spec_action() == (Action::Trade {
                    mode: Mode::Demo,
                    direction: Direction::Fall,
                    stake_cents: 50,
                })
                &&& after.phase matches Phase::DemoTrade(cycle)
                &&& cycle.losses_in_a_row == 0
                &&& cycle.winner_in_a_row == 0
                &&& cycle.trade_count == 1
            }
            &&& mode == Mode::Real ==> {
                &&& after.real_open
                &&& after.demo_open == bot.demo_open
                &&& after.spec_action() == (Action::Trade {
                    mode: Mode::Real,
                    direction: if bot.rise {
                        Direction::Rise
                    } else {
                        Direction::Fall
                    },
                    stake_cents: 35,
                })
            }
        }),
{
}

/// A connection that fails is asked for again after five seconds, with
/// everything as it was.
pub proof fn law_connection_retried(bot: Bot)
    requires
        bot.wf(),
        bot.spec_action() is Connect,
    ensures
        bot.next(Event::ConnectFailed).spec_action() == Action::Pause(5),
        bot.next(Event::ConnectFailed).next(Event::Waited) == bot,
{
}

/// After every demo trade that ends, the bot waits two seconds. Fewer than
/// four equal outcomes in a row lead to another demo trade. Four lead to the
/// real account, over the connection that there is or else over a new one:
/// with a bet on a rise after losses, on a fall after wins.
pub proof fn law_demo_outcome(bot: Bot, cycle: DemoCycle, won: bool)
    requires
        bot.wf(),
        bot.phase == Phase::DemoTrade(cycle),
    ensures
        ({
            let settled = bot.next(Event::TradeSettled { won });
            let waited = settled.next(Event::Waited);
            let over = if won {
                cycle.winner_in_a_row == 3
            } else {
                cycle.losses_in_a_row == 3
            };
            &&& settled.spec_action() == Action::Pause(2)
            &&& settled == (Bot { phase: settled.phase, rise: settled.rise, ..bot })
            &&& waited == (Bot { phase: waited.phase, ..settled })
            &&& !over ==> {
                &&& settled.rise == bot.rise
                &&& waited.spec_action() == (Action::Trade {
                    mode: Mode::Demo,
                    direction: Direction::Fall,
                    stake_cents: 50,
                })
                &&& waited.phase matches Phase::DemoTrade(next)
                &&& won ==> next.winner_in_a_row == cycle.winner_in_a_row + 1
                    && next.losses_in_a_row == 0
                &&& !won ==> next.losses_in_a_row == cycle.losses_in_a_row + 1
                    && next.winner_in_a_row == 0
                &&& cycle.trade_count < usize::MAX ==> next.trade_count == cycle.trade_count + 1
            }
            &&& over ==> {
                &&& settled.rise == !won
                &&& bot.real_open ==> waited.spec_action() == (Action::Trade {
                    mode: Mode::Real,
                    direction: if won {
                        Direction::Fall
                    } else {
                        Direction::Rise
                    },
                    stake_cents: 35,
                })
                &&& !bot.real_open ==> waited.spec_action() == Action::Connect(Mode::Real)
            }
        }),
{
}

/// A bet, trade by trade. A win is followed by a rest of five minutes; a lost
/// first trade of thirty-five cents at once by one of seventy-nine, in the
/// same direction; and a lost second trade by a wait of two seconds.
pub proof fn law_real_outcome(bot: Bot, won: bool)
    requires
        bot.wf(),
        bot.spec_action() is Trade,
        bot.spec_action()->mode == Mode::Real,
    ensures
        ({
            let stake = bot.spec_action()->stake_cents;
            let direction = bot.spec_action()->direction;
            let after = bot.next(Event::TradeSettled { won });
            &&& direction == Direction::Rise <==> bot.rise
            &&& stake == 35 || stake == 79
            &&& won ==> after.spec_action() == Action::Rest(5)
            &&& !won && stake == 35 ==> after.spec_action() == (Action::Trade {
                mode: Mode::Real,
                direction,
                stake_cents: 79,
            })
            &&& !won && stake == 79 ==> after.spec_action() == Action::Pause(2)
                && after.current_mode == Mode::Demo
            &&& after == (Bot { phase: after.phase, current_mode: after.current_mode, ..bot })
        }),
{
}

/// The bot rests only right after a win on the real account.
pub proof fn law_rest_only_after_real_win(bot: Bot, event: Event)
    requires
        bot.wf(),
        !(bot.spec_action() is Rest),
    ensures
        bot.next(event).spec_action() is Rest <==> bot.spec_action() is Trade
            && bot.spec_action()->mode == Mode::Real && event == (Event::TradeSettled {
            won: true,
        }),
{
}

/// The second trade of a bet follows only a lost first one.
pub proof fn law_second_step_only_after_lost_first(bot: Bot, event: Event)
    requires
        bot.wf(),
        bot.next(event) != bot,
        bot.next(event).spec_action() is Trade,
        bot.next(event).spec_action()->mode == Mode::Real,
    ensures
        bot.next(event).spec_action()->stake_cents == 79 <==> bot.spec_action() is Trade && event
            == (Event::TradeSettled { won: false }) && bot.spec_action()->mode == Mode::Real,
        bot.next(event).spec_action()->stake_cents != 79 ==> bot.next(
            event,
        ).spec_action()->stake_cents == 35,
{
}

/// After a rest the bot is done with the bet: it is back on the demo account,
/// and waits two seconds before the next cycle.
pub proof fn law_rest_ends_bet(bot: Bot)
    requires
        bot.wf(),
        bot.spec_action() is Rest,
    ensures
        bot.spec_action() == Action::Rest(5),
        bot.next(Event::Waited).spec_action() == Action::Pause(2),
        bot.next(Event::Waited) == (Bot {
            phase: bot.next(Event::Waited).phase,
            current_mode: Mode::Demo,
            ..bot
        }),
{
}

/// A cycle is counted when the wait after a bet is over, and at no other time;
/// the next one begins with a new search over the demo connection.
pub proof fn law_cycles_are_counted(bot: Bot, event: Event)
    requires
        bot.wf(),
        bot.cycle_count < usize::MAX,
    ensures
        bot.phase is CycleEnd && event == Event::Waited ==> {
            let after = bot.next(event);
            &&& after.cycle_count == bot.cycle_count + 1
            &&& after.spec_action() == (Action::Trade {
                mode: Mode::Demo,
                direction: Direction::Fall,
                stake_cents: 50,
            })
            &&& after.phase matches Phase::DemoTrade(cycle)
            &&& cycle.losses_in_a_row == 0
            &&& cycle.winner_in_a_row == 0
            &&& cycle.trade_count == 1
            &&& after == (Bot { cycle_count: after.cycle_count, phase: after.phase, ..bot })
        },
        !(bot.phase is CycleEnd && event == Event::Waited) ==> bot.next(event).cycle_count
            == bot.cycle_count,
{
}

/// A cycle ends only with a bet: after a rest, or after a lost second trade.
pub proof fn law_cycle_ends_with_bet(bot: Bot, event: Event)
    requires
        bot.wf(),
        !(bot.phase is CycleEnd),
        bot.next(event).phase is CycleEnd,
    ensures
        bot.spec_action() is Rest || (bot.spec_action() is Trade && bot.spec_action()->mode
            == Mode::Real && bot.spec_action()->stake_cents == 79 && event
            == (Event::TradeSettled { won: false })),
{
}

/// A trade that fails leaves only its own account: three seconds later the bot
/// connects to it again, and all else is as it was.
pub proof fn law_trade_failed(bot: Bot)
    requires
        bot.wf(),
        bot.spec_action() is Trade,
    ensures
        ({
            let mode = bot.spec_action()->mode;
            let failed = bot.next(Event::TradeFailed);
            let waited = failed.next(Event::Waited);
            &&& failed.spec_action() == Action::Pause(3)
            &&& waited.spec_action() == Action::Connect(mode)
            &&& failed == (Bot {
                phase: failed.phase,
                demo_open: bot.demo_open && mode == Mode::Real,
                real_open: bot.real_open && mode == Mode::Demo,
                ..bot
            })
            &&& waited == (Bot { phase: waited.phase, ..failed })
        }),
{
}

/// The account that the bot says it is on is the one that it has connected to
/// last, or the demo account once a bet is through.
pub proof fn law_current_account(bot: Bot, event: Event)
    requires
        bot.wf(),
    ensures
        bot.next(event).current_mode == if bot.spec_action() is Connect && event
            == Event::Connected {
            bot.spec_action()->Connect_0
        } else if bot.next(event).phase is CycleEnd && !(bot.phase is CycleEnd) {
            Mode::Demo
        } else {
            bot.current_mode
        },
{
}

/// The stakes in cents, the waits in seconds, and the rest in minutes.
pub proof fn law_stakes_and_times()
    ensures
        STAKE_DEMO_CENTS == 50,
        STAKE_REAL_STEP1_CENTS == 35,
        STAKE_REAL_STEP2_CENTS == 79,
        RealStep::Step1.spec_stake_cents() == 35,
        RealStep::Step2.spec_stake_cents() == 79,
        PAUSE_SECS == 2,
        RECOVER_SECS == 3,
        RECONNECT_SECS == 5,
        COOL_DOWN_MINUTES == 5,
{
}

} // verus!
