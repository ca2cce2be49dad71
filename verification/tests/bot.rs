use sunderiv::bot::{Action, Bot, Event, Phase, RealStep};
use sunderiv::client::Mode;
use sunderiv::demo::{DemoCycle, DemoStep};
use sunderiv::request::Direction;
use sunderiv::wait::Countdown;

fn search(outcomes: &[bool]) -> DemoStep {
    let mut cycle = DemoCycle::start();
    for won in outcomes {
        match cycle.record(*won) {
            DemoStep::Again(next) => cycle = next.begin_trade(),
            over => return over,
        }
    }
    DemoStep::Again(cycle)
}

/// A bot that has seen these outcomes over a fresh demo connection.
fn after(outcomes: &[bool]) -> Bot {
    let mut bot = Bot::new();
    bot.step(Event::Connected);
    for won in outcomes {
        bot.step(Event::TradeSettled { won: *won });
        bot.step(Event::Waited);
    }
    bot
}

fn trade(mode: Mode, direction: Direction, stake_cents: u64) -> Action {
    Action::Trade { mode, direction, stake_cents }
}

#[test]
fn four_losses_call_for_a_rise() {
    assert_eq!(search(&[false; 4]), DemoStep::GoReal(Direction::Rise));
    assert_eq!(
        search(&[false, false, false, true, false, false, false, false]),
        DemoStep::GoReal(Direction::Rise)
    );
}

#[test]
fn four_wins_call_for_a_fall() {
    assert_eq!(search(&[true; 4]), DemoStep::GoReal(Direction::Fall));
}

#[test]
fn three_in_a_row_are_not_enough() {
    assert_eq!(
        search(&[false; 3]),
        DemoStep::Again(DemoCycle { losses_in_a_row: 3, winner_in_a_row: 0, trade_count: 4 })
    );
}

#[test]
fn the_other_outcome_starts_the_count_over() {
    assert_eq!(
        search(&[false, false, false, true]),
        DemoStep::Again(DemoCycle { losses_in_a_row: 0, winner_in_a_row: 1, trade_count: 5 })
    );
    assert_eq!(
        search(&[true, true, true, false]),
        DemoStep::Again(DemoCycle { losses_in_a_row: 1, winner_in_a_row: 0, trade_count: 5 })
    );
}

#[test]
fn the_search_stays_over() {
    assert_eq!(
        search(&[true, true, true, true, false, false, false, false]),
        DemoStep::GoReal(Direction::Fall)
    );
}

#[test]
fn the_bot_starts_on_the_demo_account() {
    let mut bot = Bot::new();
    assert_eq!(bot.cycle_count, 1);
    assert_eq!(bot.action(), Action::Connect(Mode::Demo));
    bot.step(Event::Connected);
    assert_eq!(bot.current_mode, Mode::Demo);
    assert_eq!(bot.action(), trade(Mode::Demo, Direction::Fall, 50));
    bot.step(Event::TradeSettled { won: true });
    assert_eq!(bot.action(), Action::Pause(2));
    bot.step(Event::Waited);
    assert_eq!(bot.action(), trade(Mode::Demo, Direction::Fall, 50));
}

#[test]
fn a_failed_connection_is_tried_again() {
    let mut bot = Bot::new();
    bot.step(Event::ConnectFailed);
    assert_eq!(bot.action(), Action::Pause(5));
    bot.step(Event::Waited);
    assert_eq!(bot, Bot::new());

    let mut real = after(&[true; 4]);
    let before = real;
    assert_eq!(real.action(), Action::Connect(Mode::Real));
    real.step(Event::ConnectFailed);
    assert_eq!(real.action(), Action::Pause(5));
    real.step(Event::Waited);
    assert_eq!(real, before);
}

#[test]
fn a_failed_demo_trade_starts_the_search_over() {
    let mut bot = after(&[false; 3]);
    bot.step(Event::TradeFailed);
    assert!(!bot.demo_open);
    assert_eq!(bot.action(), Action::Pause(3));
    bot.step(Event::Waited);
    assert_eq!(bot.action(), Action::Connect(Mode::Demo));
    bot.step(Event::Connected);
    assert_eq!(bot.phase, Phase::DemoTrade(DemoCycle::start()));
}

#[test]
fn a_lost_first_step_leads_to_the_second() {
    let mut bot = after(&[false; 4]);
    assert!(bot.rise);
    bot.step(Event::Connected);
    assert_eq!(bot.current_mode, Mode::Real);
    assert_eq!(bot.direction(), Direction::Rise);
    assert_eq!(bot.action(), trade(Mode::Real, Direction::Rise, 35));
    bot.step(Event::TradeSettled { won: false });
    assert_eq!(bot.action(), trade(Mode::Real, Direction::Rise, 79));
    bot.step(Event::TradeSettled { won: false });
    assert_eq!(bot.current_mode, Mode::Demo);
    assert_eq!(bot.action(), Action::Pause(2));
    bot.step(Event::Waited);
    assert_eq!(bot.cycle_count, 2);
    assert_eq!(bot.phase, Phase::DemoTrade(DemoCycle::start()));
}

#[test]
fn a_win_on_the_real_account_is_followed_by_a_rest() {
    let mut bot = after(&[true; 4]);
    bot.step(Event::Connected);
    assert_eq!(bot.action(), trade(Mode::Real, Direction::Fall, 35));
    bot.step(Event::TradeSettled { won: true });
    assert_eq!(bot.action(), Action::Rest(5));
    bot.step(Event::Waited);
    assert_eq!(bot.action(), Action::Pause(2));
    bot.step(Event::Waited);
    assert_eq!(bot.action(), trade(Mode::Demo, Direction::Fall, 50));
    assert_eq!(bot.cycle_count, 2);
}

#[test]
fn connections_are_kept_from_cycle_to_cycle() {
    let mut bot = after(&[true; 4]);
    bot.step(Event::Connected);
    bot.step(Event::TradeSettled { won: true });
    bot.step(Event::Waited);
    bot.step(Event::Waited);
    for _ in 0..4 {
        bot.step(Event::TradeSettled { won: false });
        bot.step(Event::Waited);
    }
    assert_eq!(bot.action(), trade(Mode::Real, Direction::Rise, 35));
}

#[test]
fn a_failed_real_trade_starts_the_bet_over() {
    let mut bot = after(&[false; 4]);
    bot.step(Event::Connected);
    bot.step(Event::TradeSettled { won: false });
    bot.step(Event::TradeFailed);
    assert!(bot.demo_open && !bot.real_open);
    assert_eq!(bot.action(), Action::Pause(3));
    bot.step(Event::Waited);
    assert_eq!(bot.action(), Action::Connect(Mode::Real));
    bot.step(Event::Connected);
    assert_eq!(bot.phase, Phase::RealTrade(RealStep::Step1));
    assert!(bot.rise);
}

#[test]
fn an_event_out_of_place_changes_nothing() {
    let mut bot = Bot::new();
    bot.step(Event::Waited);
    bot.step(Event::TradeFailed);
    bot.step(Event::TradeSettled { won: true });
    assert_eq!(bot, Bot::new());
}

#[test]
fn the_bet_turns_with_the_next_search() {
    let mut bot = after(&[false; 4]);
    bot.step(Event::Connected);
    bot.step(Event::TradeSettled { won: true });
    bot.step(Event::Waited);
    bot.step(Event::Waited);
    assert!(bot.rise);
    for _ in 0..4 {
        bot.step(Event::TradeSettled { won: true });
        bot.step(Event::Waited);
    }
    assert!(!bot.rise);
    assert_eq!(bot.action(), trade(Mode::Real, Direction::Fall, 35));
}

#[test]
fn a_countdown_lasts_its_minutes() {
    let countdown = Countdown::of_minutes(5);
    assert_eq!(countdown.total_secs, 300);
    assert!(countdown.goes_on(0));
    assert!(countdown.goes_on(299_999_999_999));
    assert!(!countdown.goes_on(300_000_000_000));
    assert!(!Countdown::of_minutes(0).goes_on(0));
}
