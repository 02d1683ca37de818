use chess_clock::app::{App, Screen};
use chess_clock::clock::{Clock, ClockTurn, Player, Time};
use chess_clock::event::{AppEvent, Event, Key};
use chess_clock::tabs::TimeCtrl;

fn running_app(p1: u64, p2: u64, turn: ClockTurn) -> App {
    App {
        running: true,
        screen: Screen::Clocks,
        clock: Clock {
            player1: Time(p1),
            player2: Time(p2),
            turn,
            increment: 2_000,
            time_ctrl: TimeCtrl::Tab1,
            first_to_move: Player::Player1,
        },
        time_ctrl_picker: TimeCtrl::Tab1,
    }
}

#[test]
fn new_app_picks_a_time_control_first() {
    let a = App::new();
    assert!(a.running);
    assert_eq!(a.screen, Screen::PickTimeCtrl);
    assert_eq!(a.clock, Clock::default());
    assert_eq!(a.time_ctrl_picker, TimeCtrl::Tab1);
    assert_eq!(a, App::default());
}

#[test]
fn render_tick_changes_nothing() {
    let mut a = running_app(30_000, 40_000, ClockTurn::Player1);
    let before = a;
    let post = a.handle_event(Event::Tick);
    assert_eq!(post, None);
    assert_eq!(a, before);
}

#[test]
fn timer_tick_advances_the_clock() {
    let mut a = running_app(30_000, 40_000, ClockTurn::Player1);
    let post = a.handle_event(Event::TimerTick);
    assert_eq!(post, None);
    assert_eq!(a.clock.player1, Time(29_990));
    assert_eq!(a.clock.player2, Time(40_000));
    assert_eq!(a.screen, Screen::Clocks);
}

#[test]
fn timer_tick_that_runs_a_player_out_posts_timeout() {
    let mut a = running_app(10, 40_000, ClockTurn::Player1);
    let post = a.handle_event(Event::TimerTick);
    assert_eq!(post, Some(AppEvent::Timeout));
    assert_eq!(a.clock.player1, Time(0));
    // The screen itself changes only when the posted event comes back.
    assert_eq!(a.screen, Screen::Clocks);
    let post = a.handle_event(Event::App(AppEvent::Timeout));
    assert_eq!(post, None);
    assert_eq!(a.screen, Screen::TimeOut);
}

#[test]
fn timer_tick_off_the_clocks_screen_posts_nothing() {
    let mut a = running_app(10, 40_000, ClockTurn::Player1);
    a.screen = Screen::TimeOut;
    let post = a.handle_event(Event::TimerTick);
    assert_eq!(post, None);
    assert_eq!(a.clock.player1, Time(0));
}

#[test]
fn ctrl_c_quits_from_any_screen() {
    for screen in [Screen::Clocks, Screen::PickTimeCtrl, Screen::TimeOut] {
        let mut a = running_app(30_000, 40_000, ClockTurn::Player1);
        a.screen = screen;
        let before = a;
        let post = a.handle_event(Event::Key(Key::CtrlC));
        assert_eq!(post, Some(AppEvent::Quit));
        assert_eq!(a, before);
    }
}

#[test]
fn space_on_clocks_screen_posts_hit() {
    let mut a = running_app(30_000, 40_000, ClockTurn::Player1);
    let post = a.handle_event(Event::Key(Key::Space));
    assert_eq!(post, Some(AppEvent::HitClock));
    assert_eq!(a.clock.turn, ClockTurn::Player1);
    let post = a.handle_event(Event::App(AppEvent::HitClock));
    assert_eq!(post, None);
    assert_eq!(a.clock.turn, ClockTurn::Player2);
    assert_eq!(a.clock.player1, Time(32_000));
}

#[test]
fn pause_key_toggles_the_clock() {
    let mut a = running_app(30_000, 40_000, ClockTurn::Player1);
    let post = a.handle_event(Event::Key(Key::CharP));
    assert_eq!(post, None);
    assert_eq!(a.clock.turn, ClockTurn::Paused(Player::Player1));
    let post = a.handle_event(Event::Key(Key::CharP));
    assert_eq!(post, None);
    assert_eq!(a.clock.turn, ClockTurn::Player1);
}

#[test]
fn picker_screen_arrows_and_confirm() {
    let mut a = App::new();
    assert_eq!(a.handle_event(Event::Key(Key::Right)), None);
    assert_eq!(a.time_ctrl_picker, TimeCtrl::Tab2);
    assert_eq!(a.handle_event(Event::Key(Key::Right)), None);
    assert_eq!(a.time_ctrl_picker, TimeCtrl::Tab3);
    assert_eq!(a.handle_event(Event::Key(Key::Left)), None);
    assert_eq!(a.time_ctrl_picker, TimeCtrl::Tab2);
    assert_eq!(a.handle_event(Event::Key(Key::Space)), None);
    assert_eq!(a.screen, Screen::Clocks);
    assert_eq!(a.clock.player1, Time(60_000));
    assert_eq!(a.clock.player2, Time(60_000));
    assert_eq!(a.clock.increment, 0);
    assert_eq!(a.clock.turn, ClockTurn::NotStarted);
    assert_eq!(a.clock.time_ctrl, TimeCtrl::Tab2);
}

#[test]
fn picker_screen_enter_confirms_too() {
    let mut a = App::new();
    assert_eq!(a.handle_event(Event::Key(Key::Enter)), None);
    assert_eq!(a.screen, Screen::Clocks);
    assert_eq!(a.clock.time_ctrl, TimeCtrl::Tab1);
    assert_eq!(a.clock.player1, Time(180_000));
    assert_eq!(a.clock.increment, 2_000);
}

#[test]
fn quit_key_on_picker_and_timeout_screens() {
    let mut a = App::new();
    assert_eq!(a.handle_event(Event::Key(Key::CharQ)), Some(AppEvent::Quit));
    let mut b = running_app(0, 40_000, ClockTurn::Player1);
    b.screen = Screen::TimeOut;
    assert_eq!(b.handle_event(Event::Key(Key::CharQ)), Some(AppEvent::Quit));
}

#[test]
fn restart_key_returns_to_the_picker() {
    let mut a = running_app(0, 40_000, ClockTurn::Player1);
    a.screen = Screen::TimeOut;
    assert_eq!(a.handle_event(Event::Key(Key::CharR)), None);
    assert_eq!(a.screen, Screen::PickTimeCtrl);

    let mut b = running_app(0, 40_000, ClockTurn::Player1);
    b.screen = Screen::TimeOut;
    assert_eq!(b.handle_event(Event::Key(Key::Enter)), None);
    assert_eq!(b.screen, Screen::PickTimeCtrl);
}

#[test]
fn other_keys_do_nothing() {
    let mut a = running_app(30_000, 40_000, ClockTurn::Player1);
    let before = a;
    assert_eq!(a.handle_event(Event::Key(Key::Other)), None);
    assert_eq!(a, before);
    assert_eq!(a.handle_event(Event::Key(Key::CharQ)), None);
    assert_eq!(a, before);
}

#[test]
fn quit_event_stops_the_loop() {
    let mut a = running_app(30_000, 40_000, ClockTurn::Player1);
    let post = a.handle_event(Event::App(AppEvent::Quit));
    assert_eq!(post, None);
    assert!(!a.running);
    assert_eq!(a.screen, Screen::Clocks);
}

#[test]
fn stale_hit_after_timeout_changes_nothing() {
    // A key pressed just before the timeout was noticed is handled after
    // it; the timed-out clock must ignore the hit.
    let mut a = running_app(10, 40_000, ClockTurn::Player1);
    assert_eq!(a.handle_event(Event::TimerTick), Some(AppEvent::Timeout));
    assert_eq!(a.handle_event(Event::Key(Key::Space)), Some(AppEvent::HitClock));
    assert_eq!(a.handle_event(Event::App(AppEvent::HitClock)), None);
    assert_eq!(a.clock.player1, Time(0));
    assert_eq!(a.clock.turn, ClockTurn::Player1);
    assert_eq!(a.handle_event(Event::App(AppEvent::Timeout)), None);
    assert_eq!(a.screen, Screen::TimeOut);
}
