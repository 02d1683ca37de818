//! The controller: the top-level screen state machine.
//!
//! The controller owns the clock, the screen being shown and the
//! time-control picker, and consumes the serialized event stream one event
//! at a time. Each event is routed to a clock mutation or a screen
//! transition; some events make the controller post an [`AppEvent`] back
//! into its own stream, so that self-triggered transitions are handled in
//! the same order as external events. The loop that waits for events,
//! posts the returned [`AppEvent`]s and redraws lives outside the crate;
//! it stops when [`App::running`] goes false.

use vstd::prelude::*;

use crate::clock::Clock;
use crate::event::{AppEvent, Event, Key, TIMER_TICK};
use crate::tabs::TimeCtrl;

verus! {

/// The screen being shown.
#[derive(Debug, Clone, Copy, PartialEq, Eq, Structural)]
pub enum Screen {
    /// The running (or paused, or not yet started) clocks.
    Clocks,
    /// The time-control picker shown before the clock runs.
    PickTimeCtrl,
    /// A player has lost on time.
    TimeOut,
}

/// The controller state: everything the application loop owns.
#[derive(Debug, Clone, Copy, PartialEq, Eq, Structural)]
pub struct App {
    /// False once the application should stop its loop.
    pub running: bool,
    /// The screen being shown.
    pub screen: Screen,
    /// The clock model.
    pub clock: Clock,
    /// The catalog entry the picker currently rests on.
    pub time_ctrl_picker: TimeCtrl,
}

impl App {
    /// The initial controller state: running, picking a time control, a
    /// fresh clock, the picker on the first catalog entry.
    pub open spec fn spec_init() -> App {
        App {
            running: true,
            screen: Screen::PickTimeCtrl,
            clock: Clock::spec_default(),
            time_ctrl_picker: TimeCtrl::Tab1,
        }
    }

    /// The state and the event to post after a key press.
    ///
    /// `Ctrl-C` posts `Quit` from any screen. On the clocks screen, space
    /// posts `HitClock` and `p` toggles pause. On the picker screen, `q`
    /// posts `Quit`, space or enter confirms the selection (configuring the
    /// clock and showing the clocks screen), and the arrow keys move the
    /// picker. On the timeout screen, `r` or enter returns to the picker
    /// and `q` posts `Quit`. Every other key does nothing.
    pub open spec fn spec_handle_key(self, key: Key) -> (App, Option<AppEvent>) {
        if key is CtrlC {
            (self, Some(AppEvent::Quit))
        } else {
            match self.screen {
                Screen::Clocks => match key {
                    Key::Space => (self, Some(AppEvent::HitClock)),
                    Key::CharP => (App { clock: self.clock.spec_pause(), ..self }, None),
                    _ => (self, None),
                },
                Screen::PickTimeCtrl => match key {
                    Key::CharQ => (self, Some(AppEvent::Quit)),
                    Key::Space | Key::Enter => (
                        App {
                            clock: self.clock.spec_set(self.time_ctrl_picker),
                            screen: Screen::Clocks,
                            ..self
                        },
                        None,
                    ),
                    _ => (
                        App { time_ctrl_picker: self.time_ctrl_picker.spec_handle_key(key), ..self },
                        None,
                    ),
                },
                Screen::TimeOut => match key {
                    Key::CharR | Key::Enter => (App { screen: Screen::PickTimeCtrl, ..self }, None),
                    Key::CharQ => (self, Some(AppEvent::Quit)),
                    _ => (self, None),
                },
            }
        }
    }

    /// The state and the event to post after one event of the stream.
    ///
    /// A render tick changes nothing. A countdown tick advances the clock;
    /// if that leaves it timed out while the clocks screen is shown, a
    /// `Timeout` is posted. A key press is routed as [`App::spec_handle_key`]
    /// says. A posted `Timeout` shows the timeout screen, `HitClock` hits
    /// the clock, `Quit` stops the loop.
    pub open spec fn spec_handle_event(self, event: Event) -> (App, Option<AppEvent>) {
        match event {
            Event::Tick => (self, None),
            Event::TimerTick => {
                let ticked = App { clock: self.clock.spec_tick(TIMER_TICK), ..self };
                if ticked.clock.spec_timed_out() && self.screen is Clocks {
                    (ticked, Some(AppEvent::Timeout))
                } else {
                    (ticked, None)
                }
            },
            Event::Key(key) => self.spec_handle_key(key),
            Event::App(app_event) => match app_event {
                AppEvent::Timeout => (App { screen: Screen::TimeOut, ..self }, None),
                AppEvent::HitClock => (App { clock: self.clock.spec_hit(), ..self }, None),
                AppEvent::Quit => (App { running: false, ..self }, None),
            },
        }
    }

    /// A fresh controller, as [`App::spec_init`] describes it.
    pub fn new() -> (r: Self)
        ensures
            r == App::spec_init(),
    {
        Self::default()
    }

    /// Route a key press: mutate the state and return the event to post,
    /// as [`App::spec_handle_key`] says.
    pub fn handle_key_events(&mut self, key: Key) -> (post: Option<AppEvent>)
        ensures
            *final(self) == old(self).spec_handle_key(key).0,
            post == old(self).spec_handle_key(key).1,
    {
        if matches!(key, Key::CtrlC) {
            return Some(AppEvent::Quit);
        }
        match self.screen {
            Screen::Clocks => match key {
                Key::Space => Some(AppEvent::HitClock),
                Key::CharP => {
                    self.clock.pause();
                    None
                },
                _ => None,
            },
            Screen::PickTimeCtrl => match key {
                Key::CharQ => Some(AppEvent::Quit),
                Key::Space | Key::Enter => {
                    self.clock.set(self.time_ctrl_picker);
                    self.screen = Screen::Clocks;
                    None
                },
                _ => {
                    self.time_ctrl_picker.handle_key_events(key);
                    None
                },
            },
            Screen::TimeOut => match key {
                Key::CharR | Key::Enter => {
                    self.screen = Screen::PickTimeCtrl;
                    None
                },
                Key::CharQ => Some(AppEvent::Quit),
                _ => None,
            },
        }
    }

    /// Consume one event of the stream: mutate the state and return the
    /// event to post, as [`App::spec_handle_event`] says.
    pub fn handle_event(&mut self, event: Event) -> (post: Option<AppEvent>)
        ensures
            *final(self) == old(self).spec_handle_event(event).0,
            post == old(self).spec_handle_event(event).1,
    {
        match event {
            Event::Tick => {
                self.tick();
                None
            },
            Event::TimerTick => {
                self.clock.tick_timer();
                if self.clock.is_time_out() && matches!(self.screen, Screen::Clocks) {
                    Some(AppEvent::Timeout)
                } else {
                    None
                }
            },
            Event::Key(key) => self.handle_key_events(key),
            Event::App(app_event) => match app_event {
                AppEvent::Timeout => {
                    self.screen = Screen::TimeOut;
                    None
                },
                AppEvent::HitClock => {
                    self.hit_clock();
                    None
                },
                AppEvent::Quit => {
                    self.quit();
                    None
                },
            },
        }
    }

    /// Handle a render tick: redrawing reads the state and never mutates it.
    pub fn tick(&self) {
    }

    /// Stop the application loop.
    pub fn quit(&mut self)
        ensures
            *final(self) == (App { running: false, ..*old(self) }),
    {
        self.running = false;
    }

    /// Hit the clock, as [`Clock::spec_hit`] says.
    pub fn hit_clock(&mut self)
        ensures
            *final(self) == (App { clock: old(self).clock.spec_hit(), ..*old(self) }),
    {
        self.clock.hit();
    }

    /// Render ticks never mutate the state: consuming a render tick leaves
    /// the controller exactly as it was and posts nothing.
    pub proof fn lemma_render_tick_reads_only(self)
        ensures
            self.spec_handle_event(Event::Tick) == (self, None::<AppEvent>),
    {
    }
}

impl Default for App {
    /// A fresh controller, as [`App::spec_init`] describes it.
    fn default() -> (r: Self)
        ensures
            r == App::spec_init(),
    {
        App {
            running: true,
            screen: Screen::PickTimeCtrl,
            clock: Clock::default(),
            time_ctrl_picker: TimeCtrl::default(),
        }
    }
}

} // verus!
