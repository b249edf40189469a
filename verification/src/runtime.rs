//! What the terminal shows, and the keys that act on the whole program.
//!
//! The client starts on the splash, shows the application after a short
//! while, and goes back to the splash when no key has come for the idle
//! timeout.  Times are milliseconds on a clock the front end reads; the
//! front end draws, reads events and runs the commands the application
//! asks for.
use crate::app::App;
use crate::client::ApiClient;
use crate::input::{is_digit_key, key_chars, keys_run, Input};
use crate::key::{Key, KeyCode, KeyKind};
use crate::message::Message;
use crate::splash::{roll_selects, total_weight, Splash};
use vstd::prelude::*;

verus! {

/// How long the startup splash shows, in milliseconds.
pub const STARTUP_SPLASH_MS: u64 = 1250;

/// What the terminal shows.
#[derive(Clone, Copy, Debug, PartialEq, Eq, Structural)]
pub enum DisplayState {
    /// The splash shown at start, since the given time.
    StartupSplash { started: u64 },
    /// The application.
    Active,
    /// The splash shown while nobody uses the client.
    Idle,
}

/// The time from `since` to `now`; nothing when `now` is earlier.
pub open spec fn elapsed(now: u64, since: u64) -> int {
    if now >= since {
        now - since
    } else {
        0
    }
}

/// The running client.
#[derive(Debug)]
pub struct Runtime {
    pub app: App,
    pub api: ApiClient,
    pub input: Input,
    pub event_poll_interval_ms: u64,
    pub idle_timeout_ms: u64,
    pub last_activity: u64,
    pub splash: Splash,
    pub display_state: DisplayState,
}

impl Runtime {
    pub open spec fn wf(&self) -> bool {
        &&& self.app.wf()
        &&& self.input.wf()
        &&& self.splash.wf()
    }

    /// The state after going idle: the splash rolled for a variant, and
    /// every dialog closed.
    pub open spec fn went_idle(self, next: Self) -> bool {
        &&& next.display_state is Idle
        &&& next.app.dialogs.entries().len() == 0
        &&& next.app == (App { dialogs: next.app.dialogs, ..self.app })
        &&& next.splash.variants() == self.splash.variants()
        &&& next.splash.cached() is None
        &&& exists|roll: int|
            0 <= roll < total_weight(self.splash.variants()) && roll_selects(
                self.splash.variants(),
                roll,
                next.splash.selected(),
            )
        &&& next.input == self.input
        &&& next.api == self.api
        &&& next.last_activity == self.last_activity
        &&& next.idle_timeout_ms == self.idle_timeout_ms
        &&& next.event_poll_interval_ms == self.event_poll_interval_ms
    }

    /// What the passing of time to `now` does to the display.
    pub open spec fn display_step(self, now: u64, next: Self) -> bool {
        match self.display_state {
            DisplayState::StartupSplash { started } => if elapsed(now, started) >= STARTUP_SPLASH_MS {
                next == (Runtime { display_state: DisplayState::Active, last_activity: now, ..self })
            } else {
                next == self
            },
            DisplayState::Active => if elapsed(now, self.last_activity) >= self.idle_timeout_ms {
                self.went_idle(next)
            } else {
                next == self
            },
            DisplayState::Idle => next == self,
        }
    }

    /// A client that starts on the splash at time `now`.  The idle timeout
    /// is given in seconds; one too long for milliseconds to count is
    /// taken as the longest they can.
    pub fn new(
        app: App,
        api: ApiClient,
        input: Input,
        event_poll_interval_ms: u64,
        idle_after_seconds: u64,
        splash: Splash,
        now: u64,
    ) -> (r: Runtime)
        ensures
            r.app == app,
            r.api == api,
            r.input == input,
            r.splash == splash,
            r.event_poll_interval_ms == event_poll_interval_ms,
            r.idle_timeout_ms == if idle_after_seconds * 1000 <= u64::MAX {
                idle_after_seconds * 1000
            } else {
                u64::MAX as int
            },
            r.last_activity == now,
            r.display_state == (DisplayState::StartupSplash { started: now }),
    {
        let idle_timeout_ms = match idle_after_seconds.checked_mul(1000) {
            Some(ms) => ms,
            None => u64::MAX,
        };
        Runtime {
            app,
            api,
            input,
            event_poll_interval_ms,
            idle_timeout_ms,
            last_activity: now,
            splash,
            display_state: DisplayState::StartupSplash { started: now },
        }
    }

    /// Shows the application, counting activity from `now`.
    pub fn activate(&mut self, now: u64)
        ensures
            *final(self) == (Runtime {
                display_state: DisplayState::Active,
                last_activity: now,
                ..*old(self)
            }),
    {
        self.display_state = DisplayState::Active;
        self.last_activity = now;
    }

    /// Goes to the idle splash and closes every dialog.
    pub fn idle(&mut self)
        requires
            old(self).wf(),
        ensures
            final(self).wf(),
            old(self).went_idle(*final(self)),
    {
        self.splash.begin_idle();
        self.display_state = DisplayState::Idle;
        self.app.dialogs.clear();
    }

    /// Moves the display on to time `now`: the startup splash gives way to
    /// the application, and the application to the idle splash when no key
    /// came for the idle timeout.
    pub fn update_display_state(&mut self, now: u64)
        requires
            old(self).wf(),
        ensures
            final(self).wf(),
            old(self).display_step(now, *final(self)),
    {
        match self.display_state {
            DisplayState::StartupSplash { started } => {
                if now.saturating_sub(started) >= STARTUP_SPLASH_MS {
                    self.activate(now);
                }
            },
            DisplayState::Active => {
                if now.saturating_sub(self.last_activity) >= self.idle_timeout_ms {
                    self.idle();
                }
            },
            DisplayState::Idle => {},
        }
    }

    /// Moves the display on to `now` and tells whether the splash shows.
    pub fn prepare_frame(&mut self, now: u64) -> (r: bool)
        requires
            old(self).wf(),
        ensures
            final(self).wf(),
            old(self).display_step(now, *final(self)),
            r == !(final(self).display_state is Active),
    {
        self.update_display_state(now);
        match self.display_state {
            DisplayState::Active => false,
            _ => true,
        }
    }

    /// Answers a key that acts on the whole program; tells whether it
    /// did.  Control-Q quits.  Control-S on the idle splash shows the next
    /// picture, and in the application goes to the idle splash at once,
    /// leaving the dialogs open.
    pub fn handle_global_key(&mut self, key: Key) -> (r: bool)
        requires
            old(self).wf(),
        ensures
            final(self).wf(),
            !(key.kind == KeyKind::Press && key.control) ==> !r && *final(self) == *old(self),
            key.kind == KeyKind::Press && key.control && key.code == KeyCode::Char('q') ==> {
                &&& r
                &&& final(self).app.should_quit
                &&& *final(self) == (Runtime { app: final(self).app, ..*old(self) })
            },
            key.kind == KeyKind::Press && key.control && key.code == KeyCode::Char('s') ==> match old(
                self,
            ).display_state {
                DisplayState::Idle => {
                    &&& r
                    &&& final(self).splash.variants() == old(self).splash.variants()
                    &&& final(self).splash.selected() == if old(self).splash.selected() + 1
                        == old(self).splash.variants().len() {
                        0
                    } else {
                        old(self).splash.selected() + 1
                    }
                    &&& *final(self) == (Runtime { splash: final(self).splash, ..*old(self) })
                },
                DisplayState::Active => {
                    &&& r
                    &&& final(self).display_state is Idle
                    &&& final(self).splash.variants() == old(self).splash.variants()
                    &&& final(self).splash.cached() is None
                    &&& exists|roll: int|
                        0 <= roll < total_weight(old(self).splash.variants()) && roll_selects(
                            old(self).splash.variants(),
                            roll,
                            final(self).splash.selected(),
                        )
                    &&& *final(self) == (Runtime {
                        splash: final(self).splash,
                        display_state: DisplayState::Idle,
                        ..*old(self)
                    })
                },
                DisplayState::StartupSplash { .. } => !r && *final(self) == *old(self),
            },
            key.kind == KeyKind::Press && key.control && key.code != KeyCode::Char('q')
                && key.code != KeyCode::Char('s') ==> !r && *final(self) == *old(self),
    {
        if key.kind != KeyKind::Press || !key.control {
            return false;
        }
        match key.code {
            KeyCode::Char('q') => {
                self.app.update(Message::Quit);
                true
            },
            KeyCode::Char('s') => match self.display_state {
                DisplayState::Idle => {
                    self.splash.next_variant();
                    true
                },
                DisplayState::Active => {
                    self.splash.begin_idle();
                    self.display_state = DisplayState::Idle;
                    true
                },
                DisplayState::StartupSplash { .. } => false,
            },
            _ => false,
        }
    }

    /// Answers a key that came at `now`: the display first moves on to
    /// `now`; a key for the whole program is answered; any other key
    /// shows the application, counts as activity and goes to the input,
    /// whose messages are returned for the front end to dispatch.
    pub fn handle_event(&mut self, key: Key, now: u64) -> (r: Vec<Message>)
        requires
            old(self).wf(),
        ensures
            final(self).wf(),
            forall|i: int| 0 <= i < r@.len() ==> (#[trigger] r@[i]).wf(),
            key.kind == KeyKind::Press && key.control && key.code == KeyCode::Char('q') ==> r@.len()
                == 0 && final(self).app.should_quit,
            !(key.kind == KeyKind::Press && key.control) ==> final(self).display_state is Active
                && final(self).last_activity == now,
            !key.control && is_digit_key(key) ==> r@.len() == 0,
            !key.control && key.code == KeyCode::Enter && old(self).input.scanner.held().len() > 0
                ==> r@.len() == 1 && (r@[0] matches Message::CardScanned(card) && card@ == key_chars(
                old(self).input.scanner.held(),
            )),
            !(key.kind == KeyKind::Press && key.control) && !is_digit_key(key) && !(key.code
                == KeyCode::Enter && old(self).input.scanner.held().len() > 0) ==> exists|
                mid: Runtime,
                apps: Seq<App>,
                outs: Seq<Option<Message>>,
            |
                old(self).display_step(now, mid) && #[trigger] keys_run(
                    mid.app,
                    old(self).input.scanner.held().push(key),
                    final(self).app,
                    apps,
                    outs,
                    r@,
                ),
    {
        self.update_display_state(now);
        if self.handle_global_key(key) {
            return Vec::new();
        }
        self.activate(now);
        self.input.handle(&mut self.app, key, now)
    }
}

} // verus!
