//! Keyboard input: telling card scans from typing, and mapping keys to
//! messages.
//!
//! A card reader types the card's digits quickly and ends with Enter.  The
//! scanner keeps digits back until Enter (a scan), another key, or a pause
//! longer than the reader's maximal gap (typing) decides what they were.
use crate::app::App;
use crate::dialog::menu::application_menu;
use crate::dialog::Dialog;
use crate::key::{Key, KeyCode};
use crate::message::{result_wf, DialogOpenMode, DialogResult, Message};
use crate::page::{PageId, PageResult};
use crate::text::{is_ascii_digit, is_digit, string_from_chars};
use vstd::prelude::*;

verus! {

/// What the scanner made of a key.
#[derive(Debug)]
pub enum ScannerResult {
    /// Keys are held back until it is clear what they are.
    Waiting,
    /// A card was scanned: its digits.
    Scanned(String),
    /// The keys were typed; they go on to the application.
    NotScan(Vec<Key>),
}

/// Holds back digit keys that may belong to a card scan.
#[derive(Debug)]
pub struct Scanner {
    buffer: Vec<Key>,
    /// When the last held-back key came, in milliseconds.
    last_input: Option<u64>,
    max_gap_ms: u64,
}

/// A digit key.
pub open spec fn is_digit_key(k: Key) -> bool {
    k.code matches KeyCode::Char(c) && is_digit(c)
}

/// The characters of the character keys, in order.
pub open spec fn key_chars(keys: Seq<Key>) -> Seq<char>
    decreases keys.len(),
{
    if keys.len() == 0 {
        seq![]
    } else {
        key_chars(keys.drop_last()) + match keys.last().code {
            KeyCode::Char(c) => seq![c],
            _ => seq![],
        }
    }
}

impl Scanner {
    pub closed spec fn held(&self) -> Seq<Key> {
        self.buffer@
    }

    pub closed spec fn last_input_at(&self) -> Option<u64> {
        self.last_input
    }

    pub closed spec fn max_gap(&self) -> u64 {
        self.max_gap_ms
    }

    /// Only digit keys are held back, and only with a time.
    pub open spec fn wf(&self) -> bool {
        &&& forall|i: int| 0 <= i < self.held().len() ==> is_digit_key(#[trigger] self.held()[i])
        &&& self.held().len() > 0 ==> self.last_input_at() is Some
    }

    pub fn new(max_gap_ms: u64) -> (r: Scanner)
        ensures
            r.held() == Seq::<Key>::empty(),
            r.last_input_at() is None,
            r.max_gap() == max_gap_ms,
            r.wf(),
    {
        Scanner { buffer: Vec::new(), last_input: None, max_gap_ms }
    }

    /// Takes a key that came at time `now`: a digit is held back; Enter
    /// after held digits completes a scan; any other key releases the held
    /// digits together with itself.
    pub fn handle(&mut self, key: Key, now: u64) -> (r: ScannerResult)
        requires
            old(self).wf(),
        ensures
            final(self).wf(),
            final(self).max_gap() == old(self).max_gap(),
            is_digit_key(key) ==> r is Waiting && final(self).held() == old(self).held().push(key)
                && final(self).last_input_at() == Some(now),
            !is_digit_key(key) && key.code == KeyCode::Enter && old(self).held().len() > 0 ==> (
            r matches ScannerResult::Scanned(card) && card@ == key_chars(old(self).held()))
                && final(self).held().len() == 0 && final(self).last_input_at() is None,
            !is_digit_key(key) && key.code != KeyCode::Enter && old(self).held().len() > 0 ==> (
            r matches ScannerResult::NotScan(keys) && keys@ == old(self).held().push(key))
                && final(self).held().len() == 0 && final(self).last_input_at() is None,
            !is_digit_key(key) && old(self).held().len() == 0 ==> (r matches ScannerResult::NotScan(
                keys,
            ) && keys@ == seq![key]) && *final(self) == *old(self),
    {
        let digit = match key.code {
            KeyCode::Char(c) => is_ascii_digit(c),
            _ => false,
        };
        if digit {
            self.buffer.push(key);
            self.last_input = Some(now);
            return ScannerResult::Waiting;
        }
        if self.buffer.len() == 0 {
            let mut keys: Vec<Key> = Vec::new();
            keys.push(key);
            assert(keys@ =~= seq![key]);
            return ScannerResult::NotScan(keys);
        }
        let mut keys: Vec<Key> = Vec::new();
        std::mem::swap(&mut keys, &mut self.buffer);
        self.last_input = None;
        if key.code == KeyCode::Enter {
            let mut card: Vec<char> = Vec::new();
            let mut i: usize = 0;
            assert(keys@.take(0) =~= Seq::<Key>::empty());
            while i < keys.len()
                invariant
                    i <= keys@.len(),
                    card@ == key_chars(keys@.take(i as int)),
                decreases keys.len() - i,
            {
                assert(keys@.take(i + 1).drop_last() =~= keys@.take(i as int));
                match keys[i].code {
                    KeyCode::Char(c) => {
                        card.push(c);
                    },
                    _ => {},
                }
                i = i + 1;
            }
            assert(keys@.take(keys@.len() as int) =~= keys@);
            ScannerResult::Scanned(string_from_chars(card.as_slice()))
        } else {
            let mut keys = keys;
            keys.push(key);
            ScannerResult::NotScan(keys)
        }
    }

    /// Releases held digits as typing once the reader's maximal gap has
    /// passed since the last one.
    pub fn flush(&mut self, now: u64) -> (r: ScannerResult)
        requires
            old(self).wf(),
        ensures
            final(self).wf(),
            final(self).max_gap() == old(self).max_gap(),
            match old(self).last_input_at() {
                Some(last) if old(self).held().len() > 0 && now - last > old(self).max_gap() => (
                r matches ScannerResult::NotScan(keys) && keys@ == old(self).held())
                    && final(self).held().len() == 0 && final(self).last_input_at() is None,
                _ => r is Waiting && *final(self) == *old(self),
            },
    {
        if self.buffer.len() == 0 {
            return ScannerResult::Waiting;
        }
        let last = match self.last_input {
            Some(last) => last,
            None => {
                return ScannerResult::Waiting;
            },
        };
        if now <= last || now - last <= self.max_gap_ms {
            return ScannerResult::Waiting;
        }
        let mut keys: Vec<Key> = Vec::new();
        std::mem::swap(&mut keys, &mut self.buffer);
        self.last_input = None;
        ScannerResult::NotScan(keys)
    }
}

/// A card scan is the digits typed before Enter: a scanner that held
/// digit keys `held` turns Enter into exactly their characters.
pub proof fn scan_is_the_held_digits(held: Seq<Key>)
    requires
        forall|i: int| 0 <= i < held.len() ==> is_digit_key(#[trigger] held[i]),
    ensures
        key_chars(held).len() == held.len(),
        forall|i: int| 0 <= i < held.len() ==> is_digit(#[trigger] key_chars(held)[i]),
    decreases held.len(),
{
    if held.len() > 0 {
        scan_is_the_held_digits(held.drop_last());
        let rest = key_chars(held.drop_last());
        assert(held.last() == held[held.len() - 1]);
        assert forall|i: int| 0 <= i < held.len() implies is_digit(#[trigger] key_chars(held)[i]) by {
            if i < held.len() - 1 {
                assert(key_chars(held)[i] == rest[i]);
                assert(held.drop_last()[i] == held[i]);
            }
        }
    }
}

/// The keys that work everywhere when no dialog is open: Escape opens the
/// application menu, digits 1 to 4 switch pages.
pub open spec fn base_message(key: Key, m: Option<Message>) -> bool {
    match key.code {
        KeyCode::Esc => m matches Some(Message::OpenDialog { dialog: Dialog::Menu(menu), mode })
            && mode == DialogOpenMode::Push && menu.title == crate::dialog::menu::MenuTitle::Application
            && menu.options@ == crate::dialog::menu::application_options_spec(),
        _ => match PageId::of_key(key.code) {
            Some(p) => m == Some(Message::Navigate(p)),
            None => m is None,
        },
    }
}

/// The global keys available when no dialog is open.
pub fn map_key_base(app: &App, key: Key) -> (r: Option<Message>)
    ensures
        app.dialogs.entries().len() > 0 ==> r is None,
        app.dialogs.entries().len() == 0 ==> base_message(key, r),
        r matches Some(m) ==> m.wf(),
{
    if !app.dialogs.is_empty() {
        return None;
    }
    match key.code {
        KeyCode::Esc => Some(
            Message::OpenDialog { dialog: Dialog::Menu(application_menu()), mode: DialogOpenMode::Push },
        ),
        _ => match PageId::from_key(key.code) {
            Some(p) => Some(Message::Navigate(p)),
            None => None,
        },
    }
}

/// What mapping `key` does: the application `app` becomes `next`, and
/// the key gives the message `r`, if any.
pub open spec fn key_mapped(app: App, key: Key, next: App, r: Option<Message>) -> bool {
    let plain = !(key.control && (key.code == KeyCode::Char('q') || key.code == KeyCode::Char('l')));
    &&& key.code == KeyCode::Char('q') && key.control ==> (r matches Some(Message::Quit))
    &&& key.code == KeyCode::Char('l') && key.control ==> (r matches Some(Message::ToggleLanguage))
    &&& next.auth == app.auth
    &&& next.status == app.status
    &&& plain && app.dialogs.entries().len() == 0 ==> if key.code == KeyCode::Esc || PageId::of_key(
        key.code,
    ) is Some {
        &&& base_message(key, r)
        &&& app.only_dialogs_changed(next)
        &&& next.dialogs.entries() == app.dialogs.entries()
    } else {
        &&& next.dialogs.entries() == app.dialogs.entries()
        &&& next.pending() == app.pending()
        &&& next.active_admin == app.active_admin
        &&& next.should_quit == app.should_quit
        &&& next.locale_request == app.locale_request
        &&& exists|res: PageResult<Key>|
            #[trigger] app.page.key_step(key, next.page, res) && r == match res {
                PageResult::Message(m) => Some(m),
                _ => None,
            }
    }
    &&& plain && app.dialogs.entries().len() > 0 ==> {
        let before = app.dialogs.entries();
        let after = next.dialogs.entries();
        &&& after.len() == before.len()
        &&& after.drop_last() == before.drop_last()
        &&& before.last().same_kind(after.last(), after.last().dialog())
        &&& next.pending() == app.pending()
        &&& next.active_admin == app.active_admin
        &&& next.should_quit == app.should_quit
        &&& next.locale_request == app.locale_request
        &&& exists|res: DialogResult<Key>|
            #[trigger] before.last().dialog().key_step(key, after.last().dialog(), res) && match res {
                DialogResult::Consumed => r is None && next.page == app.page,
                DialogResult::Message(m) => r == Some(m) && next.page == app.page,
                DialogResult::Unhandled(k) => exists|pres: PageResult<Key>|
                    #[trigger] app.page.key_step(k, next.page, pres) && r == match pres {
                        PageResult::Message(m) => Some(m),
                        _ => None,
                    },
            }
    }
}

/// Maps a typed key to a message: Ctrl-Q quits, Ctrl-L toggles the
/// language; otherwise the top dialog, then the global keys, then the page
/// get the key.
pub fn map_key(app: &mut App, key: Key) -> (r: Option<Message>)
    requires
        old(app).wf(),
    ensures
        final(app).wf(),
        r matches Some(m) ==> m.wf(),
        key_mapped(*old(app), key, *final(app), r),
{
    if key.code == KeyCode::Char('q') && key.control {
        return Some(Message::Quit);
    }
    if key.code == KeyCode::Char('l') && key.control {
        return Some(Message::ToggleLanguage);
    }
    let key = match app.dialogs.handle_key(key) {
        DialogResult::Consumed => {
            return None;
        },
        DialogResult::Message(message) => {
            return Some(message);
        },
        DialogResult::Unhandled(key) => key,
    };
    match map_key_base(app, key) {
        Some(message) => {
            return Some(message);
        },
        None => {},
    }
    match app.page.handle_key(key) {
        PageResult::Message(message) => Some(message),
        _ => None,
    }
}

/// The messages among optional ones, in order.
pub open spec fn present(outs: Seq<Option<Message>>) -> Seq<Message>
    decreases outs.len(),
{
    if outs.len() == 0 {
        Seq::empty()
    } else {
        present(outs.drop_last()) + match outs.last() {
            Some(m) => seq![m],
            None => Seq::empty(),
        }
    }
}

/// Mapping `keys` one after the other takes the application from `start`
/// through the states `apps` to `end`; key `i` gives `outs[i]`, and the
/// messages are those that came.
pub open spec fn keys_run(
    start: App,
    keys: Seq<Key>,
    end: App,
    apps: Seq<App>,
    outs: Seq<Option<Message>>,
    msgs: Seq<Message>,
) -> bool {
    &&& apps.len() == keys.len() + 1
    &&& outs.len() == keys.len()
    &&& apps[0] == start
    &&& apps[keys.len() as int] == end
    &&& forall|i: int|
        0 <= i < keys.len() ==> key_mapped(#[trigger] apps[i], keys[i], apps[i + 1], outs[i])
    &&& msgs == present(outs)
}

/// The keyboard side of the client: the scanner in front of the key map.
#[derive(Debug)]
pub struct Input {
    pub scanner: Scanner,
}

impl Input {
    pub open spec fn wf(&self) -> bool {
        self.scanner.wf()
    }

    pub fn new(scanner_max_gap_ms: u64) -> (r: Input)
        ensures
            r.wf(),
            r.scanner.max_gap() == scanner_max_gap_ms,
            r.scanner.held().len() == 0,
    {
        Input { scanner: Scanner::new(scanner_max_gap_ms) }
    }

    /// The messages for a key that came at time `now`.
    pub fn handle(&mut self, app: &mut App, key: Key, now: u64) -> (r: Vec<Message>)
        requires
            old(self).wf(),
            old(app).wf(),
        ensures
            final(self).wf(),
            final(app).wf(),
            forall|i: int| 0 <= i < r@.len() ==> (#[trigger] r@[i]).wf(),
            is_digit_key(key) ==> r@.len() == 0 && *final(app) == *old(app),
            !is_digit_key(key) && key.code == KeyCode::Enter && old(self).scanner.held().len() > 0
                ==> {
                &&& r@.len() == 1
                &&& r@[0] matches Message::CardScanned(card) && card@ == key_chars(
                    old(self).scanner.held(),
                )
                &&& *final(app) == *old(app)
            },
            r@.len() <= old(self).scanner.held().len() + 1,
            !is_digit_key(key) && !(key.code == KeyCode::Enter && old(self).scanner.held().len()
                > 0) ==> {
                &&& final(self).scanner.held().len() == 0
                &&& exists|apps: Seq<App>, outs: Seq<Option<Message>>|
                    #[trigger] keys_run(
                        *old(app),
                        old(self).scanner.held().push(key),
                        *final(app),
                        apps,
                        outs,
                        r@,
                    )
            },
    {
        let ghost held = self.scanner.held();
        match self.scanner.handle(key, now) {
            ScannerResult::Waiting => Vec::new(),
            ScannerResult::Scanned(card) => {
                let mut v: Vec<Message> = Vec::new();
                v.push(Message::CardScanned(card));
                v
            },
            ScannerResult::NotScan(keys) => {
                proof {
                    if held.len() == 0 {
                        assert(keys@ =~= held.push(key));
                    }
                }
                Input::map_keys(app, keys)
            },
        }
    }

    /// The messages for held digits released by the passing of time.
    pub fn tick(&mut self, app: &mut App, now: u64) -> (r: Vec<Message>)
        requires
            old(self).wf(),
            old(app).wf(),
        ensures
            final(self).wf(),
            final(app).wf(),
            forall|i: int| 0 <= i < r@.len() ==> (#[trigger] r@[i]).wf(),
            final(self).scanner.max_gap() == old(self).scanner.max_gap(),
            match old(self).scanner.last_input_at() {
                Some(last) if old(self).scanner.held().len() > 0 && now - last > old(
                    self,
                ).scanner.max_gap() => {
                    &&& final(self).scanner.held().len() == 0
                    &&& final(self).scanner.last_input_at() is None
                    &&& exists|apps: Seq<App>, outs: Seq<Option<Message>>|
                        #[trigger] keys_run(
                            *old(app),
                            old(self).scanner.held(),
                            *final(app),
                            apps,
                            outs,
                            r@,
                        )
                },
                _ => r@.len() == 0 && *final(self) == *old(self) && *final(app) == *old(app),
            },
    {
        match self.scanner.flush(now) {
            ScannerResult::NotScan(keys) => Input::map_keys(app, keys),
            _ => Vec::new(),
        }
    }

    /// Maps each key in order, keeping the messages.
    pub fn map_keys(app: &mut App, keys: Vec<Key>) -> (r: Vec<Message>)
        requires
            old(app).wf(),
        ensures
            final(app).wf(),
            forall|i: int| 0 <= i < r@.len() ==> (#[trigger] r@[i]).wf(),
            r@.len() <= keys@.len(),
            exists|apps: Seq<App>, outs: Seq<Option<Message>>|
                #[trigger] keys_run(*old(app), keys@, *final(app), apps, outs, r@),
    {
        let mut out: Vec<Message> = Vec::new();
        let mut i: usize = 0;
        let ghost mut apps: Seq<App> = seq![*app];
        let ghost mut outs: Seq<Option<Message>> = Seq::empty();
        while i < keys.len()
            invariant
                i <= keys@.len(),
                app.wf(),
                out@.len() <= i,
                forall|j: int| 0 <= j < out@.len() ==> (#[trigger] out@[j]).wf(),
                apps.len() == i + 1,
                outs.len() == i,
                apps[0] == *old(app),
                apps[i as int] == *app,
                forall|j: int|
                    0 <= j < i ==> key_mapped(#[trigger] apps[j], keys@[j], apps[j + 1], outs[j]),
                out@ == present(outs),
            decreases keys.len() - i,
        {
            let m = map_key(app, keys[i]);
            proof {
                assert(outs.push(m).drop_last() =~= outs);
                apps = apps.push(*app);
                outs = outs.push(m);
            }
            match m {
                Some(m) => out.push(m),
                None => {},
            }
            assert(out@ =~= present(outs));
            i = i + 1;
        }
        assert(keys_run(*old(app), keys@, *app, apps, outs, out@));
        out
    }
}

} // verus!
