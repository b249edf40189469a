//! Menus: the application menu, the language menu and the administrator
//! menu, whose last entry follows the administrator session.
use crate::auth::AuthState;
use crate::dialog::basic::{AdminSessionLoginDialog, RevokeAdminDialog, TopUpDialog};
use crate::dialog::forms::{GrantAdminDialog, MakeUserDialog, UpdateUserDialog};
use crate::dialog::Dialog;
use crate::key::{Key, KeyCode};
use crate::message::{DialogOpenMode, DialogResult, Message};
use crate::request::ApiRequest;
use vstd::prelude::*;

verus! {

/// A language of the user interface.
#[derive(Clone, Copy, Debug, PartialEq, Eq, Structural)]
pub enum Language {
    English,
    NorwegianBokmaal,
}

impl Language {
    pub open spec fn locale_text(self) -> Seq<char> {
        match self {
            Language::English => "en"@,
            Language::NorwegianBokmaal => "nb"@,
        }
    }

    /// The locale code of the language.
    pub fn locale(self) -> (r: &'static str)
        ensures
            r@ == self.locale_text(),
    {
        match self {
            Language::English => "en",
            Language::NorwegianBokmaal => "nb",
        }
    }
}

/// The language that toggling switches to from the current locale:
/// English from Norwegian Bokmål, Norwegian Bokmål from anything else.
pub open spec fn toggled_language_spec(current: Seq<char>) -> Language {
    if current == "nb"@ {
        Language::English
    } else {
        Language::NorwegianBokmaal
    }
}

pub fn toggled_language(current: &str) -> (r: Language)
    ensures
        r == toggled_language_spec(current@),
{
    proof {
        reveal_strlit("nb");
    }
    let v = crate::text::chars_of(current);
    if v.len() == 2 && v[0] == 'n' && v[1] == 'b' {
        assert(v@ =~= "nb"@);
        Language::English
    } else {
        assert(current@ != "nb"@) by {
            if current@ == "nb"@ {
                assert(v@[0] == 'n' && v@[1] == 'b');
            }
        }
        Language::NorwegianBokmaal
    }
}

/// The title of a menu.
#[derive(Clone, Copy, Debug, PartialEq, Eq, Structural)]
pub enum MenuTitle {
    Admin,
    Application,
    Language,
}

/// Whether a menu is the administrator menu, and whether it shows the
/// session as running.
#[derive(Clone, Copy, Debug, PartialEq, Eq, Structural)]
pub enum MenuKind {
    Normal,
    Admin { logged_in: bool },
}

/// The label of a menu entry.
#[derive(Clone, Copy, Debug, PartialEq, Eq, Structural)]
pub enum MenuLabel {
    About,
    ChangeLanguage,
    Quit,
    English,
    NorwegianBokmaal,
    TopUp,
    MakeUser,
    UpdateUser,
    GrantAdmin,
    RevokeAdmin,
    Login,
    Logout,
}

/// What choosing a menu entry does.
#[derive(Clone, Copy, Debug, PartialEq, Eq, Structural)]
pub enum MenuAction {
    OpenTopUp,
    OpenMakeUser,
    OpenUpdateUser,
    OpenGrantAdmin,
    OpenRevokeAdmin,
    Logout,
    Login,
    OpenLanguageMenu,
    Quit,
    SetLanguage(Language),
}

impl MenuAction {
    /// `r` is the message that choosing the entry sends.
    pub open spec fn sends(self, r: Message) -> bool {
        match self {
            MenuAction::OpenTopUp => r matches Message::OpenDialog { dialog: Dialog::TopUp(d), mode }
                && mode == DialogOpenMode::Push && d.is_new(),
            MenuAction::OpenMakeUser => r matches Message::OpenDialog {
                dialog: Dialog::MakeUser(d),
                mode,
            } && mode == DialogOpenMode::Push && d.is_new(),
            MenuAction::OpenUpdateUser => r matches Message::OpenDialog {
                dialog: Dialog::UpdateUser(d),
                mode,
            } && mode == DialogOpenMode::Push && d.is_new(),
            MenuAction::OpenGrantAdmin => r matches Message::OpenDialog {
                dialog: Dialog::GrantAdmin(d),
                mode,
            } && mode == DialogOpenMode::Push && d.is_new(),
            MenuAction::OpenRevokeAdmin => r matches Message::OpenDialog {
                dialog: Dialog::RevokeAdmin(d),
                mode,
            } && mode == DialogOpenMode::Push && d.card is None,
            MenuAction::Logout => r matches Message::ApiRequest(ApiRequest::EndAdminSession),
            MenuAction::Login => r matches Message::OpenAdminDialog {
                dialog: Dialog::AdminSessionLogin(d),
                mode,
            } && mode == DialogOpenMode::Push && d.is_new(),
            MenuAction::OpenLanguageMenu => r matches Message::OpenDialog {
                dialog: Dialog::Menu(m),
                mode,
            } && mode == DialogOpenMode::Push && m.is_language_menu(),
            MenuAction::Quit => r is Quit,
            MenuAction::SetLanguage(l) => r == Message::SetLanguage(l),
        }
    }

    /// The message that choosing the entry sends.
    pub fn message(&self) -> (r: Message)
        ensures
            self.sends(r),
    {
        match self {
            MenuAction::OpenTopUp => Message::OpenDialog {
                dialog: Dialog::TopUp(TopUpDialog::new()),
                mode: DialogOpenMode::Push,
            },
            MenuAction::OpenMakeUser => Message::OpenDialog {
                dialog: Dialog::MakeUser(MakeUserDialog::new()),
                mode: DialogOpenMode::Push,
            },
            MenuAction::OpenUpdateUser => Message::OpenDialog {
                dialog: Dialog::UpdateUser(UpdateUserDialog::new()),
                mode: DialogOpenMode::Push,
            },
            MenuAction::OpenGrantAdmin => Message::OpenDialog {
                dialog: Dialog::GrantAdmin(GrantAdminDialog::new()),
                mode: DialogOpenMode::Push,
            },
            MenuAction::OpenRevokeAdmin => Message::OpenDialog {
                dialog: Dialog::RevokeAdmin(RevokeAdminDialog::new()),
                mode: DialogOpenMode::Push,
            },
            MenuAction::Logout => Message::ApiRequest(ApiRequest::EndAdminSession),
            MenuAction::Login => Message::OpenAdminDialog {
                dialog: Dialog::AdminSessionLogin(AdminSessionLoginDialog::new()),
                mode: DialogOpenMode::Push,
            },
            MenuAction::OpenLanguageMenu => Message::OpenDialog {
                dialog: Dialog::Menu(language_menu()),
                mode: DialogOpenMode::Push,
            },
            MenuAction::Quit => Message::Quit,
            MenuAction::SetLanguage(l) => Message::SetLanguage(*l),
        }
    }
}

/// One entry of a menu: its label, the key that chooses it, and what it does.
#[derive(Clone, Copy, Debug, PartialEq, Eq, Structural)]
pub struct MenuOption {
    pub label: MenuLabel,
    pub key: char,
    pub action: MenuAction,
}

impl MenuOption {
    pub fn new(label: MenuLabel, key: char, action: MenuAction) -> (r: MenuOption)
        ensures
            r == (MenuOption { label, key, action }),
    {
        MenuOption { label, key, action }
    }
}

/// ASCII lower-casing of a character (std `char::to_ascii_lowercase`).
pub open spec fn ascii_lower(c: char) -> int {
    if 'A' <= c && c <= 'Z' {
        (c as u32) + 32
    } else {
        (c as u32) as int
    }
}

/// std `char::eq_ignore_ascii_case`.
pub fn eq_ignore_ascii_case(a: char, b: char) -> (r: bool)
    ensures
        r == (ascii_lower(a) == ascii_lower(b)),
{
    let x: u32 = if 'A' <= a && a <= 'Z' {
        a as u32 + 32
    } else {
        a as u32
    };
    let y: u32 = if 'A' <= b && b <= 'Z' {
        b as u32 + 32
    } else {
        b as u32
    };
    x == y
}

/// The first entry, at or after `from`, whose key matches `c` regardless of
/// ASCII case.
pub open spec fn first_match(options: Seq<MenuOption>, c: char, from: int) -> Option<int>
    decreases options.len() - from,
{
    if from < 0 || from >= options.len() {
        None
    } else if ascii_lower(options[from].key) == ascii_lower(c) {
        Some(from)
    } else {
        first_match(options, c, from + 1)
    }
}

/// A menu: a title and entries chosen by key.
#[derive(Clone, Debug)]
pub struct MenuDialog {
    pub title: MenuTitle,
    pub options: Vec<MenuOption>,
    pub kind: MenuKind,
}

/// The entries of the administrator menu; the last one logs out when a
/// session runs and logs in otherwise.
pub open spec fn admin_options_spec(logged_in: bool) -> Seq<MenuOption> {
    seq![
        MenuOption { label: MenuLabel::TopUp, key: 'T', action: MenuAction::OpenTopUp },
        MenuOption { label: MenuLabel::MakeUser, key: 'M', action: MenuAction::OpenMakeUser },
        MenuOption { label: MenuLabel::UpdateUser, key: 'U', action: MenuAction::OpenUpdateUser },
        MenuOption { label: MenuLabel::GrantAdmin, key: 'G', action: MenuAction::OpenGrantAdmin },
        MenuOption { label: MenuLabel::RevokeAdmin, key: 'R', action: MenuAction::OpenRevokeAdmin },
        if logged_in {
            MenuOption { label: MenuLabel::Logout, key: 'L', action: MenuAction::Logout }
        } else {
            MenuOption { label: MenuLabel::Login, key: 'L', action: MenuAction::Login }
        },
    ]
}

pub open spec fn application_options_spec() -> Seq<MenuOption> {
    seq![
        MenuOption {
            label: MenuLabel::ChangeLanguage,
            key: 'L',
            action: MenuAction::OpenLanguageMenu,
        },
        MenuOption { label: MenuLabel::Quit, key: 'Q', action: MenuAction::Quit },
    ]
}

pub open spec fn language_options_spec() -> Seq<MenuOption> {
    seq![
        MenuOption {
            label: MenuLabel::English,
            key: 'E',
            action: MenuAction::SetLanguage(Language::English),
        },
        MenuOption {
            label: MenuLabel::NorwegianBokmaal,
            key: 'N',
            action: MenuAction::SetLanguage(Language::NorwegianBokmaal),
        },
    ]
}

/// The entries of the administrator menu.
pub fn admin_options(logged_in: bool) -> (r: Vec<MenuOption>)
    ensures
        r@ == admin_options_spec(logged_in),
{
    let mut v: Vec<MenuOption> = Vec::new();
    v.push(MenuOption::new(MenuLabel::TopUp, 'T', MenuAction::OpenTopUp));
    v.push(MenuOption::new(MenuLabel::MakeUser, 'M', MenuAction::OpenMakeUser));
    v.push(MenuOption::new(MenuLabel::UpdateUser, 'U', MenuAction::OpenUpdateUser));
    v.push(MenuOption::new(MenuLabel::GrantAdmin, 'G', MenuAction::OpenGrantAdmin));
    v.push(MenuOption::new(MenuLabel::RevokeAdmin, 'R', MenuAction::OpenRevokeAdmin));
    if logged_in {
        v.push(MenuOption::new(MenuLabel::Logout, 'L', MenuAction::Logout));
    } else {
        v.push(MenuOption::new(MenuLabel::Login, 'L', MenuAction::Login));
    }
    assert(v@ =~= admin_options_spec(logged_in));
    v
}

/// The administrator menu, before any session has been seen.
pub fn admin_menu() -> (r: MenuDialog)
    ensures
        r.is_admin_menu_for(false),
{
    MenuDialog {
        title: MenuTitle::Admin,
        options: admin_options(false),
        kind: MenuKind::Admin { logged_in: false },
    }
}

/// The application menu: change language, quit.
pub fn application_menu() -> (r: MenuDialog)
    ensures
        r.title == MenuTitle::Application,
        r.kind == MenuKind::Normal,
        r.options@ == application_options_spec(),
{
    let mut v: Vec<MenuOption> = Vec::new();
    v.push(MenuOption::new(MenuLabel::ChangeLanguage, 'L', MenuAction::OpenLanguageMenu));
    v.push(MenuOption::new(MenuLabel::Quit, 'Q', MenuAction::Quit));
    assert(v@ =~= application_options_spec());
    MenuDialog { title: MenuTitle::Application, options: v, kind: MenuKind::Normal }
}

/// The language menu: English, Norwegian Bokmål.
pub fn language_menu() -> (r: MenuDialog)
    ensures
        r.is_language_menu(),
{
    let mut v: Vec<MenuOption> = Vec::new();
    v.push(
        MenuOption::new(MenuLabel::English, 'E', MenuAction::SetLanguage(Language::English)),
    );
    v.push(
        MenuOption::new(
            MenuLabel::NorwegianBokmaal,
            'N',
            MenuAction::SetLanguage(Language::NorwegianBokmaal),
        ),
    );
    assert(v@ =~= language_options_spec());
    MenuDialog { title: MenuTitle::Language, options: v, kind: MenuKind::Normal }
}

impl MenuDialog {
    pub open spec fn is_admin_menu_for(self, logged_in: bool) -> bool {
        &&& self.title == MenuTitle::Admin
        &&& self.kind == MenuKind::Admin { logged_in }
        &&& self.options@ == admin_options_spec(logged_in)
    }

    pub open spec fn is_language_menu(self) -> bool {
        &&& self.title == MenuTitle::Language
        &&& self.kind == MenuKind::Normal
        &&& self.options@ == language_options_spec()
    }

    pub fn new(title: MenuTitle, options: Vec<MenuOption>, kind: MenuKind) -> (r: MenuDialog)
        ensures
            r.title == title,
            r.options == options,
            r.kind == kind,
    {
        MenuDialog { title, options, kind }
    }

    pub open spec fn key_step(self, key: Key, next: Self, r: DialogResult<Key>) -> bool {
        next == self && match key.code {
            KeyCode::Char(c) => match first_match(self.options@, c, 0) {
                Some(i) => r is Message && self.options@[i].action.sends(r->Message_0),
                None => r == DialogResult::Unhandled(key),
            },
            _ => r == DialogResult::Unhandled(key),
        }
    }

    /// A character key chooses the first entry whose key matches it,
    /// ignoring ASCII case; other keys are handed back.
    pub fn handle_key_inner(&mut self, key: Key) -> (r: DialogResult<Key>)
        ensures
            old(self).key_step(key, *final(self), r),
    {
        let c = match key.code {
            KeyCode::Char(c) => c,
            _ => {
                return DialogResult::Unhandled(key);
            },
        };
        let n = self.options.len();
        let mut i: usize = 0;
        while i < n
            invariant
                i <= n,
                n == self.options@.len(),
                *self == *old(self),
                key.code == KeyCode::Char(c),
                first_match(self.options@, c, 0) == first_match(self.options@, c, i as int),
            decreases n - i,
        {
            if eq_ignore_ascii_case(self.options[i].key, c) {
                assert(first_match(self.options@, c, i as int) == Some(i as int));
                return DialogResult::Message(self.options[i].action.message());
            }
            i = i + 1;
        }
        DialogResult::Unhandled(key)
    }

    /// The administrator menu rebuilds its entries when the session state
    /// changes; other menus ignore it.
    pub fn set_auth_state(&mut self, state: &AuthState)
        ensures
            final(self).title == old(self).title,
            match old(self).kind {
                MenuKind::Admin { logged_in } => {
                    let next = state is Admin;
                    if logged_in != next {
                        final(self).kind == (MenuKind::Admin { logged_in: next })
                            && final(self).options@ == admin_options_spec(next)
                    } else {
                        *final(self) == *old(self)
                    }
                },
                MenuKind::Normal => *final(self) == *old(self),
            },
    {
        let logged_in = match self.kind {
            MenuKind::Admin { logged_in } => logged_in,
            MenuKind::Normal => {
                return;
            },
        };
        let next = match state {
            AuthState::Admin(_) => true,
            AuthState::Normal => false,
        };
        if logged_in != next {
            self.kind = MenuKind::Admin { logged_in: next };
            self.options = admin_options(next);
        }
    }
}

/// An administrator menu that follows the session shows the entries for
/// the session state it was last told of.
pub proof fn admin_menu_follows_session(m: MenuDialog, next: MenuDialog, state: AuthState)
    requires
        m.is_admin_menu_for(m.kind->logged_in),
        m.kind is Admin,
        next.title == m.title,
        (match m.kind {
            MenuKind::Admin { logged_in } => {
                let n = state is Admin;
                if logged_in != n {
                    next.kind == (MenuKind::Admin { logged_in: n }) && next.options@
                        == admin_options_spec(n)
                } else {
                    next == m
                }
            },
            MenuKind::Normal => next == m,
        }),
    ensures
        next.is_admin_menu_for(state is Admin),
{
}

} // verus!
