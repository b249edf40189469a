//! Dialogs: their states, how each answers keys, card scans and finished
//! requests, and the stack that holds the open ones.
pub mod basic;
pub mod forms;
pub mod menu;
pub mod stack;

use crate::auth::{AdminContext, AuthState};
use crate::key::{Key, KeyCode};
use crate::message::{result_wf, DialogResult, Message};
use crate::request::ApiResult;
use basic::{AboutDialog, AdminAuthDialog, AdminSessionLoginDialog, RevokeAdminDialog, TopUpDialog, UserDialog};
use forms::{GrantAdminDialog, MakeUserDialog, UpdateUserDialog};
use menu::{MenuDialog, MenuKind};
use vstd::prelude::*;

verus! {

/// An open dialog.
#[derive(Debug)]
pub enum Dialog {
    About(AboutDialog),
    AdminAuth(AdminAuthDialog),
    AdminSessionLogin(AdminSessionLoginDialog),
    GrantAdmin(GrantAdminDialog),
    MakeUser(MakeUserDialog),
    Menu(MenuDialog),
    RevokeAdmin(RevokeAdminDialog),
    TopUp(TopUpDialog),
    UpdateUser(UpdateUserDialog),
    User(UserDialog),
}

impl Dialog {
    /// The forms keep their active field in range.
    pub open spec fn wf(self) -> bool {
        match self {
            Dialog::GrantAdmin(d) => d.wf(),
            Dialog::MakeUser(d) => d.wf(),
            Dialog::UpdateUser(d) => d.wf(),
            _ => true,
        }
    }

    /// The administrator menu.
    pub open spec fn is_admin_menu_spec(self) -> bool {
        match self {
            Dialog::Menu(m) => m.kind is Admin,
            _ => false,
        }
    }

    pub fn is_admin_menu(&self) -> (r: bool)
        ensures
            r == self.is_admin_menu_spec(),
    {
        match self {
            Dialog::Menu(m) => match m.kind {
                MenuKind::Admin { .. } => true,
                MenuKind::Normal => false,
            },
            _ => false,
        }
    }

    /// What a key does to the dialog: Escape closes it; other keys go to
    /// the dialog's own handler.
    pub open spec fn key_step(self, key: Key, next: Self, r: DialogResult<Key>) -> bool {
        if key.code == KeyCode::Esc {
            next == self && r is Message && r->Message_0 is CloseDialog
        } else {
            match (self, next) {
                (Dialog::About(_), Dialog::About(_)) => if key.code == KeyCode::Enter {
                    r is Message && r->Message_0 is CloseDialog
                } else {
                    r == DialogResult::Unhandled(key)
                },
                (Dialog::AdminAuth(d), Dialog::AdminAuth(n)) => d.key_step(key, n, r),
                (Dialog::AdminSessionLogin(d), Dialog::AdminSessionLogin(n)) => d.key_step(key, n, r),
                (Dialog::GrantAdmin(d), Dialog::GrantAdmin(n)) => d.key_step(key, n, r),
                (Dialog::MakeUser(d), Dialog::MakeUser(n)) => d.key_step(key, n, r),
                (Dialog::Menu(d), Dialog::Menu(n)) => d.key_step(key, n, r),
                (Dialog::RevokeAdmin(d), Dialog::RevokeAdmin(n)) => d.key_step(key, n, r),
                (Dialog::TopUp(d), Dialog::TopUp(n)) => d.key_step(key, n, r),
                (Dialog::UpdateUser(d), Dialog::UpdateUser(n)) => d.key_step(key, n, r),
                (Dialog::User(d), Dialog::User(n)) => d.key_step(key, n, r),
                _ => false,
            }
        }
    }

    pub fn handle_key(&mut self, key: Key) -> (r: DialogResult<Key>)
        requires
            old(self).wf(),
        ensures
            old(self).key_step(key, *final(self), r),
            final(self).wf(),
            result_wf(r),
    {
        if key.code == KeyCode::Esc {
            return DialogResult::Message(Message::CloseDialog);
        }
        match self {
            Dialog::About(d) => d.handle_key_inner(key),
            Dialog::AdminAuth(d) => d.handle_key_inner(key),
            Dialog::AdminSessionLogin(d) => d.handle_key_inner(key),
            Dialog::GrantAdmin(d) => d.handle_key_inner(key),
            Dialog::MakeUser(d) => d.handle_key_inner(key),
            Dialog::Menu(d) => d.handle_key_inner(key),
            Dialog::RevokeAdmin(d) => d.handle_key_inner(key),
            Dialog::TopUp(d) => d.handle_key_inner(key),
            Dialog::UpdateUser(d) => d.handle_key_inner(key),
            Dialog::User(d) => d.handle_key_inner(key),
        }
    }

    /// What a card scan does to the dialog.  Only the forms that need a
    /// card take it; the others hand it back.
    /// The dialogs that keep a scanned card: the user form, the revoke
    /// form, and the update form once a user is loaded.
    pub open spec fn takes_scan(self) -> bool {
        match self {
            Dialog::MakeUser(_) | Dialog::RevokeAdmin(_) => true,
            Dialog::UpdateUser(d) => d.stage is Edit,
            _ => false,
        }
    }

    /// The dialogs that keep a looked-up user: the grant and top-up forms,
    /// and the update form while it identifies its user.
    pub open spec fn takes_result(self, result: ApiResult) -> bool {
        &&& result is LookupUser
        &&& match self {
            Dialog::GrantAdmin(_) | Dialog::TopUp(_) => true,
            Dialog::UpdateUser(d) => d.stage is Identify,
            _ => false,
        }
    }

    pub open spec fn scan_step(self, card: String, next: Self, r: DialogResult<String>) -> bool {
        match (self, next) {
            (Dialog::MakeUser(d), Dialog::MakeUser(n)) => r is Consumed && n == (MakeUserDialog {
                card: Some(card),
                ..d
            }),
            (Dialog::RevokeAdmin(_), Dialog::RevokeAdmin(n)) => r is Consumed && n.card == Some(
                card,
            ),
            (Dialog::UpdateUser(d), Dialog::UpdateUser(n)) => match d.stage {
                forms::UpdateUserStage::Identify => r == DialogResult::Unhandled(card) && n == d,
                forms::UpdateUserStage::Edit => r is Consumed && n == (UpdateUserDialog {
                    replacement_card: Some(card),
                    ..d
                }),
            },
            (Dialog::MakeUser(_), _) | (Dialog::RevokeAdmin(_), _) | (Dialog::UpdateUser(_), _) => false,
            _ => next == self && r == DialogResult::Unhandled(card),
        }
    }

    pub fn handle_scan(&mut self, card: String) -> (r: DialogResult<String>)
        requires
            old(self).wf(),
        ensures
            old(self).scan_step(card, *final(self), r),
            final(self).wf(),
            result_wf(r),
    {
        match self {
            Dialog::MakeUser(d) => d.handle_scan(card),
            Dialog::RevokeAdmin(d) => d.handle_scan(card),
            Dialog::UpdateUser(d) => d.handle_scan(card),
            _ => DialogResult::Unhandled(card),
        }
    }

    /// What a finished request does to the dialog.  The forms that wait for
    /// a looked-up user take it; everything else is handed back.
    pub open spec fn result_step(self, result: ApiResult, next: Self, r: DialogResult<ApiResult>) -> bool {
        match (self, next) {
            (Dialog::GrantAdmin(d), Dialog::GrantAdmin(n)) => match result {
                ApiResult::LookupUser(u) => r is Consumed && n == (GrantAdminDialog {
                    user: Some(u),
                    ..d
                }),
                _ => r == DialogResult::Unhandled(result) && n == d,
            },
            (Dialog::TopUp(d), Dialog::TopUp(n)) => match result {
                ApiResult::LookupUser(u) => r is Consumed && n.user == Some(u) && n.amount
                    == d.amount,
                _ => r == DialogResult::Unhandled(result) && n == d,
            },
            (Dialog::UpdateUser(d), Dialog::UpdateUser(n)) => match (d.stage, result) {
                (forms::UpdateUserStage::Identify, ApiResult::LookupUser(u)) => r is Consumed
                    && d.loaded(u, n),
                _ => r == DialogResult::Unhandled(result) && n == d,
            },
            (Dialog::GrantAdmin(_), _) | (Dialog::TopUp(_), _) | (Dialog::UpdateUser(_), _) => false,
            _ => next == self && r == DialogResult::Unhandled(result),
        }
    }

    pub fn handle_api_result(&mut self, result: ApiResult) -> (r: DialogResult<ApiResult>)
        requires
            old(self).wf(),
        ensures
            old(self).result_step(result, *final(self), r),
            final(self).wf(),
            result_wf(r),
    {
        match self {
            Dialog::GrantAdmin(d) => d.handle_api_result(result),
            Dialog::TopUp(d) => d.handle_api_result(result),
            Dialog::UpdateUser(d) => d.handle_api_result(result),
            _ => DialogResult::Unhandled(result),
        }
    }

    /// The administrator menu rebuilds its entries for a changed session
    /// state; every other dialog stays as it is.
    pub open spec fn auth_state_step(self, state: AuthState, next: Self) -> bool {
        match (self, next) {
            (Dialog::Menu(m), Dialog::Menu(n)) => match m.kind {
                MenuKind::Admin { logged_in } => {
                    let now = state is Admin;
                    if logged_in != now {
                        n.title == m.title && n.kind == (MenuKind::Admin { logged_in: now })
                            && n.options@ == menu::admin_options_spec(now)
                    } else {
                        n == m
                    }
                },
                MenuKind::Normal => n == m,
            },
            (Dialog::Menu(_), _) => false,
            _ => next == self,
        }
    }

    /// The session login prompt takes the administrator it acts for; every
    /// other dialog stays as it is.
    pub open spec fn admin_context_step(self, context: Option<AdminContext>, next: Self) -> bool {
        match (self, next) {
            (Dialog::AdminSessionLogin(d), Dialog::AdminSessionLogin(n)) => n.admin == context
                && n.password == d.password,
            (Dialog::AdminSessionLogin(_), _) => false,
            _ => next == self,
        }
    }

    /// Tells a dialog that follows the administrator state what it is now:
    /// the administrator menu updates its entries, other dialogs ignore it.
    pub fn set_auth_state(&mut self, state: &AuthState)
        requires
            old(self).wf(),
        ensures
            final(self).wf(),
            final(self).is_admin_menu_spec() == old(self).is_admin_menu_spec(),
            old(self).auth_state_step(*state, *final(self)),
    {
        match self {
            Dialog::Menu(m) => m.set_auth_state(state),
            _ => {},
        }
    }

    /// Tells a dialog which administrator it acts for: the session login
    /// prompt keeps it, other dialogs ignore it.
    pub fn set_admin_context(&mut self, context: Option<AdminContext>)
        requires
            old(self).wf(),
        ensures
            final(self).wf(),
            final(self).is_admin_menu_spec() == old(self).is_admin_menu_spec(),
            old(self).admin_context_step(context, *final(self)),
    {
        match self {
            Dialog::AdminSessionLogin(d) => d.set_admin_context(context),
            _ => {},
        }
    }
}

} // verus!
