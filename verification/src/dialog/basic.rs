//! The small dialogs: about, administrator password prompts, card-based
//! revoke, top-up and the user dialog.
use crate::auth::AdminContext;
use crate::dialog::Dialog;
use crate::dialog::menu::{admin_menu, MenuDialog};
use crate::error::{AppError, ValidationMessage};
use crate::fields::{after_backspace, after_push, InputConstraint, TextInput};
use crate::key::{Key, KeyCode};
use crate::message::{invalid, DialogOpenMode, DialogResult, Message};
use crate::model::{Role, User};
use crate::request::{ApiRequest, ApiResult};
use crate::text::is_ascii_digit;
use vstd::prelude::*;

verus! {

/// The dialog that shows information about the program.
#[derive(Debug, Default)]
pub struct AboutDialog;

impl AboutDialog {
    pub fn new() -> (r: AboutDialog)
        ensures
            r == AboutDialog,
    {
        AboutDialog
    }

    /// Enter closes the dialog; any other key is handed back.
    pub fn handle_key_inner(&mut self, key: Key) -> (r: DialogResult<Key>)
        ensures
            key.code == KeyCode::Enter ==> r is Message && r->Message_0 is CloseDialog,
            key.code != KeyCode::Enter ==> r == DialogResult::Unhandled(key),
    {
        match key.code {
            KeyCode::Enter => DialogResult::Message(Message::CloseDialog),
            _ => DialogResult::Unhandled(key),
        }
    }
}

/// The prompt for the password of the administrator whose card was
/// scanned, before a request that needs a single-use token.
#[derive(Debug)]
pub struct AdminAuthDialog {
    pub admin: Option<AdminContext>,
    pub password: TextInput,
}

impl AdminAuthDialog {
    pub open spec fn is_new(self, admin: Option<AdminContext>) -> bool {
        self.admin == admin && self.password.is_new(InputConstraint::Any)
    }

    pub fn new(admin: Option<AdminContext>) -> (r: AdminAuthDialog)
        ensures
            r.is_new(admin),
    {
        AdminAuthDialog { admin, password: TextInput::new(InputConstraint::Any) }
    }

    pub open spec fn key_step(self, key: Key, next: Self, r: DialogResult<Key>) -> bool {
        match key.code {
            KeyCode::Char(c) => r is Consumed && next.admin == self.admin && self.password.edited(
                next.password,
                after_push(self.password.text(), self.password.constraint_of(), c),
            ),
            KeyCode::Backspace => r is Consumed && next.admin == self.admin
                && self.password.edited(next.password, after_backspace(self.password.text())),
            KeyCode::Enter => next == self && match self.admin {
                None => r == invalid(ValidationMessage::AdminRequiredAuth),
                Some(a) => r matches DialogResult::Message(
                    Message::ApiRequest(ApiRequest::AuthenticateAdmin { user_id, password }),
                ) && user_id == a.user_id && password@ == self.password.text(),
            },
            _ => next == self && r == DialogResult::Unhandled(key),
        }
    }

    pub fn handle_key_inner(&mut self, key: Key) -> (r: DialogResult<Key>)
        ensures
            old(self).key_step(key, *final(self), r),
    {
        match key.code {
            KeyCode::Char(c) => {
                self.password.push(c);
                DialogResult::Consumed
            },
            KeyCode::Backspace => {
                self.password.backspace();
                DialogResult::Consumed
            },
            KeyCode::Enter => {
                let password = crate::text::to_owned_string(self.password.as_str());
                match &self.admin {
                    Some(admin) => DialogResult::Message(
                        Message::ApiRequest(
                            ApiRequest::AuthenticateAdmin { user_id: admin.user_id, password },
                        ),
                    ),
                    None => DialogResult::Message(
                        Message::Failed(AppError::Validation(ValidationMessage::AdminRequiredAuth)),
                    ),
                }
            },
            _ => DialogResult::Unhandled(key),
        }
    }
}

/// The prompt for an administrator's password that starts a session.
#[derive(Debug)]
pub struct AdminSessionLoginDialog {
    pub admin: Option<AdminContext>,
    pub password: TextInput,
}

impl AdminSessionLoginDialog {
    pub open spec fn is_new(self) -> bool {
        self.admin is None && self.password.is_new(InputConstraint::Any)
    }

    pub fn new() -> (r: AdminSessionLoginDialog)
        ensures
            r.is_new(),
    {
        AdminSessionLoginDialog { admin: None, password: TextInput::new(InputConstraint::Any) }
    }

    /// Records which administrator the password is for.
    pub fn set_admin_context(&mut self, context: Option<AdminContext>)
        ensures
            final(self).admin == context,
            final(self).password == old(self).password,
    {
        self.admin = context;
    }

    pub open spec fn key_step(self, key: Key, next: Self, r: DialogResult<Key>) -> bool {
        match key.code {
            KeyCode::Char(c) => r is Consumed && next.admin == self.admin && self.password.edited(
                next.password,
                after_push(self.password.text(), self.password.constraint_of(), c),
            ),
            KeyCode::Backspace => r is Consumed && next.admin == self.admin
                && self.password.edited(next.password, after_backspace(self.password.text())),
            KeyCode::Enter => next == self && match self.admin {
                None => r is Message && r->Message_0 is CloseDialog,
                Some(a) => r matches DialogResult::Message(
                    Message::ApiRequest(ApiRequest::StartAdminSession { user_id, password }),
                ) && user_id == a.user_id && password@ == self.password.text(),
            },
            _ => next == self && r == DialogResult::Unhandled(key),
        }
    }

    pub fn handle_key_inner(&mut self, key: Key) -> (r: DialogResult<Key>)
        ensures
            old(self).key_step(key, *final(self), r),
    {
        match key.code {
            KeyCode::Char(c) => {
                self.password.push(c);
                DialogResult::Consumed
            },
            KeyCode::Backspace => {
                self.password.backspace();
                DialogResult::Consumed
            },
            KeyCode::Enter => {
                let password = crate::text::to_owned_string(self.password.as_str());
                match &self.admin {
                    Some(admin) => DialogResult::Message(
                        Message::ApiRequest(
                            ApiRequest::StartAdminSession { user_id: admin.user_id, password },
                        ),
                    ),
                    None => DialogResult::Message(Message::CloseDialog),
                }
            },
            _ => DialogResult::Unhandled(key),
        }
    }
}

/// Revokes the administrator role of the user whose card is scanned.
#[derive(Debug, Default)]
pub struct RevokeAdminDialog {
    pub card: Option<String>,
}

impl RevokeAdminDialog {
    pub fn new() -> (r: RevokeAdminDialog)
        ensures
            r.card is None,
    {
        RevokeAdminDialog { card: None }
    }

    pub open spec fn key_step(self, key: Key, next: Self, r: DialogResult<Key>) -> bool {
        next == self && if key.code == KeyCode::Enter {
            match self.card {
                None => r == invalid(ValidationMessage::CardRequiredRevoke),
                Some(card) => r matches DialogResult::Message(
                    Message::ApiRequest(ApiRequest::RevokeAdmin { identifier }),
                ) && identifier@ == card@,
            }
        } else {
            r == DialogResult::Unhandled(key)
        }
    }

    pub fn handle_key_inner(&mut self, key: Key) -> (r: DialogResult<Key>)
        ensures
            old(self).key_step(key, *final(self), r),
    {
        match key.code {
            KeyCode::Enter => match &self.card {
                None => DialogResult::Message(
                    Message::Failed(AppError::Validation(ValidationMessage::CardRequiredRevoke)),
                ),
                Some(card) => DialogResult::Message(
                    Message::ApiRequest(ApiRequest::RevokeAdmin { identifier: card.clone() }),
                ),
            },
            _ => DialogResult::Unhandled(key),
        }
    }

    /// Keeps the scanned card as the one to revoke.
    pub fn handle_scan(&mut self, card: String) -> (r: DialogResult<String>)
        ensures
            r is Consumed,
            final(self).card == Some(card),
    {
        self.card = Some(card);
        DialogResult::Consumed
    }
}

/// Tops up the balance of a user whose card is scanned.
#[derive(Debug)]
pub struct TopUpDialog {
    pub user: Option<User>,
    pub amount: TextInput,
}

impl TopUpDialog {
    pub open spec fn is_new(self) -> bool {
        self.user is None && self.amount.is_new(InputConstraint::Numeric)
    }

    pub fn new() -> (r: TopUpDialog)
        ensures
            r.is_new(),
    {
        TopUpDialog { user: None, amount: TextInput::new(InputConstraint::Numeric) }
    }

    pub open spec fn key_step(self, key: Key, next: Self, r: DialogResult<Key>) -> bool {
        match key.code {
            KeyCode::Char(c) => if crate::text::is_digit(c) {
                r is Consumed && next.user == self.user && self.amount.edited(
                    next.amount,
                    after_push(self.amount.text(), self.amount.constraint_of(), c),
                )
            } else {
                next == self && r == DialogResult::Unhandled(key)
            },
            KeyCode::Backspace => r is Consumed && next.user == self.user
                && self.amount.edited(next.amount, after_backspace(self.amount.text())),
            KeyCode::Enter => next == self && match crate::text::parse_u32_spec(
                self.amount.text(),
            ) {
                None => r == invalid(ValidationMessage::InvalidAmount),
                Some(amount) => match self.user {
                    None => r == invalid(ValidationMessage::CardRequiredTopUp),
                    Some(u) => r matches DialogResult::Message(
                        Message::ApiRequest(ApiRequest::TopUp { user_id, amount: a }),
                    ) && user_id == u.id && a == amount,
                },
            },
            _ => next == self && r == DialogResult::Unhandled(key),
        }
    }

    pub fn handle_key_inner(&mut self, key: Key) -> (r: DialogResult<Key>)
        ensures
            old(self).key_step(key, *final(self), r),
    {
        match key.code {
            KeyCode::Char(c) => {
                if is_ascii_digit(c) {
                    self.amount.push(c);
                    DialogResult::Consumed
                } else {
                    DialogResult::Unhandled(key)
                }
            },
            KeyCode::Backspace => {
                self.amount.backspace();
                DialogResult::Consumed
            },
            KeyCode::Enter => {
                let amount = match self.amount.value() {
                    Some(a) => a,
                    None => {
                        return DialogResult::Message(
                            Message::Failed(AppError::Validation(ValidationMessage::InvalidAmount)),
                        );
                    },
                };
                match &self.user {
                    None => DialogResult::Message(
                        Message::Failed(
                            AppError::Validation(ValidationMessage::CardRequiredTopUp),
                        ),
                    ),
                    Some(user) => DialogResult::Message(
                        Message::ApiRequest(ApiRequest::TopUp { user_id: user.id, amount }),
                    ),
                }
            },
            _ => DialogResult::Unhandled(key),
        }
    }

    /// A looked-up user becomes the one to top up; other results are handed back.
    pub fn handle_api_result(&mut self, result: ApiResult) -> (r: DialogResult<ApiResult>)
        ensures
            match result {
                ApiResult::LookupUser(u) => r is Consumed && final(self).user == Some(u)
                    && final(self).amount == old(self).amount,
                _ => r == DialogResult::Unhandled(result) && *final(self) == *old(self),
            },
    {
        match result {
            ApiResult::LookupUser(user) => {
                self.user = Some(user);
                DialogResult::Consumed
            },
            _ => DialogResult::Unhandled(result),
        }
    }
}

/// The dialog for a looked-up user: spend an amount, or open the
/// administrator menu when the user is an administrator.
#[derive(Debug)]
pub struct UserDialog {
    pub user: User,
    pub amount: TextInput,
}

impl UserDialog {
    pub open spec fn is_new(self, user: User) -> bool {
        self.user == user && self.amount.is_new(InputConstraint::Numeric)
    }

    pub fn new(user: User) -> (r: UserDialog)
        ensures
            r.is_new(user),
    {
        UserDialog { user, amount: TextInput::new(InputConstraint::Numeric) }
    }

    pub open spec fn key_step(self, key: Key, next: Self, r: DialogResult<Key>) -> bool {
        match key.code {
            KeyCode::Char(c) => if crate::text::is_digit(c) {
                r is Consumed && next.user == self.user && self.amount.edited(
                    next.amount,
                    after_push(self.amount.text(), self.amount.constraint_of(), c),
                )
            } else if c == 'a' && self.user.role == Role::Admin {
                next == self && (r matches DialogResult::Message(
                    Message::OpenAdminDialog { dialog: Dialog::Menu(m), mode },
                ) && mode == DialogOpenMode::Push && m.is_admin_menu_for(false))
            } else {
                next == self && r == DialogResult::Unhandled(key)
            },
            KeyCode::Backspace => r is Consumed && next.user == self.user
                && self.amount.edited(next.amount, after_backspace(self.amount.text())),
            KeyCode::Enter => next == self && match crate::text::parse_u32_spec(
                self.amount.text(),
            ) {
                None => r == invalid(ValidationMessage::InvalidAmount),
                Some(amount) => r matches DialogResult::Message(
                    Message::ApiRequest(ApiRequest::Spend { user_id, amount: a }),
                ) && user_id == self.user.id && a == amount,
            },
            _ => next == self && r == DialogResult::Unhandled(key),
        }
    }

    pub fn handle_key_inner(&mut self, key: Key) -> (r: DialogResult<Key>)
        ensures
            old(self).key_step(key, *final(self), r),
    {
        match key.code {
            KeyCode::Char(c) => {
                if is_ascii_digit(c) {
                    self.amount.push(c);
                    DialogResult::Consumed
                } else if c == 'a' && self.user.role == Role::Admin {
                    DialogResult::Message(
                        Message::OpenAdminDialog {
                            dialog: Dialog::Menu(admin_menu()),
                            mode: DialogOpenMode::Push,
                        },
                    )
                } else {
                    DialogResult::Unhandled(key)
                }
            },
            KeyCode::Backspace => {
                self.amount.backspace();
                DialogResult::Consumed
            },
            KeyCode::Enter => {
                match self.amount.value() {
                    Some(amount) => DialogResult::Message(
                        Message::ApiRequest(ApiRequest::Spend { user_id: self.user.id, amount }),
                    ),
                    None => DialogResult::Message(
                        Message::Failed(AppError::Validation(ValidationMessage::InvalidAmount)),
                    ),
                }
            },
            _ => DialogResult::Unhandled(key),
        }
    }
}

} // verus!
