//! The administrator forms: grant the administrator role, create a user,
//! update a user.
use crate::error::{AppError, ValidationMessage};
use crate::fields::{after_backspace, after_push, InputConstraint, TextInput};
use crate::key::{Key, KeyCode};
use crate::message::{invalid, DialogResult, Message};
use crate::model::{iso_date_days, Date, User, UserPatch};
use crate::request::{ApiRequest, ApiResult, StatusMessage};
use crate::text::{parse_u32, parse_u32_spec, trim, trim_spec};
use vstd::prelude::*;

verus! {

/// `next` is `f` after typing `c`.
pub open spec fn typed(f: TextInput, next: TextInput, c: char) -> bool {
    f.edited(next, after_push(f.text(), f.constraint_of(), c))
}

/// `next` is `f` after erasing its last character.
pub open spec fn erased(f: TextInput, next: TextInput) -> bool {
    f.edited(next, after_backspace(f.text()))
}

/// `next` is `f` after the key: typed for a character, erased for Backspace.
pub open spec fn edited_by(f: TextInput, next: TextInput, code: KeyCode) -> bool {
    match code {
        KeyCode::Char(c) => typed(f, next, c),
        _ => erased(f, next),
    }
}

fn edit_field(f: &mut TextInput, code: KeyCode)
    requires
        code is Char || code is Backspace,
    ensures
        edited_by(*old(f), *final(f), code),
{
    match code {
        KeyCode::Char(c) => f.push(c),
        _ => f.backspace(),
    }
}

/// Whether two texts are equal.
fn same_text(a: &str, b: &str) -> (r: bool)
    ensures
        r == (a@ == b@),
{
    let x = crate::text::to_owned_string(a);
    let y = crate::text::to_owned_string(b);
    x == y
}

// ---------------------------------------------------------------------
// Grant administrator.
// ---------------------------------------------------------------------
/// Makes a looked-up user an administrator with a new password.
#[derive(Debug)]
pub struct GrantAdminDialog {
    pub user: Option<User>,
    pub password: TextInput,
    pub confirm_password: TextInput,
    pub active_field: usize,
}

impl GrantAdminDialog {
    pub open spec fn wf(self) -> bool {
        self.active_field < 2
    }

    pub open spec fn is_new(self) -> bool {
        &&& self.user is None
        &&& self.password.is_new(InputConstraint::Any)
        &&& self.confirm_password.is_new(InputConstraint::Any)
        &&& self.active_field == 0
    }

    pub fn new() -> (r: GrantAdminDialog)
        ensures
            r.is_new(),
            r.wf(),
    {
        GrantAdminDialog {
            user: None,
            password: TextInput::new(InputConstraint::Any),
            confirm_password: TextInput::new(InputConstraint::Any),
            active_field: 0,
        }
    }

    pub fn next_field(&mut self)
        requires
            old(self).wf(),
        ensures
            *final(self) == (GrantAdminDialog {
                active_field: ((old(self).active_field + 1) % 2) as usize,
                ..*old(self)
            }),
    {
        self.active_field = (self.active_field + 1) % 2;
    }

    pub fn previous_field(&mut self)
        requires
            old(self).wf(),
        ensures
            *final(self) == (GrantAdminDialog {
                active_field: if old(self).active_field == 0 {
                    1
                } else {
                    (old(self).active_field - 1) as usize
                },
                ..*old(self)
            }),
    {
        self.active_field = match self.active_field.checked_sub(1) {
            Some(f) => f,
            None => 1,
        };
    }

    pub open spec fn submits(self, r: DialogResult<Key>) -> bool {
        match self.user {
            None => r == invalid(ValidationMessage::CardRequiredGrant),
            Some(u) => if self.password.text().len() == 0 {
                r == invalid(ValidationMessage::PasswordRequired)
            } else if self.confirm_password.text().len() == 0 {
                r == invalid(ValidationMessage::ConfirmRequired)
            } else if self.password.text() != self.confirm_password.text() {
                r == invalid(ValidationMessage::PasswordsMismatch)
            } else {
                r matches DialogResult::Message(
                    Message::ApiRequest(ApiRequest::GrantAdmin { user_id, password }),
                ) && user_id == u.id && password@ == self.password.text()
            },
        }
    }

    /// Checks the form and asks to grant the role.
    pub fn submit(&self) -> (r: DialogResult<Key>)
        ensures
            self.submits(r),
    {
        let user = match &self.user {
            None => {
                return DialogResult::Message(
                    Message::Failed(AppError::Validation(ValidationMessage::CardRequiredGrant)),
                );
            },
            Some(user) => user,
        };
        if self.password.is_empty() {
            return DialogResult::Message(
                Message::Failed(AppError::Validation(ValidationMessage::PasswordRequired)),
            );
        }
        if self.confirm_password.is_empty() {
            return DialogResult::Message(
                Message::Failed(AppError::Validation(ValidationMessage::ConfirmRequired)),
            );
        }
        if !same_text(self.password.as_str(), self.confirm_password.as_str()) {
            return DialogResult::Message(
                Message::Failed(AppError::Validation(ValidationMessage::PasswordsMismatch)),
            );
        }
        DialogResult::Message(
            Message::ApiRequest(
                ApiRequest::GrantAdmin {
                    user_id: user.id,
                    password: crate::text::to_owned_string(self.password.as_str()),
                },
            ),
        )
    }

    pub open spec fn key_step(self, key: Key, next: Self, r: DialogResult<Key>) -> bool {
        match key.code {
            KeyCode::Down | KeyCode::Tab => r is Consumed && next == (GrantAdminDialog {
                active_field: ((self.active_field + 1) % 2) as usize,
                ..self
            }),
            KeyCode::Up | KeyCode::BackTab => r is Consumed && next == (GrantAdminDialog {
                active_field: if self.active_field == 0 {
                    1
                } else {
                    (self.active_field - 1) as usize
                },
                ..self
            }),
            KeyCode::Char(_) | KeyCode::Backspace => {
                &&& r is Consumed
                &&& next.user == self.user
                &&& next.active_field == self.active_field
                &&& if self.active_field == 0 {
                    edited_by(self.password, next.password, key.code)
                        && next.confirm_password == self.confirm_password
                } else {
                    edited_by(self.confirm_password, next.confirm_password, key.code)
                        && next.password == self.password
                }
            },
            KeyCode::Enter => next == self && self.submits(r),
            _ => next == self && r == DialogResult::Unhandled(key),
        }
    }

    pub fn handle_key_inner(&mut self, key: Key) -> (r: DialogResult<Key>)
        requires
            old(self).wf(),
        ensures
            old(self).key_step(key, *final(self), r),
            final(self).wf(),
    {
        match key.code {
            KeyCode::Down | KeyCode::Tab => {
                self.next_field();
                DialogResult::Consumed
            },
            KeyCode::Up | KeyCode::BackTab => {
                self.previous_field();
                DialogResult::Consumed
            },
            KeyCode::Char(_) | KeyCode::Backspace => {
                if self.active_field == 0 {
                    edit_field(&mut self.password, key.code);
                } else {
                    edit_field(&mut self.confirm_password, key.code);
                }
                DialogResult::Consumed
            },
            KeyCode::Enter => self.submit(),
            _ => DialogResult::Unhandled(key),
        }
    }

    /// A looked-up user becomes the one to grant the role to.
    pub fn handle_api_result(&mut self, result: ApiResult) -> (r: DialogResult<ApiResult>)
        ensures
            match result {
                ApiResult::LookupUser(u) => r is Consumed && *final(self) == (GrantAdminDialog {
                    user: Some(u),
                    ..*old(self)
                }),
                _ => r == DialogResult::Unhandled(result) && *final(self) == *old(self),
            },
    {
        match result {
            ApiResult::LookupUser(user) => {
                self.user = Some(user);
                DialogResult::Consumed
            },
            _ => DialogResult::Unhandled(result),
        }
    }
}

// ---------------------------------------------------------------------
// Make user.
// ---------------------------------------------------------------------
/// Creates a user from a form and a scanned card.
#[derive(Debug)]
pub struct MakeUserDialog {
    pub name: TextInput,
    pub username: TextInput,
    pub program: TextInput,
    pub birthdate: TextInput,
    pub card: Option<String>,
    pub active_field: usize,
}

impl MakeUserDialog {
    pub open spec fn wf(self) -> bool {
        self.active_field < 4
    }

    pub open spec fn is_new(self) -> bool {
        &&& self.name.is_new(InputConstraint::Any)
        &&& self.username.is_new(InputConstraint::Ascii)
        &&& self.program.is_new(InputConstraint::Any)
        &&& self.birthdate.is_new(InputConstraint::Ascii)
        &&& self.card is None
        &&& self.active_field == 0
    }

    pub fn new() -> (r: MakeUserDialog)
        ensures
            r.is_new(),
            r.wf(),
    {
        MakeUserDialog {
            name: TextInput::new(InputConstraint::Any),
            username: TextInput::new(InputConstraint::Ascii),
            program: TextInput::new(InputConstraint::Any),
            birthdate: TextInput::new(InputConstraint::Ascii),
            card: None,
            active_field: 0,
        }
    }

    pub fn next_field(&mut self)
        requires
            old(self).wf(),
        ensures
            *final(self) == (MakeUserDialog {
                active_field: ((old(self).active_field + 1) % 4) as usize,
                ..*old(self)
            }),
    {
        self.active_field = (self.active_field + 1) % 4;
    }

    pub fn previous_field(&mut self)
        requires
            old(self).wf(),
        ensures
            *final(self) == (MakeUserDialog {
                active_field: if old(self).active_field == 0 {
                    3
                } else {
                    (old(self).active_field - 1) as usize
                },
                ..*old(self)
            }),
    {
        self.active_field = match self.active_field.checked_sub(1) {
            Some(f) => f,
            None => 3,
        };
    }

    pub open spec fn submits(self, r: DialogResult<Key>) -> bool {
        let name = trim_spec(self.name.text());
        let username = trim_spec(self.username.text());
        let program = trim_spec(self.program.text());
        if name.len() == 0 {
            r == invalid(ValidationMessage::NameRequired)
        } else if username.len() == 0 {
            r == invalid(ValidationMessage::UsernameRequired)
        } else if program.len() == 0 {
            r == invalid(ValidationMessage::ProgramRequired)
        } else {
            match iso_date_days(trim_spec(self.birthdate.text())) {
                None => r == invalid(ValidationMessage::BirthdateFormat),
                Some(days) => match self.card {
                    None => r == invalid(ValidationMessage::ScanCardFirst),
                    Some(card) => match parse_u32_spec(card@) {
                        None => r == invalid(ValidationMessage::InvalidCard),
                        Some(number) => r matches DialogResult::Message(
                            Message::ApiRequest(
                                ApiRequest::MakeUser {
                                    name: n,
                                    username: u,
                                    program: p,
                                    card_number,
                                    birthdate,
                                },
                            ),
                        ) && n@ == name && u@ == username && p@ == program && card_number
                            == number && birthdate == (Date { days_from_ce: days }),
                    },
                },
            }
        }
    }

    /// Checks the form and asks to create the user.
    pub fn submit(&self) -> (r: DialogResult<Key>)
        ensures
            self.submits(r),
    {
        let name = trim(self.name.as_str());
        if crate::text::chars_of(name.as_str()).len() == 0 {
            return DialogResult::Message(
                Message::Failed(AppError::Validation(ValidationMessage::NameRequired)),
            );
        }
        let username = trim(self.username.as_str());
        if crate::text::chars_of(username.as_str()).len() == 0 {
            return DialogResult::Message(
                Message::Failed(AppError::Validation(ValidationMessage::UsernameRequired)),
            );
        }
        let program = trim(self.program.as_str());
        if crate::text::chars_of(program.as_str()).len() == 0 {
            return DialogResult::Message(
                Message::Failed(AppError::Validation(ValidationMessage::ProgramRequired)),
            );
        }
        let birthdate_text = trim(self.birthdate.as_str());
        let birthdate = match Date::parse_iso(birthdate_text.as_str()) {
            Some(date) => date,
            None => {
                return DialogResult::Message(
                    Message::Failed(AppError::Validation(ValidationMessage::BirthdateFormat)),
                );
            },
        };
        let card = match &self.card {
            Some(card) => card,
            None => {
                return DialogResult::Message(
                    Message::Failed(AppError::Validation(ValidationMessage::ScanCardFirst)),
                );
            },
        };
        let card_number = match parse_u32(card.as_str()) {
            Some(n) => n,
            None => {
                return DialogResult::Message(
                    Message::Failed(AppError::Validation(ValidationMessage::InvalidCard)),
                );
            },
        };
        DialogResult::Message(
            Message::ApiRequest(
                ApiRequest::MakeUser { name, username, program, card_number, birthdate },
            ),
        )
    }

    pub open spec fn key_step(self, key: Key, next: Self, r: DialogResult<Key>) -> bool {
        match key.code {
            KeyCode::Down => r is Consumed && next == (MakeUserDialog {
                active_field: ((self.active_field + 1) % 4) as usize,
                ..self
            }),
            KeyCode::Up => r is Consumed && next == (MakeUserDialog {
                active_field: if self.active_field == 0 {
                    3
                } else {
                    (self.active_field - 1) as usize
                },
                ..self
            }),
            KeyCode::Char(_) | KeyCode::Backspace => {
                &&& r is Consumed
                &&& next.card == self.card
                &&& next.active_field == self.active_field
                &&& if self.active_field == 0 {
                    edited_by(self.name, next.name, key.code) && next.username == self.username
                        && next.program == self.program && next.birthdate == self.birthdate
                } else if self.active_field == 1 {
                    edited_by(self.username, next.username, key.code) && next.name == self.name
                        && next.program == self.program && next.birthdate == self.birthdate
                } else if self.active_field == 2 {
                    edited_by(self.program, next.program, key.code) && next.name == self.name
                        && next.username == self.username && next.birthdate == self.birthdate
                } else {
                    edited_by(self.birthdate, next.birthdate, key.code) && next.name == self.name
                        && next.username == self.username && next.program == self.program
                }
            },
            KeyCode::Enter => next == self && self.submits(r),
            _ => next == self && r == DialogResult::Unhandled(key),
        }
    }

    pub fn handle_key_inner(&mut self, key: Key) -> (r: DialogResult<Key>)
        requires
            old(self).wf(),
        ensures
            old(self).key_step(key, *final(self), r),
            final(self).wf(),
    {
        match key.code {
            KeyCode::Down => {
                self.next_field();
                DialogResult::Consumed
            },
            KeyCode::Up => {
                self.previous_field();
                DialogResult::Consumed
            },
            KeyCode::Char(_) | KeyCode::Backspace => {
                if self.active_field == 0 {
                    edit_field(&mut self.name, key.code);
                } else if self.active_field == 1 {
                    edit_field(&mut self.username, key.code);
                } else if self.active_field == 2 {
                    edit_field(&mut self.program, key.code);
                } else {
                    edit_field(&mut self.birthdate, key.code);
                }
                DialogResult::Consumed
            },
            KeyCode::Enter => self.submit(),
            _ => DialogResult::Unhandled(key),
        }
    }

    /// Keeps the scanned card as the new user's card.
    pub fn handle_scan(&mut self, card: String) -> (r: DialogResult<String>)
        ensures
            r is Consumed,
            *final(self) == (MakeUserDialog { card: Some(card), ..*old(self) }),
    {
        self.card = Some(card);
        DialogResult::Consumed
    }
}

// ---------------------------------------------------------------------
// Update user.
// ---------------------------------------------------------------------
/// The two stages of the update form: find the user, then edit.
#[derive(Clone, Copy, Debug, PartialEq, Eq, Structural)]
pub enum UpdateUserStage {
    Identify,
    Edit,
}

/// Finds a user by identifier, then edits the user's fields; a card scanned
/// while editing becomes the user's new card.
#[derive(Debug)]
pub struct UpdateUserDialog {
    pub stage: UpdateUserStage,
    pub identifier: TextInput,
    pub user: Option<User>,
    pub replacement_card: Option<String>,
    pub name: TextInput,
    pub username: TextInput,
    pub program: TextInput,
    pub comments: TextInput,
    pub active_field: usize,
}

/// `p` is the patch entry for a field whose edited text is `t` and whose
/// current text is `current`: nothing when unchanged, the new text otherwise.
pub open spec fn patch_entry(p: Option<String>, t: Seq<char>, current: Seq<char>) -> bool {
    if t == current {
        p is None
    } else {
        p matches Some(s) && s@ == t
    }
}

fn patch_value(t: &String, current: &String) -> (r: Option<String>)
    ensures
        patch_entry(r, t@, current@),
{
    if *t == *current {
        None
    } else {
        Some(t.clone())
    }
}

impl UpdateUserDialog {
    pub open spec fn wf(self) -> bool {
        self.active_field < 4
    }

    pub open spec fn is_new(self) -> bool {
        &&& self.stage == UpdateUserStage::Identify
        &&& self.identifier.is_new(InputConstraint::Ascii)
        &&& self.user is None
        &&& self.replacement_card is None
        &&& self.name.is_new(InputConstraint::Any)
        &&& self.username.is_new(InputConstraint::Ascii)
        &&& self.program.is_new(InputConstraint::Any)
        &&& self.comments.is_new(InputConstraint::Any)
        &&& self.active_field == 0
    }

    pub fn new() -> (r: UpdateUserDialog)
        ensures
            r.is_new(),
            r.wf(),
    {
        UpdateUserDialog {
            stage: UpdateUserStage::Identify,
            identifier: TextInput::new(InputConstraint::Ascii),
            user: None,
            replacement_card: None,
            name: TextInput::new(InputConstraint::Any),
            username: TextInput::new(InputConstraint::Ascii),
            program: TextInput::new(InputConstraint::Any),
            comments: TextInput::new(InputConstraint::Any),
            active_field: 0,
        }
    }

    /// `next` is this dialog after `user` was loaded for editing.
    pub open spec fn loaded(self, user: User, next: Self) -> bool {
        &&& next.stage == UpdateUserStage::Edit
        &&& next.identifier == self.identifier
        &&& next.user == Some(user)
        &&& next.replacement_card is None
        &&& self.name.edited(next.name, user.name@)
        &&& self.username.edited(next.username, user.username@)
        &&& self.program.edited(next.program, user.program@)
        &&& self.comments.edited(next.comments, user.comments@)
        &&& next.active_field == 0
    }

    /// Loads the user's fields for editing.
    pub fn set_user(&mut self, user: User)
        ensures
            old(self).loaded(user, *final(self)),
    {
        self.name.set_value(user.name.as_str());
        self.username.set_value(user.username.as_str());
        self.program.set_value(user.program.as_str());
        self.comments.set_value(user.comments.as_str());
        self.replacement_card = None;
        self.user = Some(user);
        self.stage = UpdateUserStage::Edit;
        self.active_field = 0;
    }

    pub fn next_field(&mut self)
        requires
            old(self).wf(),
        ensures
            *final(self) == (UpdateUserDialog {
                active_field: ((old(self).active_field + 1) % 4) as usize,
                ..*old(self)
            }),
    {
        self.active_field = (self.active_field + 1) % 4;
    }

    pub fn previous_field(&mut self)
        requires
            old(self).wf(),
        ensures
            *final(self) == (UpdateUserDialog {
                active_field: if old(self).active_field == 0 {
                    3
                } else {
                    (old(self).active_field - 1) as usize
                },
                ..*old(self)
            }),
    {
        self.active_field = match self.active_field.checked_sub(1) {
            Some(f) => f,
            None => 3,
        };
    }

    /// The card-number change the scanned card asks for: `None` when the
    /// card text is not a number, `Some(None)` for no change.
    pub open spec fn card_change(self, u: User) -> Option<Option<u32>> {
        match self.replacement_card {
            None => Some(None),
            Some(card) => match parse_u32_spec(trim_spec(card@)) {
                None => None,
                Some(n) => if n != u.card_number {
                    Some(Some(n))
                } else {
                    Some(None)
                },
            },
        }
    }

    pub open spec fn submits(self, r: DialogResult<Key>) -> bool {
        match self.user {
            None => r == invalid(ValidationMessage::UserNotIdentified),
            Some(u) => {
                let name = trim_spec(self.name.text());
                let username = trim_spec(self.username.text());
                let program = trim_spec(self.program.text());
                let comments = trim_spec(self.comments.text());
                if name.len() == 0 {
                    r == invalid(ValidationMessage::NameRequired)
                } else if username.len() == 0 {
                    r == invalid(ValidationMessage::UsernameRequired)
                } else if program.len() == 0 {
                    r == invalid(ValidationMessage::ProgramRequired)
                } else {
                    match self.card_change(u) {
                        None => r == invalid(ValidationMessage::InvalidCard),
                        Some(card) => if name == u.name@ && username == u.username@ && program
                            == u.program@ && card is None && comments == u.comments@ {
                            r matches DialogResult::Message(
                                Message::Status(StatusMessage::NoChanges),
                            )
                        } else {
                            r matches DialogResult::Message(
                                Message::ApiRequest(ApiRequest::UpdateUser { user_id, patch }),
                            ) && user_id == u.id && patch_entry(patch.name, name, u.name@)
                                && patch_entry(patch.username, username, u.username@)
                                && patch_entry(patch.program, program, u.program@)
                                && patch.card_number == card && patch_entry(
                                patch.comments,
                                comments,
                                u.comments@,
                            )
                        },
                    }
                }
            },
        }
    }

    /// Checks the form and asks to update the fields that changed.
    pub fn submit(&self) -> (r: DialogResult<Key>)
        ensures
            self.submits(r),
    {
        let user = match &self.user {
            Some(u) => u,
            None => {
                return DialogResult::Message(
                    Message::Failed(AppError::Validation(ValidationMessage::UserNotIdentified)),
                );
            },
        };
        let name = trim(self.name.as_str());
        if crate::text::chars_of(name.as_str()).len() == 0 {
            return DialogResult::Message(
                Message::Failed(AppError::Validation(ValidationMessage::NameRequired)),
            );
        }
        let username = trim(self.username.as_str());
        if crate::text::chars_of(username.as_str()).len() == 0 {
            return DialogResult::Message(
                Message::Failed(AppError::Validation(ValidationMessage::UsernameRequired)),
            );
        }
        let program = trim(self.program.as_str());
        if crate::text::chars_of(program.as_str()).len() == 0 {
            return DialogResult::Message(
                Message::Failed(AppError::Validation(ValidationMessage::ProgramRequired)),
            );
        }
        let comments = trim(self.comments.as_str());
        let card_opt: Option<u32> = match &self.replacement_card {
            Some(card_text) => {
                let trimmed = trim(card_text.as_str());
                match parse_u32(trimmed.as_str()) {
                    Some(n) => {
                        if n != user.card_number {
                            Some(n)
                        } else {
                            None
                        }
                    },
                    None => {
                        return DialogResult::Message(
                            Message::Failed(AppError::Validation(ValidationMessage::InvalidCard)),
                        );
                    },
                }
            },
            None => None,
        };
        let name_opt = patch_value(&name, &user.name);
        let username_opt = patch_value(&username, &user.username);
        let program_opt = patch_value(&program, &user.program);
        let comments_opt = patch_value(&comments, &user.comments);
        if name_opt.is_none() && username_opt.is_none() && program_opt.is_none()
            && card_opt.is_none() && comments_opt.is_none() {
            return DialogResult::Message(Message::Status(StatusMessage::NoChanges));
        }
        let patch = UserPatch {
            name: name_opt,
            username: username_opt,
            program: program_opt,
            card_number: card_opt,
            comments: comments_opt,
        };
        DialogResult::Message(Message::ApiRequest(ApiRequest::UpdateUser { user_id: user.id, patch }))
    }

    pub open spec fn key_step(self, key: Key, next: Self, r: DialogResult<Key>) -> bool {
        match self.stage {
            UpdateUserStage::Identify => match key.code {
                KeyCode::Char(_) | KeyCode::Backspace => r is Consumed && edited_by(
                    self.identifier,
                    next.identifier,
                    key.code,
                ) && next == (UpdateUserDialog { identifier: next.identifier, ..self }),
                KeyCode::Enter => next == self && {
                    let identifier = trim_spec(self.identifier.text());
                    if identifier.len() == 0 {
                        r is Consumed
                    } else {
                        r matches DialogResult::Message(
                            Message::ApiRequest(ApiRequest::LookupUser(id)),
                        ) && id@ == identifier
                    }
                },
                _ => next == self && r == DialogResult::Unhandled(key),
            },
            UpdateUserStage::Edit => match key.code {
                KeyCode::Down | KeyCode::Tab => r is Consumed && next == (UpdateUserDialog {
                    active_field: ((self.active_field + 1) % 4) as usize,
                    ..self
                }),
                KeyCode::Up | KeyCode::BackTab => r is Consumed && next == (UpdateUserDialog {
                    active_field: if self.active_field == 0 {
                        3
                    } else {
                        (self.active_field - 1) as usize
                    },
                    ..self
                }),
                KeyCode::Char(_) | KeyCode::Backspace => {
                    &&& r is Consumed
                    &&& if self.active_field == 0 {
                        edited_by(self.name, next.name, key.code) && next == (UpdateUserDialog {
                            name: next.name,
                            ..self
                        })
                    } else if self.active_field == 1 {
                        edited_by(self.username, next.username, key.code) && next == (
                        UpdateUserDialog { username: next.username, ..self })
                    } else if self.active_field == 2 {
                        edited_by(self.program, next.program, key.code) && next == (
                        UpdateUserDialog { program: next.program, ..self })
                    } else {
                        edited_by(self.comments, next.comments, key.code) && next == (
                        UpdateUserDialog { comments: next.comments, ..self })
                    }
                },
                KeyCode::Enter => next == self && self.submits(r),
                _ => next == self && r == DialogResult::Unhandled(key),
            },
        }
    }

    pub fn handle_key_inner(&mut self, key: Key) -> (r: DialogResult<Key>)
        requires
            old(self).wf(),
        ensures
            old(self).key_step(key, *final(self), r),
            final(self).wf(),
    {
        match self.stage {
            UpdateUserStage::Identify => match key.code {
                KeyCode::Char(_) | KeyCode::Backspace => {
                    edit_field(&mut self.identifier, key.code);
                    DialogResult::Consumed
                },
                KeyCode::Enter => {
                    let identifier = trim(self.identifier.as_str());
                    if crate::text::chars_of(identifier.as_str()).len() == 0 {
                        DialogResult::Consumed
                    } else {
                        DialogResult::Message(
                            Message::ApiRequest(ApiRequest::LookupUser(identifier)),
                        )
                    }
                },
                _ => DialogResult::Unhandled(key),
            },
            UpdateUserStage::Edit => match key.code {
                KeyCode::Down | KeyCode::Tab => {
                    self.next_field();
                    DialogResult::Consumed
                },
                KeyCode::Up | KeyCode::BackTab => {
                    self.previous_field();
                    DialogResult::Consumed
                },
                KeyCode::Char(_) | KeyCode::Backspace => {
                    if self.active_field == 0 {
                        edit_field(&mut self.name, key.code);
                    } else if self.active_field == 1 {
                        edit_field(&mut self.username, key.code);
                    } else if self.active_field == 2 {
                        edit_field(&mut self.program, key.code);
                    } else {
                        edit_field(&mut self.comments, key.code);
                    }
                    DialogResult::Consumed
                },
                KeyCode::Enter => self.submit(),
                _ => DialogResult::Unhandled(key),
            },
        }
    }

    /// While editing, a scanned card becomes the replacement card; while
    /// identifying, the scan is handed back.
    pub fn handle_scan(&mut self, card: String) -> (r: DialogResult<String>)
        ensures
            match old(self).stage {
                UpdateUserStage::Identify => r == DialogResult::Unhandled(card) && *final(self)
                    == *old(self),
                UpdateUserStage::Edit => r is Consumed && *final(self) == (UpdateUserDialog {
                    replacement_card: Some(card),
                    ..*old(self)
                }),
            },
    {
        match self.stage {
            UpdateUserStage::Identify => DialogResult::Unhandled(card),
            UpdateUserStage::Edit => {
                self.replacement_card = Some(card);
                DialogResult::Consumed
            },
        }
    }

    /// While identifying, a looked-up user is loaded for editing; other
    /// results are handed back.
    pub fn handle_api_result(&mut self, result: ApiResult) -> (r: DialogResult<ApiResult>)
        ensures
            match (old(self).stage, result) {
                (UpdateUserStage::Identify, ApiResult::LookupUser(u)) => r is Consumed && old(self).loaded(u, *final(self)),
                _ => r == DialogResult::Unhandled(result) && *final(self) == *old(self),
            },
            old(self).wf() ==> final(self).wf(),
    {
        match self.stage {
            UpdateUserStage::Identify => match result {
                ApiResult::LookupUser(user) => {
                    self.set_user(user);
                    DialogResult::Consumed
                },
                _ => DialogResult::Unhandled(result),
            },
            UpdateUserStage::Edit => DialogResult::Unhandled(result),
        }
    }
}

/// Submitting the update form reports no changes only when every field,
/// trimmed, is the loaded user's, comments included, and the card stays;
/// a request it sends names the loaded user and carries each changed field,
/// trimmed, and no unchanged one.
pub proof fn update_sends_every_change(d: UpdateUserDialog, r: DialogResult<Key>)
    requires
        d.submits(r),
    ensures
        r matches DialogResult::Message(Message::Status(StatusMessage::NoChanges)) ==> {
            &&& d.user matches Some(u)
            &&& trim_spec(d.name.text()) == u.name@
            &&& trim_spec(d.username.text()) == u.username@
            &&& trim_spec(d.program.text()) == u.program@
            &&& trim_spec(d.comments.text()) == u.comments@
            &&& d.card_change(u) == Some(None::<u32>)
        },
        r matches DialogResult::Message(Message::ApiRequest(ApiRequest::UpdateUser { user_id, patch })) ==> {
            &&& d.user matches Some(u)
            &&& user_id == u.id
            &&& patch_entry(patch.name, trim_spec(d.name.text()), u.name@)
            &&& patch_entry(patch.username, trim_spec(d.username.text()), u.username@)
            &&& patch_entry(patch.program, trim_spec(d.program.text()), u.program@)
            &&& patch_entry(patch.comments, trim_spec(d.comments.text()), u.comments@)
            &&& d.card_change(u) == Some(patch.card_number)
            &&& (patch.name is Some || patch.username is Some || patch.program is Some
                || patch.comments is Some || patch.card_number is Some)
        },
{
}

} // verus!
