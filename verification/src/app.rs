//! The application state and how it answers messages.
//!
//! `App::update` is the one place that turns messages into requests for the
//! server.  Every request that needs administrator rights leaves it with a
//! token: the running session's, or a single-use token obtained by asking
//! the scanned administrator for a password while the request waits.
use crate::auth::{duplicate_context, AdminContext, AdminSession, AuthState};
use crate::dialog::basic::{AdminAuthDialog, UserDialog};
use crate::dialog::menu::Language;
use crate::dialog::stack::{closed, opened, popped_to_admin_menu, told_auth, DialogEntry, DialogStack};
use crate::dialog::Dialog;
use crate::error::AppError;
use crate::message::{DialogOpenMode, DialogResult, Message};
use crate::model::{uuid_text, Role, User};
use crate::page::{Page, PageId, StatsPage};
use crate::request::{ApiCommand, ApiRequest, ApiResult, ProgressMessage, StatusMessage};
use crate::auth::SingleUseToken;
use vstd::prelude::*;

verus! {

/// A change of the interface language that the front end carries out.
#[derive(Clone, Copy, Debug, PartialEq, Eq, Structural)]
pub enum LocaleRequest {
    Choose(Language),
    Toggle,
}

/// The whole state of the client.
#[derive(Debug)]
pub struct App {
    pub auth: AuthState,
    pub page: Page,
    pub dialogs: DialogStack,
    pub status: StatusMessage,
    pub pending_api_request: Option<ApiRequest>,
    pub active_admin: Option<AdminContext>,
    pub should_quit: bool,
    pub locale_request: Option<LocaleRequest>,
}

/// A command's authorization is the session's token.
pub open spec fn carries_session_token(c: ApiCommand, s: AdminSession) -> bool {
    c.authorization matches Some(t) && t.0@ == s.token.text()
}

/// A command never leaves without a token when its request needs one:
/// every request that needs administrator rights, and ending a session.
pub open spec fn authorized(c: ApiCommand) -> bool {
    (c.request.needs_auth() || c.request is EndAdminSession) ==> c.authorization is Some
}

pub open spec fn command_ok(r: Option<ApiCommand>) -> bool {
    r matches Some(c) ==> authorized(c)
}

/// A stack whose top entry is unchanged, and whose other entries are, is
/// the same stack.
proof fn lemma_same_top(before: Seq<DialogEntry>, after: Seq<DialogEntry>)
    requires
        before.len() > 0,
        after.len() == before.len(),
        after.drop_last() == before.drop_last(),
        before.last().same_kind(after.last(), after.last().dialog()),
        after.last().dialog() == before.last().dialog(),
    ensures
        after == before,
{
    assert forall|i: int| 0 <= i < before.len() implies after[i] == before[i] by {
        if i < before.len() - 1 {
            assert(after.drop_last()[i] == after[i]);
            assert(before.drop_last()[i] == before[i]);
        }
    }
    assert(after =~= before);
}

impl App {
    pub open spec fn pending(&self) -> Option<ApiRequest> {
        self.pending_api_request
    }

    pub open spec fn wf(&self) -> bool {
        self.dialogs.wf()
    }

    /// A fresh client: no session, the home page, no dialog.
    pub fn new() -> (r: App)
        ensures
            r.auth is Normal,
            r.page.is_fresh_page(PageId::Home),
            r.dialogs.entries() == Seq::<DialogEntry>::empty(),
            r.status is Ready,
            r.pending() is None,
            r.active_admin is None,
            !r.should_quit,
            r.locale_request is None,
            r.wf(),
    {
        App {
            auth: AuthState::Normal,
            page: Page::from_id(PageId::Home),
            dialogs: DialogStack::new(),
            status: StatusMessage::Ready,
            pending_api_request: None,
            active_admin: None,
            should_quit: false,
            locale_request: None,
        }
    }

    /// The state after `request_api(request)` with the session `auth`
    /// running, for the parts that do not change.
    pub open spec fn unchanged_but_dialogs(self, next: Self) -> bool {
        &&& next.auth == self.auth
        &&& next.page == self.page
        &&& next.status == self.status
        &&& next.active_admin == self.active_admin
        &&& next.should_quit == self.should_quit
        &&& next.locale_request == self.locale_request
    }

    /// `next` differs from this state in its dialogs at most.
    pub open spec fn only_dialogs_changed(self, next: Self) -> bool {
        &&& self.unchanged_but_dialogs(next)
        &&& next.pending() == self.pending()
    }

    /// What asking for a request does.
    pub open spec fn request_step(self, request: ApiRequest, next: Self, r: Option<ApiCommand>) -> bool {
        if request is EndAdminSession {
            next == self && match self.auth {
                AuthState::Admin(s) => r matches Some(c) && c.request == request
                    && carries_session_token(c, s),
                AuthState::Normal => r is None,
            }
        } else if !request.needs_auth() {
            next == self && (r matches Some(c) && c.request == request && c.authorization is None)
        } else {
            match self.auth {
                AuthState::Admin(s) => next == self && (r matches Some(c) && c.request == request
                    && carries_session_token(c, s)),
                AuthState::Normal => {
                    &&& r is None
                    &&& self.unchanged_but_dialogs(next)
                    &&& next.pending() == Some(request)
                    &&& next.dialogs.entries().len() == self.dialogs.entries().len() + 1
                    &&& next.dialogs.entries().drop_last() == self.dialogs.entries()
                    &&& next.dialogs.entries().last() matches DialogEntry::Normal(
                        Dialog::AdminAuth(d),
                    ) && d.is_new(self.active_admin)
                },
            }
        }
    }

    /// Turns a request into a command for the server.  A request that
    /// needs administrator rights gets the session's token; without a
    /// session it waits, and the administrator is asked for a password.
    pub fn request_api(&mut self, request: ApiRequest) -> (r: Option<ApiCommand>)
        requires
            old(self).wf(),
        ensures
            old(self).request_step(request, *final(self), r),
            final(self).wf(),
            command_ok(r),
    {
        if let ApiRequest::EndAdminSession = request {
            return match &self.auth {
                AuthState::Admin(session) => Some(
                    ApiCommand { request, authorization: Some(session.token.to_admin_token()) },
                ),
                AuthState::Normal => None,
            };
        }
        if !request.requires_auth() {
            return Some(ApiCommand { request, authorization: None });
        }
        match &self.auth {
            AuthState::Admin(session) => Some(
                ApiCommand { request, authorization: Some(session.token.to_admin_token()) },
            ),
            AuthState::Normal => {
                let admin = duplicate_context(&self.active_admin);
                self.pending_api_request = Some(request);
                let ghost before = self.dialogs.entries();
                let prompt = AdminAuthDialog::new(admin);
                let ghost p = prompt;
                self.dialogs.open(Dialog::AdminAuth(prompt), DialogOpenMode::Push);
                assert(self.dialogs.entries() == before.push(DialogEntry::Normal(Dialog::AdminAuth(p))));
                assert(self.dialogs.entries().drop_last() =~= before);
                None
            },
        }
    }

    /// Sends the waiting request with the single-use token the
    /// administrator's password obtained, closing the password prompt.
    pub fn complete_pending_request(&mut self, token: SingleUseToken) -> (r: Option<ApiCommand>)
        requires
            old(self).wf(),
        ensures
            final(self).wf(),
            command_ok(r),
            old(self).pending() is None ==> r is None && *final(self) == *old(self),
            old(self).pending() matches Some(req) ==> {
                &&& r matches Some(c) && c.request == req && (c.authorization matches Some(t)
                    && t.0@ == token.text())
                &&& final(self).pending() is None
                &&& old(self).unchanged_but_dialogs(*final(self))
                &&& final(self).dialogs.entries() == (if old(self).dialogs.entries().len() == 0 {
                    old(self).dialogs.entries()
                } else {
                    old(self).dialogs.entries().drop_last()
                })
            },
    {
        let request = match self.pending_api_request.take() {
            Some(request) => request,
            None => {
                return None;
            },
        };
        self.dialogs.close();
        Some(ApiCommand { request, authorization: Some(token.into_admin_token()) })
    }

    /// Records an error in the status line.
    pub fn handle_error(&mut self, error: AppError) -> (r: Option<ApiCommand>)
        ensures
            r is None,
            *final(self) == (App { status: StatusMessage::Error(error), ..*old(self) }),
    {
        self.status = StatusMessage::Error(error);
        None
    }

    /// Shows the status of a request and turns it into a command.
    pub fn handle_api_request(&mut self, request: ApiRequest) -> (r: Option<ApiCommand>)
        requires
            old(self).wf(),
        ensures
            final(self).wf(),
            command_ok(r),
            (App { status: StatusMessage::Progress(request.progress()), ..*old(self) }).request_step(
                request,
                *final(self),
                r,
            ),
    {
        self.status = request.status_message();
        self.request_api(request)
    }

    /// Whether showing `user` has to end the running session: always for a
    /// user who is not an administrator, and for another administrator.
    pub open spec fn needs_logout(self, user: User) -> bool {
        match self.auth {
            AuthState::Admin(s) => user.role == Role::User || s.user_id != user.id,
            AuthState::Normal => false,
        }
    }

    /// The command carries the running session's token.
    pub open spec fn session_carried(self, c: ApiCommand) -> bool {
        match self.auth {
            AuthState::Admin(s) => carries_session_token(c, s),
            AuthState::Normal => false,
        }
    }

    /// Showing a user: the user dialog replaces all dialogs, or goes on top
    /// of the administrator menu; an administrator becomes the scanned
    /// administrator; a running session of another person ends.
    pub open spec fn user_shown(self, user: User, next: Self, r: Option<ApiCommand>) -> bool {
        let mode = if self.dialogs.admin_menu_on_top() {
            DialogOpenMode::Push
        } else {
            DialogOpenMode::Reset
        };
        let opened_entries = next.dialogs.entries();
        &&& next.active_admin == (if user.role == Role::Admin {
            Some(AdminContext { user_id: user.id, name: user.name })
        } else {
            None
        })
        &&& opened_entries.len() > 0
        &&& opened_entries.drop_last() == opened(
            self.dialogs.entries(),
            opened_entries.last(),
            mode,
        ).drop_last()
        &&& opened_entries.last() matches DialogEntry::Normal(Dialog::User(d)) && d.is_new(user)
        &&& next.auth == self.auth
        &&& next.page == self.page
        &&& next.status == self.status
        &&& next.pending() == self.pending()
        &&& next.should_quit == self.should_quit
        &&& next.locale_request == self.locale_request
        &&& self.needs_logout(user) ==> (r matches Some(c) && c.request is EndAdminSession
            && self.session_carried(c))
        &&& !self.needs_logout(user) ==> r is None
    }

    /// Shows a looked-up user: the user dialog replaces all dialogs, or goes
    /// on top of the administrator menu; a running session of another
    /// person ends.
    pub fn open_user_dialog(&mut self, user: User) -> (r: Option<ApiCommand>)
        requires
            old(self).wf(),
        ensures
            final(self).wf(),
            command_ok(r),
            old(self).user_shown(user, *final(self), r),
    {
        let needs_logout = match &self.auth {
            AuthState::Admin(session) => match user.role {
                Role::Admin => session.user_id != user.id,
                Role::User => true,
            },
            AuthState::Normal => false,
        };
        self.active_admin = match user.role {
            Role::Admin => Some(AdminContext { user_id: user.id, name: user.name.clone() }),
            Role::User => None,
        };
        let mode = if self.dialogs.is_admin_menu_active() {
            DialogOpenMode::Push
        } else {
            DialogOpenMode::Reset
        };
        let ghost before = self.dialogs.entries();
        self.dialogs.open(Dialog::User(UserDialog::new(user)), mode);
        proof {
            let e = self.dialogs.entries();
            assert(e.drop_last() =~= opened(before, e.last(), mode).drop_last());
        }
        if needs_logout {
            let r = self.request_api(ApiRequest::EndAdminSession);
            r
        } else {
            None
        }
    }

    /// Closing the top dialog; closing the last one forgets the scanned
    /// administrator and ends a running session.
    pub open spec fn dialog_closed(self, next: Self, r: Option<ApiCommand>) -> bool {
        &&& next.dialogs.entries() == (if self.dialogs.entries().len() == 0 {
            self.dialogs.entries()
        } else {
            self.dialogs.entries().drop_last()
        })
        &&& next.auth == self.auth
        &&& next.page == self.page
        &&& next.status == self.status
        &&& next.dialogs.entries().len() > 0 ==> r is None && next.active_admin == self.active_admin
        &&& next.dialogs.entries().len() == 0 ==> next.active_admin is None && match self.auth {
            AuthState::Admin(s) => r matches Some(c) && c.request is EndAdminSession
                && carries_session_token(c, s),
            AuthState::Normal => r is None,
        }
    }

    /// Closes the top dialog; closing the last one forgets the scanned
    /// administrator and ends a running session.
    pub fn handle_close_dialog(&mut self) -> (r: Option<ApiCommand>)
        requires
            old(self).wf(),
        ensures
            final(self).wf(),
            command_ok(r),
            old(self).dialog_closed(*final(self), r),
    {
        self.dialogs.close();
        if !self.dialogs.is_empty() {
            return None;
        }
        self.active_admin = None;
        self.request_api(ApiRequest::EndAdminSession)
    }

    /// The order in which messages may call back into `update`.
    pub open spec fn rank(m: Message) -> int {
        match m {
            Message::ApiResponse(_) => 2,
            Message::CardScanned(_) => 2,
            Message::Navigate(_) => 1,
            _ => 0,
        }
    }

    /// The top dialog took a step: it holds its next state in an entry of
    /// the same kind, and nothing else changed.
    pub open spec fn top_stepped(self, next: Self) -> bool {
        let before = self.dialogs.entries();
        let after = next.dialogs.entries();
        &&& before.len() > 0
        &&& after.len() == before.len()
        &&& after.drop_last() == before.drop_last()
        &&& before.last().same_kind(after.last(), after.last().dialog())
        &&& self.only_dialogs_changed(next)
    }

    /// A scanned card: a dialog that keeps cards keeps it; otherwise the
    /// card's user is looked up.
    pub open spec fn card_scanned(self, card: String, next: Self, r: Option<ApiCommand>) -> bool {
        let entries = self.dialogs.entries();
        &&& next.auth == self.auth
        &&& entries.len() > 0 && entries.last().dialog().takes_scan() ==> {
            &&& r is None
            &&& self.top_stepped(next)
            &&& entries.last().dialog().scan_step(
                card,
                next.dialogs.entries().last().dialog(),
                DialogResult::Consumed,
            )
        }
        &&& !(entries.len() > 0 && entries.last().dialog().takes_scan()) ==> {
            &&& r matches Some(c) && c.authorization is None && (c.request matches ApiRequest::LookupUser(
                id,
            ) && id@ == card@)
            &&& next.status == StatusMessage::Progress(ProgressMessage::LookingUp)
            &&& next.dialogs.entries() == self.dialogs.entries()
            &&& next.page == self.page
            &&& next.pending() == self.pending()
            &&& next.active_admin == self.active_admin
            &&& next.should_quit == self.should_quit
            &&& next.locale_request == self.locale_request
        }
    }

    /// A scanned card goes to the top dialog; when no dialog takes it, the
    /// card's user is looked up.
    pub fn handle_card_scan(&mut self, card: String) -> (r: Option<ApiCommand>)
        requires
            old(self).wf(),
        ensures
            final(self).wf(),
            command_ok(r),
            old(self).card_scanned(card, *final(self), r),
        decreases 2int, 0int,
    {
        let ghost before = self.dialogs.entries();
        let card = match self.dialogs.handle_scan(card) {
            DialogResult::Consumed => {
                return None;
            },
            DialogResult::Message(message) => {
                return self.update(message);
            },
            DialogResult::Unhandled(card) => card,
        };
        proof {
            if before.len() > 0 {
                lemma_same_top(before, self.dialogs.entries());
            }
        }
        self.status = StatusMessage::Progress(ProgressMessage::LookingUp);
        self.request_api(ApiRequest::LookupUser(card))
    }

    /// A single-use token goes to the waiting request, if there is one.
    pub open spec fn token_delivered(self, t: SingleUseToken, next: Self, r: Option<ApiCommand>) -> bool {
        &&& self.pending() is None ==> r is None && next == self
        &&& self.pending() matches Some(req) ==> {
            &&& r matches Some(c) && c.request == req && (c.authorization matches Some(a) && a.0@
                == t.text())
            &&& next.pending() is None
        }
    }

    /// What a finished request does: a single-use token goes to the waiting
    /// request; a dialog waiting for a looked-up user keeps it; other
    /// results get the default handling.
    pub open spec fn response_handled(self, result: ApiResult, next: Self, r: Option<ApiCommand>) -> bool {
        match result {
            ApiResult::AuthenticateAdmin(t) => self.token_delivered(t, next, r),
            _ => {
                let entries = self.dialogs.entries();
                if entries.len() > 0 && entries.last().dialog().takes_result(result) {
                    &&& r is None
                    &&& self.top_stepped(next)
                    &&& entries.last().dialog().result_step(
                        result,
                        next.dialogs.entries().last().dialog(),
                        DialogResult::Consumed,
                    )
                } else {
                    self.result_handled(result, next, r)
                }
            },
        }
    }

    /// A finished request: an administrator token completes the waiting
    /// request; other results go to the top dialog first, then to the
    /// default handling.
    pub fn handle_api_result(&mut self, result: ApiResult) -> (r: Option<ApiCommand>)
        requires
            old(self).wf(),
        ensures
            final(self).wf(),
            command_ok(r),
            old(self).response_handled(result, *final(self), r),
        decreases 2int, 0int,
    {
        if let ApiResult::AuthenticateAdmin(token) = result {
            return self.complete_pending_request(token);
        }
        let ghost before = self.dialogs.entries();
        let result = match self.dialogs.handle_api_result(result) {
            DialogResult::Consumed => {
                return None;
            },
            DialogResult::Message(message) => {
                return self.update(message);
            },
            DialogResult::Unhandled(result) => result,
        };
        proof {
            if before.len() > 0 {
                lemma_same_top(before, self.dialogs.entries());
            }
        }
        self.handle_api_result_default(result)
    }

    /// What the default handling of a finished request does.
    pub open spec fn result_handled(self, result: ApiResult, next: Self, r: Option<ApiCommand>) -> bool {
        match result {
            ApiResult::Spend(t) => {
                &&& r is None
                &&& next.status == StatusMessage::SpendSuccess(t.amount.0)
                &&& next.auth == self.auth
                &&& next.page == self.page
                &&& self.rest_kept(next)
                &&& next.dialogs.entries() == closed(self.dialogs.entries())
            },
            ApiResult::TopUp(t) => {
                &&& next.status == StatusMessage::TopUpSuccess(t.amount.0)
                &&& next.auth == self.auth
                &&& next.page == self.page
                &&& self.rest_kept(next)
                &&& next.dialogs.entries() == popped_to_admin_menu(self.dialogs.entries())
                &&& r matches Some(c) && c.authorization is None && (c.request matches ApiRequest::LookupUser(
                    id,
                ) && id@ == uuid_text(t.user_id.0))
            },
            ApiResult::StartAdminSession { user_id, token } => {
                &&& r is None
                &&& next.auth == AuthState::Admin(AdminSession { user_id, token })
                &&& next.status == StatusMessage::SessionStarted
                &&& next.page == self.page
                &&& self.rest_kept(next)
                &&& told_auth(closed(self.dialogs.entries()), next.auth, next.dialogs.entries())
            },
            ApiResult::EndAdminSession => {
                &&& r is None
                &&& next.auth is Normal
                &&& next.status == StatusMessage::SessionEnded
                &&& next.page == self.page
                &&& self.rest_kept(next)
                &&& told_auth(self.dialogs.entries(), next.auth, next.dialogs.entries())
            },
            ApiResult::GrantAdmin(id) => {
                &&& r is None
                &&& next.status matches StatusMessage::AdminGranted(s) && s@ == uuid_text(id.0)
                &&& next.auth == self.auth
                &&& next.page == self.page
                &&& self.rest_kept(next)
                &&& next.dialogs.entries() == popped_to_admin_menu(self.dialogs.entries())
            },
            ApiResult::RevokeAdmin(id) => {
                &&& r is None
                &&& next.status matches StatusMessage::AdminRevoked(s) && s@ == uuid_text(id.0)
                &&& next.auth == self.auth
                &&& next.page == self.page
                &&& self.rest_kept(next)
                &&& next.dialogs.entries() == popped_to_admin_menu(self.dialogs.entries())
            },
            ApiResult::Users(users) => {
                &&& r is None
                &&& next.status == StatusMessage::UsersLoaded(users@.len() as usize)
                &&& next.auth == self.auth
                &&& self.rest_kept(next)
                &&& next.dialogs.entries() == self.dialogs.entries()
                &&& next.page.id_spec() == self.page.id_spec()
                &&& self.page is Users ==> (next.page matches Page::Users(p) && p.users@
                    == users@ && !p.loading)
                &&& !(self.page is Users) ==> next.page == self.page
            },
            ApiResult::Stats(stats) => {
                &&& r is None
                &&& next.status == StatusMessage::StatsLoaded
                &&& next.auth == self.auth
                &&& self.rest_kept(next)
                &&& next.dialogs.entries() == self.dialogs.entries()
                &&& self.page is Stats ==> next.page == Page::Stats(
                    StatsPage { stats: Some(stats), loading: false },
                )
                &&& !(self.page is Stats) ==> next.page == self.page
            },
            ApiResult::LookupUser(u) => {
                &&& next.status matches StatusMessage::UserLoaded(name) && name@ == u.name@
                &&& (App { status: next.status, ..self }).user_shown(u, next, r)
            },
            ApiResult::MakeUser(u) | ApiResult::UpdateUser(u) => {
                &&& (next.status matches StatusMessage::UserCreated(name) && result is MakeUser
                    && name@ == u.name@) || (next.status matches StatusMessage::UserUpdated(
                    name,
                ) && result is UpdateUser && name@ == u.name@)
                &&& next.auth == self.auth
                &&& next.page == self.page
                &&& self.rest_kept(next)
                &&& next.dialogs.entries() == popped_to_admin_menu(self.dialogs.entries())
                &&& r matches Some(c) && c.authorization is None && (c.request matches ApiRequest::LookupUser(
                    id,
                ) && id@ == uuid_text(u.id.0))
            },
            ApiResult::AuthenticateAdmin(_) => true,
        }
    }

    /// The waiting request, the scanned administrator, the quit flag and
    /// the language request stay as they were.
    pub open spec fn rest_kept(self, next: Self) -> bool {
        &&& next.pending() == self.pending()
        &&& next.active_admin == self.active_admin
        &&& next.should_quit == self.should_quit
        &&& next.locale_request == self.locale_request
    }

    /// The default handling of a finished request.
    pub fn handle_api_result_default(&mut self, result: ApiResult) -> (r: Option<ApiCommand>)
        requires
            old(self).wf(),
            !(result is AuthenticateAdmin),
        ensures
            final(self).wf(),
            command_ok(r),
            old(self).result_handled(result, *final(self), r),
    {
        match result {
            ApiResult::Users(users) => {
                let count = users.len();
                match &mut self.page {
                    Page::Users(page) => page.set_users(users),
                    _ => {},
                }
                self.status = StatusMessage::UsersLoaded(count);
                None
            },
            ApiResult::Stats(stats) => {
                match &mut self.page {
                    Page::Stats(page) => page.set_stats(stats),
                    _ => {},
                }
                self.status = StatusMessage::StatsLoaded;
                None
            },
            ApiResult::LookupUser(user) => {
                self.status = StatusMessage::UserLoaded(user.name.clone());
                self.open_user_dialog(user)
            },
            ApiResult::Spend(transaction) => {
                self.status = StatusMessage::SpendSuccess(transaction.amount.0);
                self.dialogs.close();
                None
            },
            ApiResult::TopUp(transaction) => {
                self.status = StatusMessage::TopUpSuccess(transaction.amount.0);
                self.dialogs.close_to_admin_menu();
                self.request_api(ApiRequest::LookupUser(transaction.user_id.to_text()))
            },
            ApiResult::AuthenticateAdmin(_) => None,
            ApiResult::StartAdminSession { user_id, token } => {
                self.auth = AuthState::Admin(AdminSession::new(user_id, token));
                self.status = StatusMessage::SessionStarted;
                self.dialogs.close();
                self.dialogs.set_auth_state(&self.auth);
                None
            },
            ApiResult::EndAdminSession => {
                self.auth = AuthState::Normal;
                self.dialogs.set_auth_state(&self.auth);
                self.status = StatusMessage::SessionEnded;
                None
            },
            ApiResult::MakeUser(user) => {
                self.status = StatusMessage::UserCreated(user.name.clone());
                self.dialogs.close_to_admin_menu();
                self.request_api(ApiRequest::LookupUser(user.id.to_text()))
            },
            ApiResult::UpdateUser(user) => {
                self.status = StatusMessage::UserUpdated(user.name.clone());
                self.dialogs.close_to_admin_menu();
                self.request_api(ApiRequest::LookupUser(user.id.to_text()))
            },
            ApiResult::GrantAdmin(user_id) => {
                self.status = StatusMessage::AdminGranted(user_id.to_text());
                self.dialogs.close_to_admin_menu();
                None
            },
            ApiResult::RevokeAdmin(user_id) => {
                self.status = StatusMessage::AdminRevoked(user_id.to_text());
                self.dialogs.close_to_admin_menu();
                None
            },
        }
    }

    /// Answers a message; returns the command to send to the server, if any.
    pub fn update(&mut self, message: Message) -> (r: Option<ApiCommand>)
        requires
            old(self).wf(),
            message.wf(),
        ensures
            final(self).wf(),
            command_ok(r),
            message is Quit ==> r is None && final(self).should_quit,
            message matches Message::Failed(e) ==> r is None && *final(self) == (App {
                status: StatusMessage::Error(e),
                ..*old(self)
            }),
            message matches Message::ApiRequest(req) ==> (App {
                status: StatusMessage::Progress(req.progress()),
                ..*old(self)
            }).request_step(req, *final(self), r),
            message matches Message::Navigate(p) ==> final(self).page.is_fresh_page(p) && (p
                == PageId::Users ==> (r matches Some(c) && c.request is ListUsers)) && (p
                != PageId::Users ==> r is None),
            message matches Message::SetLanguage(l) ==> r is None && final(self).locale_request
                == Some(LocaleRequest::Choose(l)),
            message is ToggleLanguage ==> r is None && final(self).locale_request == Some(
                LocaleRequest::Toggle,
            ),
            message matches Message::Status(st) ==> r is None && *final(self) == (App {
                status: st,
                ..*old(self)
            }),
            message matches Message::OpenDialog { dialog, mode } ==> {
                &&& r is None
                &&& old(self).only_dialogs_changed(*final(self))
                &&& final(self).dialogs.entries() == opened(
                    old(self).dialogs.entries(),
                    DialogEntry::Normal(dialog),
                    mode,
                )
            },
            message matches Message::OpenAdminDialog { dialog, mode } ==> {
                &&& r is None
                &&& old(self).only_dialogs_changed(*final(self))
                &&& exists|mid: Dialog, d: Dialog|
                    #![trigger mid.admin_context_step(old(self).active_admin, d)]
                    dialog.auth_state_step(old(self).auth, mid) && mid.admin_context_step(
                        old(self).active_admin,
                        d,
                    ) && final(self).dialogs.entries() == opened(
                        old(self).dialogs.entries(),
                        DialogEntry::Admin(d),
                        mode,
                    )
            },
            message is CloseDialog ==> old(self).dialog_closed(*final(self), r),
            message matches Message::CardScanned(card) ==> old(self).card_scanned(card, *final(self), r),
            message matches Message::OpenUser(u) ==> old(self).user_shown(u, *final(self), r),
            message matches Message::ApiResponse(result) ==> old(self).response_handled(
                result,
                *final(self),
                r,
            ),
        decreases App::rank(message), 1int,
    {
        match message {
            Message::ApiRequest(request) => {
                return self.handle_api_request(request);
            },
            Message::ApiResponse(result) => {
                return self.handle_api_result(result);
            },
            Message::Status(status) => self.status = status,
            Message::Failed(error) => {
                return self.handle_error(error);
            },
            Message::OpenDialog { dialog, mode } => self.dialogs.open(dialog, mode),
            Message::OpenAdminDialog { dialog, mode } => {
                let context = duplicate_context(&self.active_admin);
                self.dialogs.open_admin(dialog, mode, &self.auth, context);
            },
            Message::CloseDialog => {
                return self.handle_close_dialog();
            },
            Message::CardScanned(card) => {
                return self.handle_card_scan(card);
            },
            Message::OpenUser(user) => {
                return self.open_user_dialog(user);
            },
            Message::Navigate(page) => {
                self.page = Page::from_id(page);
                if page == PageId::Users {
                    return self.update(Message::ApiRequest(ApiRequest::ListUsers));
                }
            },
            Message::Quit => self.should_quit = true,
            Message::SetLanguage(language) => {
                self.locale_request = Some(LocaleRequest::Choose(language));
                self.dialogs.close();
            },
            Message::ToggleLanguage => self.locale_request = Some(LocaleRequest::Toggle),
        }
        None
    }

    /// Hands the front end the language change to carry out, if any.
    pub fn take_locale_request(&mut self) -> (r: Option<LocaleRequest>)
        ensures
            r == old(self).locale_request,
            *final(self) == (App { locale_request: None, ..*old(self) }),
    {
        let r = self.locale_request;
        self.locale_request = None;
        r
    }
}

/// Showing a user keeps a running administrator session only for the
/// session's own administrator.  Showing anyone else, an administrator or
/// not, ends it with a command that carries the session's token; with no
/// session running, nothing is sent.
pub proof fn showing_another_user_ends_the_session(app: App, user: User, next: App, r: Option<ApiCommand>)
    requires
        app.user_shown(user, next, r),
    ensures
        match app.auth {
            AuthState::Admin(s) => if user.id == s.user_id && user.role == Role::Admin {
                r is None
            } else {
                r matches Some(c) && c.request is EndAdminSession && carries_session_token(c, s)
            },
            AuthState::Normal => r is None,
        },
{
}

} // verus!
