//! Carrying out a command: which HTTP calls it takes, in what order, and
//! what message its outcome becomes.
//!
//! The front end performs the calls; this module decides them.  `start`
//! gives the first step of a command and `resume` the next step after each
//! call's outcome, until a step finishes with a message for the application.
use crate::app::authorized;
use crate::auth::{AdminToken, SingleUseToken};
use crate::error::{ApiClientError, ApiErrorCode, AppError, AuthorizationOperation};
use crate::message::Message;
use crate::model::{uuid_text, Date, StatsSummary, Transaction, User, UserId, UserPatch};
use crate::request::{ApiCommand, ApiRequest, ApiResult};
use crate::text::to_owned_string;
use vstd::prelude::*;

verus! {

/// One call of the server's API.
#[derive(Debug)]
pub enum ApiCall {
    ResolveUser { identifier: String },
    GetUser { user_id: UserId },
    ListUsers,
    StatsSummary,
    Spend { user_id: UserId, amount: u32 },
    RequestAdminToken { user_id: UserId, password: String },
    CreateSession { token: SingleUseToken },
    Logout { token: AdminToken },
    TopUp { user_id: UserId, amount: u32, token: AdminToken },
    MakeUser {
        name: String,
        username: String,
        program: String,
        card_number: u32,
        birthdate: Date,
        token: AdminToken,
    },
    UpdateUser { user_id: UserId, patch: UserPatch, token: AdminToken },
    GrantAdmin { user_id: UserId, password: String, token: AdminToken },
    RevokeAdmin { user_id: UserId, token: AdminToken },
}

/// What a successful call returned.
#[derive(Debug)]
pub enum ApiReply {
    UserId(UserId),
    User(User),
    Users(Vec<User>),
    Summary(StatsSummary),
    Transaction(Transaction),
    Token(AdminToken),
    Empty,
}

/// Where a command stands between calls.
#[derive(Debug)]
pub enum Execution {
    /// Looking a user up: the identifier is being resolved.
    LookupResolving,
    /// Looking a user up: the user is being fetched.
    LookupFetching,
    /// Starting a session: the password is being exchanged for a token.
    SessionAuthenticating { user_id: UserId },
    /// Starting a session: the single-use token is being exchanged.
    SessionCreating { user_id: UserId },
    /// Revoking a role: the identifier is being resolved.
    RevokeResolving { token: AdminToken },
    /// Waiting for the one call whose reply is the command's result.
    Awaiting(Expected),
    Finished,
}

/// The result a single call turns into.
#[derive(Clone, Copy, Debug, PartialEq, Eq, Structural)]
pub enum Expected {
    Users,
    Stats,
    Spend,
    TopUp,
    AuthenticateAdmin,
    EndAdminSession,
    MakeUser,
    UpdateUser,
    GrantAdmin(UserId),
    RevokeAdmin(UserId),
}

/// The next thing to do for a command.
#[derive(Debug)]
pub enum Step {
    Call(ApiCall),
    Finish(Message),
}

/// The message for a failed call.
pub open spec fn failure(e: ApiClientError) -> Message {
    Message::Failed(AppError::of_client_error(e))
}

/// The message for a command that needed a token and had none.
pub open spec fn missing_token(op: AuthorizationOperation) -> Message {
    Message::Failed(AppError::MissingAuthorization { operation: op })
}

/// The message for a reply of the wrong kind.
pub open spec fn unexpected_reply() -> Message {
    Message::Failed(AppError::InvalidResponse)
}

/// `s` finishes with `m`, and the execution is over.
pub open spec fn finishes(next: Execution, s: Step, m: Message) -> bool {
    next is Finished && s == Step::Finish(m)
}

/// The first step of a command.
pub open spec fn start_step(c: ApiCommand, next: Execution, s: Step) -> bool {
    match c.request {
        ApiRequest::ListUsers => next == Execution::Awaiting(Expected::Users) && s matches Step::Call(ApiCall::ListUsers),
        ApiRequest::Stats => next == Execution::Awaiting(Expected::Stats) && s matches Step::Call(ApiCall::StatsSummary),
        ApiRequest::LookupUser(id) => next is LookupResolving && (s matches Step::Call(
            ApiCall::ResolveUser { identifier },
        ) && identifier == id),
        ApiRequest::Spend { user_id, amount } => next == Execution::Awaiting(Expected::Spend) && s
            == Step::Call(ApiCall::Spend { user_id, amount }),
        ApiRequest::AuthenticateAdmin { user_id, password } => next == Execution::Awaiting(
            Expected::AuthenticateAdmin,
        ) && s == Step::Call(ApiCall::RequestAdminToken { user_id, password }),
        ApiRequest::StartAdminSession { user_id, password } => next
            == Execution::SessionAuthenticating { user_id } && s == Step::Call(
            ApiCall::RequestAdminToken { user_id, password },
        ),
        ApiRequest::TopUp { user_id, amount } => match c.authorization {
            Some(token) => next == Execution::Awaiting(Expected::TopUp) && s == Step::Call(
                ApiCall::TopUp { user_id, amount, token },
            ),
            None => finishes(next, s, missing_token(AuthorizationOperation::TopUp)),
        },
        ApiRequest::EndAdminSession => match c.authorization {
            Some(token) => next == Execution::Awaiting(Expected::EndAdminSession) && s
                == Step::Call(ApiCall::Logout { token }),
            None => finishes(next, s, missing_token(AuthorizationOperation::EndAdminSession)),
        },
        ApiRequest::MakeUser { name, username, program, card_number, birthdate } => match c.authorization {
            Some(token) => next == Execution::Awaiting(Expected::MakeUser) && s == Step::Call(
                ApiCall::MakeUser { name, username, program, card_number, birthdate, token },
            ),
            None => finishes(next, s, missing_token(AuthorizationOperation::CreateUser)),
        },
        ApiRequest::UpdateUser { user_id, patch } => match c.authorization {
            Some(token) => next == Execution::Awaiting(Expected::UpdateUser) && s == Step::Call(
                ApiCall::UpdateUser { user_id, patch, token },
            ),
            None => finishes(next, s, missing_token(AuthorizationOperation::UpdateUser)),
        },
        ApiRequest::GrantAdmin { user_id, password } => match c.authorization {
            Some(token) => next == Execution::Awaiting(Expected::GrantAdmin(user_id)) && s
                == Step::Call(ApiCall::GrantAdmin { user_id, password, token }),
            None => finishes(next, s, missing_token(AuthorizationOperation::GrantAdmin)),
        },
        ApiRequest::RevokeAdmin { identifier } => match c.authorization {
            Some(token) => next == Execution::RevokeResolving { token } && s == Step::Call(
                ApiCall::ResolveUser { identifier },
            ),
            None => finishes(next, s, missing_token(AuthorizationOperation::RevokeAdmin)),
        },
    }
}

/// The first step of a command.  A command that needs a token and has none
/// finishes at once without any call.
pub fn start(command: ApiCommand) -> (r: (Execution, Step))
    ensures
        start_step(command, r.0, r.1),
{
    let ApiCommand { request, authorization } = command;
    match request {
        ApiRequest::ListUsers => (Execution::Awaiting(Expected::Users), Step::Call(ApiCall::ListUsers)),
        ApiRequest::Stats => (
            Execution::Awaiting(Expected::Stats),
            Step::Call(ApiCall::StatsSummary),
        ),
        ApiRequest::LookupUser(identifier) => (
            Execution::LookupResolving,
            Step::Call(ApiCall::ResolveUser { identifier }),
        ),
        ApiRequest::Spend { user_id, amount } => (
            Execution::Awaiting(Expected::Spend),
            Step::Call(ApiCall::Spend { user_id, amount }),
        ),
        ApiRequest::AuthenticateAdmin { user_id, password } => (
            Execution::Awaiting(Expected::AuthenticateAdmin),
            Step::Call(ApiCall::RequestAdminToken { user_id, password }),
        ),
        ApiRequest::StartAdminSession { user_id, password } => (
            Execution::SessionAuthenticating { user_id },
            Step::Call(ApiCall::RequestAdminToken { user_id, password }),
        ),
        ApiRequest::TopUp { user_id, amount } => match authorization {
            Some(token) => (
                Execution::Awaiting(Expected::TopUp),
                Step::Call(ApiCall::TopUp { user_id, amount, token }),
            ),
            None => (
                Execution::Finished,
                Step::Finish(
                    Message::Failed(
                        AppError::MissingAuthorization { operation: AuthorizationOperation::TopUp },
                    ),
                ),
            ),
        },
        ApiRequest::EndAdminSession => match authorization {
            Some(token) => (
                Execution::Awaiting(Expected::EndAdminSession),
                Step::Call(ApiCall::Logout { token }),
            ),
            None => (
                Execution::Finished,
                Step::Finish(
                    Message::Failed(
                        AppError::MissingAuthorization {
                            operation: AuthorizationOperation::EndAdminSession,
                        },
                    ),
                ),
            ),
        },
        ApiRequest::MakeUser { name, username, program, card_number, birthdate } => match authorization {
            Some(token) => (
                Execution::Awaiting(Expected::MakeUser),
                Step::Call(
                    ApiCall::MakeUser { name, username, program, card_number, birthdate, token },
                ),
            ),
            None => (
                Execution::Finished,
                Step::Finish(
                    Message::Failed(
                        AppError::MissingAuthorization {
                            operation: AuthorizationOperation::CreateUser,
                        },
                    ),
                ),
            ),
        },
        ApiRequest::UpdateUser { user_id, patch } => match authorization {
            Some(token) => (
                Execution::Awaiting(Expected::UpdateUser),
                Step::Call(ApiCall::UpdateUser { user_id, patch, token }),
            ),
            None => (
                Execution::Finished,
                Step::Finish(
                    Message::Failed(
                        AppError::MissingAuthorization {
                            operation: AuthorizationOperation::UpdateUser,
                        },
                    ),
                ),
            ),
        },
        ApiRequest::GrantAdmin { user_id, password } => match authorization {
            Some(token) => (
                Execution::Awaiting(Expected::GrantAdmin(user_id)),
                Step::Call(ApiCall::GrantAdmin { user_id, password, token }),
            ),
            None => (
                Execution::Finished,
                Step::Finish(
                    Message::Failed(
                        AppError::MissingAuthorization {
                            operation: AuthorizationOperation::GrantAdmin,
                        },
                    ),
                ),
            ),
        },
        ApiRequest::RevokeAdmin { identifier } => match authorization {
            Some(token) => (
                Execution::RevokeResolving { token },
                Step::Call(ApiCall::ResolveUser { identifier }),
            ),
            None => (
                Execution::Finished,
                Step::Finish(
                    Message::Failed(
                        AppError::MissingAuthorization {
                            operation: AuthorizationOperation::RevokeAdmin,
                        },
                    ),
                ),
            ),
        },
    }
}

/// The message a reply turns into when it is the command's result.
pub open spec fn expected_message(e: Expected, reply: ApiReply, m: Message) -> bool {
    match (e, reply) {
        (Expected::Users, ApiReply::Users(u)) => m == Message::ApiResponse(ApiResult::Users(u)),
        (Expected::Stats, ApiReply::Summary(s)) => m == Message::ApiResponse(
            ApiResult::Stats(
                crate::model::Stats {
                    total_users: s.total_users,
                    total_balance: crate::model::Amount(s.total_balance),
                    total_spent: crate::model::Amount(s.total_spent),
                    total_transactions: s.total_transactions,
                },
            ),
        ),
        (Expected::Spend, ApiReply::Transaction(t)) => m == Message::ApiResponse(ApiResult::Spend(t)),
        (Expected::TopUp, ApiReply::Transaction(t)) => m == Message::ApiResponse(ApiResult::TopUp(t)),
        (Expected::AuthenticateAdmin, ApiReply::Token(t)) => (m matches Message::ApiResponse(
            ApiResult::AuthenticateAdmin(s),
        ) && s.text() == t.0@),
        (Expected::EndAdminSession, ApiReply::Empty) => m == Message::ApiResponse(
            ApiResult::EndAdminSession,
        ),
        (Expected::MakeUser, ApiReply::User(u)) => m == Message::ApiResponse(ApiResult::MakeUser(u)),
        (Expected::UpdateUser, ApiReply::User(u)) => m == Message::ApiResponse(
            ApiResult::UpdateUser(u),
        ),
        (Expected::GrantAdmin(id), ApiReply::Empty) => m == Message::ApiResponse(
            ApiResult::GrantAdmin(id),
        ),
        (Expected::RevokeAdmin(id), ApiReply::Empty) => m == Message::ApiResponse(
            ApiResult::RevokeAdmin(id),
        ),
        _ => m == unexpected_reply(),
    }
}

/// The step after a call's outcome.
pub open spec fn resume_step(state: Execution, outcome: Result<ApiReply, ApiClientError>, next: Execution, s: Step) -> bool {
    match outcome {
        Err(e) => finishes(next, s, failure(e)),
        Ok(reply) => match state {
            Execution::LookupResolving => match reply {
                ApiReply::UserId(id) => next is LookupFetching && s == Step::Call(
                    ApiCall::GetUser { user_id: id },
                ),
                _ => finishes(next, s, unexpected_reply()),
            },
            Execution::LookupFetching => match reply {
                ApiReply::User(u) => finishes(next, s, Message::ApiResponse(ApiResult::LookupUser(u))),
                _ => finishes(next, s, unexpected_reply()),
            },
            Execution::SessionAuthenticating { user_id } => match reply {
                ApiReply::Token(t) => next == Execution::SessionCreating { user_id } && (
                s matches Step::Call(ApiCall::CreateSession { token }) && token.text() == t.0@),
                _ => finishes(next, s, unexpected_reply()),
            },
            Execution::SessionCreating { user_id } => match reply {
                ApiReply::Token(t) => next is Finished && (s matches Step::Finish(
                    Message::ApiResponse(ApiResult::StartAdminSession { user_id: id, token }),
                ) && id == user_id && token.text() == t.0@),
                _ => finishes(next, s, unexpected_reply()),
            },
            Execution::RevokeResolving { token } => match reply {
                ApiReply::UserId(id) => next == Execution::Awaiting(Expected::RevokeAdmin(id)) && s
                    == Step::Call(ApiCall::RevokeAdmin { user_id: id, token }),
                _ => finishes(next, s, unexpected_reply()),
            },
            Execution::Awaiting(e) => next is Finished && (s matches Step::Finish(m)
                && expected_message(e, reply, m)),
            Execution::Finished => finishes(next, s, unexpected_reply()),
        },
    }
}

/// The step after a call's outcome: a failed call finishes with its error;
/// a reply moves the command on or finishes it with its result.
pub fn resume(state: Execution, outcome: Result<ApiReply, ApiClientError>) -> (r: (Execution, Step))
    ensures
        resume_step(state, outcome, r.0, r.1),
{
    let reply = match outcome {
        Err(e) => {
            let m = Message::Failed(AppError::from_client_error(&e));
            return (Execution::Finished, Step::Finish(m));
        },
        Ok(reply) => reply,
    };
    let unexpected = Message::Failed(AppError::InvalidResponse);
    match state {
        Execution::LookupResolving => match reply {
            ApiReply::UserId(id) => (Execution::LookupFetching, Step::Call(ApiCall::GetUser { user_id: id })),
            _ => (Execution::Finished, Step::Finish(unexpected)),
        },
        Execution::LookupFetching => match reply {
            ApiReply::User(u) => (
                Execution::Finished,
                Step::Finish(Message::ApiResponse(ApiResult::LookupUser(u))),
            ),
            _ => (Execution::Finished, Step::Finish(unexpected)),
        },
        Execution::SessionAuthenticating { user_id } => match reply {
            ApiReply::Token(t) => (
                Execution::SessionCreating { user_id },
                Step::Call(ApiCall::CreateSession { token: SingleUseToken::from_admin_token(t) }),
            ),
            _ => (Execution::Finished, Step::Finish(unexpected)),
        },
        Execution::SessionCreating { user_id } => match reply {
            ApiReply::Token(t) => (
                Execution::Finished,
                Step::Finish(
                    Message::ApiResponse(
                        ApiResult::StartAdminSession {
                            user_id,
                            token: crate::auth::SessionToken::from_admin_token(t),
                        },
                    ),
                ),
            ),
            _ => (Execution::Finished, Step::Finish(unexpected)),
        },
        Execution::RevokeResolving { token } => match reply {
            ApiReply::UserId(id) => (
                Execution::Awaiting(Expected::RevokeAdmin(id)),
                Step::Call(ApiCall::RevokeAdmin { user_id: id, token }),
            ),
            _ => (Execution::Finished, Step::Finish(unexpected)),
        },
        Execution::Awaiting(e) => {
            let m = match (e, reply) {
                (Expected::Users, ApiReply::Users(u)) => Message::ApiResponse(ApiResult::Users(u)),
                (Expected::Stats, ApiReply::Summary(s)) => Message::ApiResponse(
                    ApiResult::Stats(s.to_stats()),
                ),
                (Expected::Spend, ApiReply::Transaction(t)) => Message::ApiResponse(
                    ApiResult::Spend(t),
                ),
                (Expected::TopUp, ApiReply::Transaction(t)) => Message::ApiResponse(
                    ApiResult::TopUp(t),
                ),
                (Expected::AuthenticateAdmin, ApiReply::Token(t)) => Message::ApiResponse(
                    ApiResult::AuthenticateAdmin(SingleUseToken::from_admin_token(t)),
                ),
                (Expected::EndAdminSession, ApiReply::Empty) => Message::ApiResponse(
                    ApiResult::EndAdminSession,
                ),
                (Expected::MakeUser, ApiReply::User(u)) => Message::ApiResponse(
                    ApiResult::MakeUser(u),
                ),
                (Expected::UpdateUser, ApiReply::User(u)) => Message::ApiResponse(
                    ApiResult::UpdateUser(u),
                ),
                (Expected::GrantAdmin(id), ApiReply::Empty) => Message::ApiResponse(
                    ApiResult::GrantAdmin(id),
                ),
                (Expected::RevokeAdmin(id), ApiReply::Empty) => Message::ApiResponse(
                    ApiResult::RevokeAdmin(id),
                ),
                _ => unexpected,
            };
            (Execution::Finished, Step::Finish(m))
        },
        Execution::Finished => (Execution::Finished, Step::Finish(unexpected)),
    }
}

/// A command that needs a token and has none makes no call: it finishes at
/// once with the missing-authorization error.
pub proof fn unauthorized_commands_make_no_call(c: ApiCommand, next: Execution, s: Step)
    requires
        c.request.needs_auth() || c.request is EndAdminSession,
        c.authorization is None,
        start_step(c, next, s),
    ensures
        next is Finished,
        s matches Step::Finish(Message::Failed(AppError::MissingAuthorization { .. })),
{
}

/// A failed call always ends the command with the failure's classification.
pub proof fn failures_end_the_command(state: Execution, e: ApiClientError, next: Execution, s: Step)
    requires
        resume_step(state, Err(e), next, s),
    ensures
        next is Finished,
        s == Step::Finish(Message::Failed(AppError::of_client_error(e))),
{
}

/// A command that carries a token wherever its request needs one is never
/// refused for want of one: its first step is a call, or a finish that is
/// not a missing-authorization failure.
pub proof fn authorized_commands_are_not_refused(c: ApiCommand, next: Execution, s: Step)
    requires
        authorized(c),
        start_step(c, next, s),
    ensures
        !(s matches Step::Finish(Message::Failed(AppError::MissingAuthorization { .. }))),
{
}

// ---------------------------------------------------------------------
// HTTP plans.
// ---------------------------------------------------------------------
/// The HTTP method of a call.
#[derive(Clone, Copy, Debug, PartialEq, Eq, Structural)]
pub enum HttpMethod {
    Get,
    Post,
    Patch,
    Delete,
}

/// The JSON body of a call.
#[derive(Debug)]
pub enum RequestBody {
    Empty,
    /// A bare amount.
    Amount(u32),
    /// The administrator credentials.
    Credentials { user_id: UserId, password: String },
    /// The fields of a new user.
    NewUser { name: String, username: String, program: String, card_number: u32, birthdate: Date },
    Patch(UserPatch),
    /// A bare password.
    Password(String),
}

/// What a call's successful reply holds.
#[derive(Clone, Copy, Debug, PartialEq, Eq, Structural)]
pub enum ReplyKind {
    UserId,
    User,
    Users,
    Summary,
    Transaction,
    Token,
    Empty,
}

/// How to make a call: method, path segments under the base URL, body,
/// bearer token, and the kind of reply to read.
#[derive(Debug)]
pub struct HttpPlan {
    pub method: HttpMethod,
    pub segments: Vec<String>,
    pub body: RequestBody,
    pub bearer: Option<String>,
    pub reply: ReplyKind,
}

pub open spec fn texts(v: Seq<String>) -> Seq<Seq<char>> {
    v.map_values(|s: String| s@)
}

/// The path of a call, segment by segment.
pub open spec fn call_path(c: ApiCall) -> Seq<Seq<char>> {
    match c {
        ApiCall::ResolveUser { identifier } => seq!["v1"@, "users"@, "resolve"@, identifier@],
        ApiCall::GetUser { user_id } => seq!["v1"@, "users"@, uuid_text(user_id.0)],
        ApiCall::ListUsers => seq!["v1"@, "users"@],
        ApiCall::StatsSummary => seq!["v1"@, "stats"@, "summary"@],
        ApiCall::Spend { user_id, .. } => seq!["v1"@, "users"@, uuid_text(user_id.0), "spend"@],
        ApiCall::RequestAdminToken { .. } => seq!["v1"@, "admins"@, "pass"@],
        ApiCall::CreateSession { .. } => seq!["v1"@, "admins"@, "session"@],
        ApiCall::Logout { .. } => seq!["v1"@, "admins"@, "session"@],
        ApiCall::TopUp { user_id, .. } => seq![
            "v1"@,
            "admins"@,
            "user_management"@,
            uuid_text(user_id.0),
            "topup"@,
        ],
        ApiCall::MakeUser { .. } => seq!["v1"@, "admins"@, "user_management"@, "create"@],
        ApiCall::UpdateUser { user_id, .. } => seq![
            "v1"@,
            "admins"@,
            "user_management"@,
            uuid_text(user_id.0),
            "update"@,
        ],
        ApiCall::GrantAdmin { user_id, .. } => seq![
            "v1"@,
            "admins"@,
            "user_management"@,
            uuid_text(user_id.0),
            "admin"@,
        ],
        ApiCall::RevokeAdmin { user_id, .. } => seq![
            "v1"@,
            "admins"@,
            "user_management"@,
            uuid_text(user_id.0),
            "admin"@,
        ],
    }
}

/// Method, bearer token and reply kind of a call.
pub open spec fn call_shape(c: ApiCall) -> (HttpMethod, Option<Seq<char>>, ReplyKind) {
    match c {
        ApiCall::ResolveUser { .. } => (HttpMethod::Get, None, ReplyKind::UserId),
        ApiCall::GetUser { .. } => (HttpMethod::Get, None, ReplyKind::User),
        ApiCall::ListUsers => (HttpMethod::Get, None, ReplyKind::Users),
        ApiCall::StatsSummary => (HttpMethod::Get, None, ReplyKind::Summary),
        ApiCall::Spend { .. } => (HttpMethod::Post, None, ReplyKind::Transaction),
        ApiCall::RequestAdminToken { .. } => (HttpMethod::Post, None, ReplyKind::Token),
        ApiCall::CreateSession { token } => (HttpMethod::Post, Some(token.text()), ReplyKind::Token),
        ApiCall::Logout { token } => (HttpMethod::Delete, Some(token.0@), ReplyKind::Empty),
        ApiCall::TopUp { token, .. } => (HttpMethod::Post, Some(token.0@), ReplyKind::Transaction),
        ApiCall::MakeUser { token, .. } => (HttpMethod::Post, Some(token.0@), ReplyKind::User),
        ApiCall::UpdateUser { token, .. } => (HttpMethod::Patch, Some(token.0@), ReplyKind::User),
        ApiCall::GrantAdmin { token, .. } => (HttpMethod::Post, Some(token.0@), ReplyKind::Empty),
        ApiCall::RevokeAdmin { token, .. } => (HttpMethod::Delete, Some(token.0@), ReplyKind::Empty),
    }
}

/// The body of a call.
pub open spec fn call_body(c: ApiCall, b: RequestBody) -> bool {
    match c {
        ApiCall::Spend { amount, .. } | ApiCall::TopUp { amount, .. } => b == RequestBody::Amount(
            amount,
        ),
        ApiCall::RequestAdminToken { user_id, password } => b == RequestBody::Credentials {
            user_id,
            password,
        },
        ApiCall::MakeUser { name, username, program, card_number, birthdate, .. } => b
            == RequestBody::NewUser { name, username, program, card_number, birthdate },
        ApiCall::UpdateUser { patch, .. } => b == RequestBody::Patch(patch),
        ApiCall::GrantAdmin { password, .. } => b == RequestBody::Password(password),
        _ => b is Empty,
    }
}

fn segment_list(parts: &[&str]) -> (r: Vec<String>)
    ensures
        texts(r@) == parts@.map_values(|p: &str| p@),
{
    let mut out: Vec<String> = Vec::new();
    let mut i: usize = 0;
    while i < parts.len()
        invariant
            i <= parts@.len(),
            out@.len() == i,
            texts(out@) == parts@.map_values(|p: &str| p@).take(i as int),
        decreases parts.len() - i,
    {
        let ghost before = out@;
        out.push(to_owned_string(parts[i]));
        assert forall|k: int| 0 <= k < i + 1 implies #[trigger] texts(out@)[k] == parts@.map_values(
            |p: &str| p@,
        ).take(i + 1)[k] by {
            if k < i {
                assert(out@[k] == before[k]);
                assert(texts(before)[k] == parts@.map_values(|p: &str| p@).take(i as int)[k]);
            }
        }
        assert(texts(out@) =~= parts@.map_values(|p: &str| p@).take(i + 1));
        i = i + 1;
    }
    assert(parts@.map_values(|p: &str| p@).take(parts@.len() as int) =~= parts@.map_values(|p: &str| p@));
    out
}

impl ApiCall {
    /// How to make the call.
    pub fn into_plan(self) -> (r: HttpPlan)
        ensures
            planned(self, r),
            texts(r.segments@) == call_path(self),
            (r.method, match r.bearer {
                Some(b) => Some(b@),
                None => None,
            }, r.reply) == call_shape(self),
            call_body(self, r.body),
    {
        proof {
            reveal_strlit("v1");
            reveal_strlit("users");
            reveal_strlit("resolve");
            reveal_strlit("stats");
            reveal_strlit("summary");
            reveal_strlit("spend");
            reveal_strlit("admins");
            reveal_strlit("pass");
            reveal_strlit("session");
            reveal_strlit("user_management");
            reveal_strlit("topup");
            reveal_strlit("create");
            reveal_strlit("update");
            reveal_strlit("admin");
        }
        match self {
            ApiCall::ResolveUser { identifier } => {
                let segments = segment_list(&["v1", "users", "resolve", identifier.as_str()]);
                HttpPlan {
                    method: HttpMethod::Get,
                    segments,
                    body: RequestBody::Empty,
                    bearer: None,
                    reply: ReplyKind::UserId,
                }
            },
            ApiCall::GetUser { user_id } => {
                let id = user_id.to_text();
                HttpPlan {
                    method: HttpMethod::Get,
                    segments: segment_list(&["v1", "users", id.as_str()]),
                    body: RequestBody::Empty,
                    bearer: None,
                    reply: ReplyKind::User,
                }
            },
            ApiCall::ListUsers => HttpPlan {
                method: HttpMethod::Get,
                segments: segment_list(&["v1", "users"]),
                body: RequestBody::Empty,
                bearer: None,
                reply: ReplyKind::Users,
            },
            ApiCall::StatsSummary => HttpPlan {
                method: HttpMethod::Get,
                segments: segment_list(&["v1", "stats", "summary"]),
                body: RequestBody::Empty,
                bearer: None,
                reply: ReplyKind::Summary,
            },
            ApiCall::Spend { user_id, amount } => {
                let id = user_id.to_text();
                HttpPlan {
                    method: HttpMethod::Post,
                    segments: segment_list(&["v1", "users", id.as_str(), "spend"]),
                    body: RequestBody::Amount(amount),
                    bearer: None,
                    reply: ReplyKind::Transaction,
                }
            },
            ApiCall::RequestAdminToken { user_id, password } => HttpPlan {
                method: HttpMethod::Post,
                segments: segment_list(&["v1", "admins", "pass"]),
                body: RequestBody::Credentials { user_id, password },
                bearer: None,
                reply: ReplyKind::Token,
            },
            ApiCall::CreateSession { token } => HttpPlan {
                method: HttpMethod::Post,
                segments: segment_list(&["v1", "admins", "session"]),
                body: RequestBody::Empty,
                bearer: Some(to_owned_string(token.as_str())),
                reply: ReplyKind::Token,
            },
            ApiCall::Logout { token } => HttpPlan {
                method: HttpMethod::Delete,
                segments: segment_list(&["v1", "admins", "session"]),
                body: RequestBody::Empty,
                bearer: Some(token.0),
                reply: ReplyKind::Empty,
            },
            ApiCall::TopUp { user_id, amount, token } => {
                let id = user_id.to_text();
                HttpPlan {
                    method: HttpMethod::Post,
                    segments: segment_list(
                        &["v1", "admins", "user_management", id.as_str(), "topup"],
                    ),
                    body: RequestBody::Amount(amount),
                    bearer: Some(token.0),
                    reply: ReplyKind::Transaction,
                }
            },
            ApiCall::MakeUser { name, username, program, card_number, birthdate, token } => HttpPlan {
                method: HttpMethod::Post,
                segments: segment_list(&["v1", "admins", "user_management", "create"]),
                body: RequestBody::NewUser { name, username, program, card_number, birthdate },
                bearer: Some(token.0),
                reply: ReplyKind::User,
            },
            ApiCall::UpdateUser { user_id, patch, token } => {
                let id = user_id.to_text();
                HttpPlan {
                    method: HttpMethod::Patch,
                    segments: segment_list(
                        &["v1", "admins", "user_management", id.as_str(), "update"],
                    ),
                    body: RequestBody::Patch(patch),
                    bearer: Some(token.0),
                    reply: ReplyKind::User,
                }
            },
            ApiCall::GrantAdmin { user_id, password, token } => {
                let id = user_id.to_text();
                HttpPlan {
                    method: HttpMethod::Post,
                    segments: segment_list(
                        &["v1", "admins", "user_management", id.as_str(), "admin"],
                    ),
                    body: RequestBody::Password(password),
                    bearer: Some(token.0),
                    reply: ReplyKind::Empty,
                }
            },
            ApiCall::RevokeAdmin { user_id, token } => {
                let id = user_id.to_text();
                HttpPlan {
                    method: HttpMethod::Delete,
                    segments: segment_list(
                        &["v1", "admins", "user_management", id.as_str(), "admin"],
                    ),
                    body: RequestBody::Empty,
                    bearer: Some(token.0),
                    reply: ReplyKind::Empty,
                }
            },
        }
    }
}

/// Whether an HTTP status reports success (200 to 299).
pub fn is_success_status(status: u16) -> (r: bool)
    ensures
        r == (200 <= status && status <= 299),
{
    200 <= status && status <= 299
}

/// The error body the server sends with an error status.
#[derive(Debug)]
pub struct ApiErrorBody {
    pub code: ApiErrorCode,
    pub message: Option<String>,
}

/// The failure for an error status: the server's error when its body was
/// read, otherwise an unreadable answer with the reading error's text.
pub fn api_error(status: u16, body: Result<ApiErrorBody, String>) -> (r: ApiClientError)
    ensures
        match body {
            Ok(b) => r == ApiClientError::Api { status, code: b.code, message: b.message },
            Err(m) => r == ApiClientError::InvalidResponse { message: m },
        },
{
    match body {
        Ok(b) => ApiClientError::Api { status, code: b.code, message: b.message },
        Err(message) => ApiClientError::InvalidResponse { message },
    }
}

/// `p` is how to make the call `c`.
pub open spec fn planned(c: ApiCall, p: HttpPlan) -> bool {
    &&& texts(p.segments@) =~= call_path(c)
    &&& (p.method, match p.bearer {
        Some(b) => Some(b@),
        None => None,
    }, p.reply) == call_shape(c)
    &&& call_body(c, p.body)
}

/// Granting and revoking a user's administrator rights address the same
/// path with the same token: granting posts the password, revoking deletes
/// with no body.
pub proof fn grant_posts_and_revoke_deletes(
    user_id: UserId,
    password: String,
    token: AdminToken,
    grant: HttpPlan,
    revoke: HttpPlan,
)
    requires
        planned(ApiCall::GrantAdmin { user_id, password, token }, grant),
        planned(ApiCall::RevokeAdmin { user_id, token }, revoke),
    ensures
        texts(grant.segments@) == texts(revoke.segments@),
        grant.method == HttpMethod::Post,
        revoke.method == HttpMethod::Delete,
        grant.body == RequestBody::Password(password),
        revoke.body is Empty,
        grant.bearer matches Some(b) && b@ == token.0@,
        revoke.bearer matches Some(b) && b@ == token.0@,
{
}

} // verus!
