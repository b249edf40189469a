//! What the application asks of the server, what it gets back, and what the
//! status line says meanwhile.
use crate::auth::{AdminToken, SessionToken, SingleUseToken};
use crate::error::AppError;
use crate::model::{Date, Stats, Transaction, User, UserId, UserPatch};
use vstd::prelude::*;

verus! {

/// A request the application wants the server to carry out.
#[derive(Debug)]
pub enum ApiRequest {
    ListUsers,
    Stats,
    /// Finds a user by card number or another identifier.
    LookupUser(String),
    Spend { user_id: UserId, amount: u32 },
    TopUp { user_id: UserId, amount: u32 },
    /// Asks for a single-use administrator token.
    AuthenticateAdmin { user_id: UserId, password: String },
    StartAdminSession { user_id: UserId, password: String },
    EndAdminSession,
    MakeUser { name: String, username: String, program: String, card_number: u32, birthdate: Date },
    UpdateUser { user_id: UserId, patch: UserPatch },
    GrantAdmin { user_id: UserId, password: String },
    /// Revokes the administrator role of the user the identifier names.
    RevokeAdmin { identifier: String },
}

impl ApiRequest {
    /// The requests that only an administrator may make.
    pub open spec fn needs_auth(&self) -> bool {
        match self {
            ApiRequest::TopUp { .. } | ApiRequest::MakeUser { .. } | ApiRequest::UpdateUser { .. }
            | ApiRequest::GrantAdmin { .. } | ApiRequest::RevokeAdmin { .. } => true,
            _ => false,
        }
    }

    pub fn requires_auth(&self) -> (r: bool)
        ensures
            r == self.needs_auth(),
    {
        match self {
            ApiRequest::TopUp { .. } | ApiRequest::MakeUser { .. } | ApiRequest::UpdateUser { .. }
            | ApiRequest::GrantAdmin { .. } | ApiRequest::RevokeAdmin { .. } => true,
            _ => false,
        }
    }

    pub open spec fn progress(&self) -> ProgressMessage {
        match self {
            ApiRequest::ListUsers => ProgressMessage::ListingUsers,
            ApiRequest::Stats => ProgressMessage::LoadingStats,
            ApiRequest::LookupUser(_) => ProgressMessage::LookingUp,
            ApiRequest::Spend { .. } => ProgressMessage::Spending,
            ApiRequest::TopUp { .. } => ProgressMessage::ToppingUp,
            ApiRequest::AuthenticateAdmin { .. } => ProgressMessage::Authenticating,
            ApiRequest::StartAdminSession { .. } => ProgressMessage::StartingSession,
            ApiRequest::EndAdminSession => ProgressMessage::EndingSession,
            ApiRequest::MakeUser { .. } => ProgressMessage::CreatingUser,
            ApiRequest::UpdateUser { .. } => ProgressMessage::UpdatingUser,
            ApiRequest::GrantAdmin { .. } => ProgressMessage::GrantingAdmin,
            ApiRequest::RevokeAdmin { .. } => ProgressMessage::RevokingAdmin,
        }
    }

    /// The status shown while the request runs.
    pub fn status_message(&self) -> (r: StatusMessage)
        ensures
            r == StatusMessage::Progress(self.progress()),
    {
        let progress = match self {
            ApiRequest::ListUsers => ProgressMessage::ListingUsers,
            ApiRequest::Stats => ProgressMessage::LoadingStats,
            ApiRequest::LookupUser(_) => ProgressMessage::LookingUp,
            ApiRequest::Spend { .. } => ProgressMessage::Spending,
            ApiRequest::TopUp { .. } => ProgressMessage::ToppingUp,
            ApiRequest::AuthenticateAdmin { .. } => ProgressMessage::Authenticating,
            ApiRequest::StartAdminSession { .. } => ProgressMessage::StartingSession,
            ApiRequest::EndAdminSession => ProgressMessage::EndingSession,
            ApiRequest::MakeUser { .. } => ProgressMessage::CreatingUser,
            ApiRequest::UpdateUser { .. } => ProgressMessage::UpdatingUser,
            ApiRequest::GrantAdmin { .. } => ProgressMessage::GrantingAdmin,
            ApiRequest::RevokeAdmin { .. } => ProgressMessage::RevokingAdmin,
        };
        StatusMessage::Progress(progress)
    }
}

/// What a finished request returned.
#[derive(Debug)]
pub enum ApiResult {
    Users(Vec<User>),
    Stats(Stats),
    LookupUser(User),
    Spend(Transaction),
    TopUp(Transaction),
    AuthenticateAdmin(SingleUseToken),
    StartAdminSession { user_id: UserId, token: SessionToken },
    EndAdminSession,
    MakeUser(User),
    UpdateUser(User),
    GrantAdmin(UserId),
    RevokeAdmin(UserId),
}

/// A request together with the token that authorises it, if any.
#[derive(Debug)]
pub struct ApiCommand {
    pub request: ApiRequest,
    pub authorization: Option<AdminToken>,
}

/// The status line.
#[derive(Debug)]
pub enum StatusMessage {
    Ready,
    UserLoaded(String),
    UsersLoaded(usize),
    StatsLoaded,
    SpendSuccess(u32),
    TopUpSuccess(u32),
    SessionStarted,
    SessionEnded,
    UserCreated(String),
    UserUpdated(String),
    AdminGranted(String),
    AdminRevoked(String),
    Progress(ProgressMessage),
    Error(AppError),
    NoChanges,
}

/// What a running request is doing.
#[derive(Clone, Copy, Debug, PartialEq, Eq, Structural)]
pub enum ProgressMessage {
    ListingUsers,
    LoadingStats,
    LookingUp,
    Spending,
    ToppingUp,
    Authenticating,
    StartingSession,
    EndingSession,
    CreatingUser,
    UpdatingUser,
    GrantingAdmin,
    RevokingAdmin,
}

} // verus!
