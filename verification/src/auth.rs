//! Administrator tokens and the client's authentication state.
use crate::model::UserId;
use vstd::prelude::*;
use vstd::std_specs::convert::FromSpec;
use vstd::std_specs::convert::FromSpecImpl;

verus! {

/// A bearer token as the server hands it out and accepts it.
#[derive(Clone, Debug)]
pub struct AdminToken(pub String);

impl AdminToken {
    pub fn as_str(&self) -> (r: &str)
        ensures
            r@ == self.0@,
    {
        self.0.as_str()
    }
}

/// The token of an administrator session, valid for several requests.
#[derive(Clone, Debug)]
pub struct SessionToken(String);

impl SessionToken {
    pub closed spec fn text(self) -> Seq<char> {
        self.0@
    }

    pub fn as_str(&self) -> (r: &str)
        ensures
            r@ == self.text(),
    {
        self.0.as_str()
    }

    /// The session token that the server handed out.
    pub fn from_admin_token(t: AdminToken) -> (r: SessionToken)
        ensures
            r.text() == t.0@,
    {
        SessionToken(t.0)
    }

    /// An equal copy of the token.
    pub fn duplicate(&self) -> (r: SessionToken)
        ensures
            r == *self,
    {
        SessionToken(self.0.clone())
    }

    /// The token in the form requests carry it.
    pub fn to_admin_token(&self) -> (r: AdminToken)
        ensures
            r.0@ == self.text(),
    {
        AdminToken(self.0.clone())
    }
}

/// A token that authorises one request.
#[derive(Debug)]
pub struct SingleUseToken(String);

impl SingleUseToken {
    pub closed spec fn text(self) -> Seq<char> {
        self.0@
    }

    pub fn as_str(&self) -> (r: &str)
        ensures
            r@ == self.text(),
    {
        self.0.as_str()
    }

    /// The single-use token that the server handed out.
    pub fn from_admin_token(t: AdminToken) -> (r: SingleUseToken)
        ensures
            r.text() == t.0@,
    {
        SingleUseToken(t.0)
    }

    /// The token in the form requests carry it.
    pub fn into_admin_token(self) -> (r: AdminToken)
        ensures
            r.0@ == self.text(),
    {
        AdminToken(self.0)
    }
}

impl From<AdminToken> for SessionToken {
    fn from(token: AdminToken) -> (r: SessionToken) {
        SessionToken(token.0)
    }
}

impl FromSpecImpl<AdminToken> for SessionToken {
    open spec fn obeys_from_spec() -> bool {
        true
    }

    closed spec fn from_spec(v: AdminToken) -> SessionToken {
        SessionToken(v.0)
    }
}

impl From<AdminToken> for SingleUseToken {
    fn from(token: AdminToken) -> (r: SingleUseToken) {
        SingleUseToken(token.0)
    }
}

impl FromSpecImpl<AdminToken> for SingleUseToken {
    open spec fn obeys_from_spec() -> bool {
        true
    }

    closed spec fn from_spec(v: AdminToken) -> SingleUseToken {
        SingleUseToken(v.0)
    }
}

impl From<SingleUseToken> for AdminToken {
    fn from(token: SingleUseToken) -> (r: AdminToken) {
        AdminToken(token.0)
    }
}

impl FromSpecImpl<SingleUseToken> for AdminToken {
    open spec fn obeys_from_spec() -> bool {
        true
    }

    closed spec fn from_spec(v: SingleUseToken) -> AdminToken {
        AdminToken(v.0)
    }
}

impl From<SessionToken> for AdminToken {
    fn from(token: SessionToken) -> (r: AdminToken) {
        AdminToken(token.0)
    }
}

impl FromSpecImpl<SessionToken> for AdminToken {
    open spec fn obeys_from_spec() -> bool {
        true
    }

    closed spec fn from_spec(v: SessionToken) -> AdminToken {
        AdminToken(v.0)
    }
}

/// Converting a token between its kinds keeps its text: a session or
/// single-use token made from an admin token, and an admin token made back
/// from either, carry the same characters.
pub proof fn token_conversions_keep_text(t: AdminToken)
    ensures
        <SessionToken as FromSpec<AdminToken>>::from_spec(t).text() == t.0@,
        <SingleUseToken as FromSpec<AdminToken>>::from_spec(t).text() == t.0@,
        <AdminToken as FromSpec<SessionToken>>::from_spec(
            <SessionToken as FromSpec<AdminToken>>::from_spec(t),
        ).0@ == t.0@,
        <AdminToken as FromSpec<SingleUseToken>>::from_spec(
            <SingleUseToken as FromSpec<AdminToken>>::from_spec(t),
        ).0@ == t.0@,
{
}

/// The administrator whose card was scanned last.
#[derive(Clone, Debug)]
pub struct AdminContext {
    pub user_id: UserId,
    pub name: String,
}

impl AdminContext {
    /// An equal copy of the context.
    pub fn duplicate(&self) -> (r: AdminContext)
        ensures
            r == *self,
    {
        AdminContext { user_id: self.user_id, name: self.name.clone() }
    }
}

/// An equal copy of an optional context.
pub fn duplicate_context(c: &Option<AdminContext>) -> (r: Option<AdminContext>)
    ensures
        r == *c,
{
    match c {
        Some(a) => Some(a.duplicate()),
        None => None,
    }
}

/// A running administrator session.
#[derive(Clone, Debug)]
pub struct AdminSession {
    pub user_id: UserId,
    pub token: SessionToken,
}

impl AdminSession {
    pub fn new(user_id: UserId, token: SessionToken) -> (r: AdminSession)
        ensures
            r.user_id == user_id,
            r.token == token,
    {
        AdminSession { user_id, token }
    }
}

/// Whether an administrator session is running.
#[derive(Clone, Debug)]
pub enum AuthState {
    Normal,
    Admin(AdminSession),
}

} // verus!
