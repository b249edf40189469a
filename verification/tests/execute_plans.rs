use deltabeer_tui::auth::{AdminToken, SingleUseToken};
use deltabeer_tui::error::{ApiClientError, ApiErrorCode, AppError, AuthorizationOperation};
use deltabeer_tui::execute::{
    api_error, is_success_status, resume, start, ApiCall, ApiErrorBody, ApiReply, Execution,
    HttpMethod, ReplyKind, RequestBody, Step,
};
use deltabeer_tui::message::Message;
use deltabeer_tui::model::{Amount, Date, Role, User, UserId};
use deltabeer_tui::request::{ApiCommand, ApiRequest, ApiResult};

fn command(request: ApiRequest, token: Option<&str>) -> ApiCommand {
    ApiCommand { request, authorization: token.map(|t| AdminToken(t.to_string())) }
}

fn someone(id: u128) -> User {
    User {
        id: UserId(id),
        name: "Per".to_string(),
        username: "per".to_string(),
        program: "Law".to_string(),
        card_number: 5,
        role: Role::User,
        birthdate: Date::from_ymd(1990, 6, 1).unwrap(),
        comments: String::new(),
        balance: Amount(1),
        spent: Amount(2),
    }
}

#[test]
fn a_command_without_its_token_makes_no_call() {
    let (state, step) = start(command(ApiRequest::TopUp { user_id: UserId(1), amount: 5 }, None));
    assert!(matches!(state, Execution::Finished));
    assert!(matches!(step, Step::Finish(Message::Failed(AppError::MissingAuthorization {
        operation: AuthorizationOperation::TopUp }))));
    let (_, step) = start(command(ApiRequest::RevokeAdmin { identifier: "9".to_string() }, None));
    assert!(matches!(step, Step::Finish(Message::Failed(AppError::MissingAuthorization {
        operation: AuthorizationOperation::RevokeAdmin }))));
}

#[test]
fn looking_a_user_up_resolves_then_fetches() {
    let (state, step) = start(command(ApiRequest::LookupUser("1234".to_string()), None));
    assert!(matches!(step, Step::Call(ApiCall::ResolveUser { ref identifier }) if identifier == "1234"));
    let (state, step) = resume(state, Ok(ApiReply::UserId(UserId(7))));
    assert!(matches!(step, Step::Call(ApiCall::GetUser { user_id: UserId(7) })));
    let (state, step) = resume(state, Ok(ApiReply::User(someone(7))));
    assert!(matches!(state, Execution::Finished));
    assert!(matches!(step, Step::Finish(Message::ApiResponse(ApiResult::LookupUser(ref u))) if u.id == UserId(7)));
}

#[test]
fn starting_a_session_exchanges_two_tokens() {
    let request = ApiRequest::StartAdminSession { user_id: UserId(4), password: "pw".to_string() };
    let (state, step) = start(command(request, None));
    assert!(matches!(step, Step::Call(ApiCall::RequestAdminToken { user_id: UserId(4), ref password }) if password == "pw"));
    let (state, step) = resume(state, Ok(ApiReply::Token(AdminToken("single".to_string()))));
    assert!(matches!(step, Step::Call(ApiCall::CreateSession { ref token }) if token.as_str() == "single"));
    let (_, step) = resume(state, Ok(ApiReply::Token(AdminToken("session".to_string()))));
    assert!(matches!(step, Step::Finish(Message::ApiResponse(ApiResult::StartAdminSession {
        user_id: UserId(4), ref token })) if token.as_str() == "session"));
}

#[test]
fn revoking_resolves_the_identifier_first() {
    let (state, step) = start(command(ApiRequest::RevokeAdmin { identifier: "55".to_string() }, Some("tok")));
    assert!(matches!(step, Step::Call(ApiCall::ResolveUser { .. })));
    let (state, step) = resume(state, Ok(ApiReply::UserId(UserId(12))));
    assert!(matches!(step, Step::Call(ApiCall::RevokeAdmin { user_id: UserId(12), ref token }) if token.as_str() == "tok"));
    let (_, step) = resume(state, Ok(ApiReply::Empty));
    assert!(matches!(step, Step::Finish(Message::ApiResponse(ApiResult::RevokeAdmin(UserId(12))))));
}

#[test]
fn a_failed_call_ends_the_command_with_its_error() {
    let (state, _) = start(command(ApiRequest::ListUsers, None));
    let error = ApiClientError::Api { status: 403, code: ApiErrorCode::Forbidden, message: None };
    let (state, step) = resume(state, Err(error));
    assert!(matches!(state, Execution::Finished));
    assert!(matches!(step, Step::Finish(Message::Failed(AppError::Forbidden))));
    let (state, _) = start(command(ApiRequest::Stats, None));
    let (_, step) = resume(state, Err(ApiClientError::Transport { message: "down".to_string() }));
    assert!(matches!(step, Step::Finish(Message::Failed(AppError::Transport))));
}

#[test]
fn a_reply_of_the_wrong_kind_is_an_invalid_response() {
    let (state, _) = start(command(ApiRequest::ListUsers, None));
    let (_, step) = resume(state, Ok(ApiReply::Empty));
    assert!(matches!(step, Step::Finish(Message::Failed(AppError::InvalidResponse))));
}

#[test]
fn authenticating_an_admin_gives_a_single_use_token() {
    let request = ApiRequest::AuthenticateAdmin { user_id: UserId(2), password: "x".to_string() };
    let (state, _) = start(command(request, None));
    let (_, step) = resume(state, Ok(ApiReply::Token(AdminToken("one".to_string()))));
    assert!(matches!(step, Step::Finish(Message::ApiResponse(ApiResult::AuthenticateAdmin(ref t))) if t.as_str() == "one"));
}

#[test]
fn plans_name_method_path_body_and_token() {
    let plan = ApiCall::TopUp { user_id: UserId(0), amount: 20, token: AdminToken("b".to_string()) }.into_plan();
    assert_eq!(plan.method, HttpMethod::Post);
    assert_eq!(plan.segments, vec!["v1", "admins", "user_management", "00000000-0000-0000-0000-000000000000", "topup"]);
    assert!(matches!(plan.body, RequestBody::Amount(20)));
    assert_eq!(plan.bearer.as_deref(), Some("b"));
    assert_eq!(plan.reply, ReplyKind::Transaction);

    let plan = ApiCall::ResolveUser { identifier: "card 1".to_string() }.into_plan();
    assert_eq!(plan.method, HttpMethod::Get);
    assert_eq!(plan.segments, vec!["v1", "users", "resolve", "card 1"]);
    assert!(plan.bearer.is_none());
    assert_eq!(plan.reply, ReplyKind::UserId);

    let token = SingleUseToken::from_admin_token(AdminToken("s".to_string()));
    let plan = ApiCall::CreateSession { token }.into_plan();
    assert_eq!(plan.segments, vec!["v1", "admins", "session"]);
    assert_eq!(plan.bearer.as_deref(), Some("s"));

    let plan = ApiCall::Logout { token: AdminToken("z".to_string()) }.into_plan();
    assert_eq!(plan.method, HttpMethod::Delete);
    assert_eq!(plan.reply, ReplyKind::Empty);

    let plan = ApiCall::StatsSummary.into_plan();
    assert_eq!(plan.segments, vec!["v1", "stats", "summary"]);
    assert_eq!(plan.reply, ReplyKind::Summary);
}

#[test]
fn success_statuses_and_error_bodies() {
    assert!(is_success_status(200));
    assert!(is_success_status(204));
    assert!(!is_success_status(199));
    assert!(!is_success_status(300));
    assert!(!is_success_status(404));
    let body = ApiErrorBody { code: ApiErrorCode::NotFound, message: Some("gone".to_string()) };
    assert!(matches!(api_error(404, Ok(body)),
        ApiClientError::Api { status: 404, code: ApiErrorCode::NotFound, message: Some(ref m) } if m == "gone"));
    assert!(matches!(api_error(500, Err("no json".to_string())),
        ApiClientError::InvalidResponse { ref message } if message == "no json"));
    let err = ApiClientError::Api { status: 400, code: ApiErrorCode::InvalidUserIdentifier, message: None };
    assert_eq!(AppError::from(err), AppError::InvalidUserIdentifier);
}
