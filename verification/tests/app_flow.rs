use deltabeer_tui::app::{App, LocaleRequest};
use deltabeer_tui::auth::{AdminSession, AdminToken, AuthState, SessionToken, SingleUseToken};
use deltabeer_tui::dialog::menu::Language;
use deltabeer_tui::dialog::Dialog;
use deltabeer_tui::error::{AppError, AuthorizationOperation, ValidationMessage};
use deltabeer_tui::message::Message;
use deltabeer_tui::model::{Amount, Date, Role, Transaction, TransactionId, TransactionKind, TransactionSource, User, UserId};
use deltabeer_tui::page::PageId;
use deltabeer_tui::request::{ApiRequest, ApiResult, ProgressMessage, StatusMessage};

fn user(id: u128, name: &str, role: Role) -> User {
    User {
        id: UserId(id),
        name: name.to_string(),
        username: name.to_lowercase(),
        program: "Beer Studies".to_string(),
        card_number: 1000 + id as u32,
        role,
        birthdate: Date::from_ymd(2001, 2, 3).unwrap(),
        comments: String::new(),
        balance: Amount(50),
        spent: Amount(5),
    }
}

fn admin_session(id: u128, token: &str) -> AuthState {
    AuthState::Admin(AdminSession::new(
        UserId(id),
        SessionToken::from_admin_token(AdminToken(token.to_string())),
    ))
}

fn top_dialog(app: &App) -> Option<&Dialog> {
    app.dialogs.active()
}

#[test]
fn a_new_app_shows_the_home_page_and_is_ready() {
    let app = App::new();
    assert_eq!(app.page.id(), PageId::Home);
    assert!(app.dialogs.is_empty());
    assert!(matches!(app.status, StatusMessage::Ready));
    assert!(app.pending_api_request.is_none());
    assert!(!app.should_quit);
}

#[test]
fn a_scanned_card_with_no_dialog_looks_the_user_up() {
    let mut app = App::new();
    let command = app.update(Message::CardScanned("4242".to_string())).unwrap();
    assert!(matches!(command.request, ApiRequest::LookupUser(ref card) if card == "4242"));
    assert!(command.authorization.is_none());
    assert!(matches!(app.status, StatusMessage::Progress(ProgressMessage::LookingUp)));
}

#[test]
fn an_admin_request_without_session_waits_for_a_password() {
    let mut app = App::new();
    let request = ApiRequest::TopUp { user_id: UserId(9), amount: 25 };
    assert!(app.update(Message::ApiRequest(request)).is_none());
    assert!(matches!(app.pending_api_request, Some(ApiRequest::TopUp { amount: 25, .. })));
    assert!(matches!(top_dialog(&app), Some(Dialog::AdminAuth(_))));
    assert!(matches!(app.status, StatusMessage::Progress(ProgressMessage::ToppingUp)));

    let token = SingleUseToken::from_admin_token(AdminToken("once".to_string()));
    let command = app.update(Message::ApiResponse(ApiResult::AuthenticateAdmin(token))).unwrap();
    assert!(matches!(command.request, ApiRequest::TopUp { amount: 25, .. }));
    assert_eq!(command.authorization.unwrap().as_str(), "once");
    assert!(app.pending_api_request.is_none());
    assert!(app.dialogs.is_empty());
}

#[test]
fn an_admin_request_in_a_session_carries_the_session_token() {
    let mut app = App::new();
    app.auth = admin_session(3, "session-token");
    let command = app
        .update(Message::ApiRequest(ApiRequest::RevokeAdmin { identifier: "77".to_string() }))
        .unwrap();
    assert!(matches!(command.request, ApiRequest::RevokeAdmin { .. }));
    assert_eq!(command.authorization.unwrap().as_str(), "session-token");
    assert!(app.dialogs.is_empty());
}

#[test]
fn plain_requests_carry_no_token() {
    let mut app = App::new();
    app.auth = admin_session(3, "session-token");
    let command = app
        .update(Message::ApiRequest(ApiRequest::Spend { user_id: UserId(1), amount: 3 }))
        .unwrap();
    assert!(command.authorization.is_none());
}

#[test]
fn ending_a_session_needs_one() {
    let mut app = App::new();
    assert!(app.update(Message::ApiRequest(ApiRequest::EndAdminSession)).is_none());
    app.auth = admin_session(3, "abc");
    let command = app.update(Message::ApiRequest(ApiRequest::EndAdminSession)).unwrap();
    assert_eq!(command.authorization.unwrap().as_str(), "abc");
}

#[test]
fn quitting_sets_the_flag() {
    let mut app = App::new();
    assert!(app.update(Message::Quit).is_none());
    assert!(app.should_quit);
}

#[test]
fn opening_the_users_page_lists_users() {
    let mut app = App::new();
    let command = app.update(Message::Navigate(PageId::Users)).unwrap();
    assert!(matches!(command.request, ApiRequest::ListUsers));
    assert_eq!(app.page.id(), PageId::Users);
    assert!(app.update(Message::Navigate(PageId::Stats)).is_none());
    assert_eq!(app.page.id(), PageId::Stats);
}

#[test]
fn language_changes_are_handed_to_the_front_end() {
    let mut app = App::new();
    assert!(app.update(Message::SetLanguage(Language::NorwegianBokmaal)).is_none());
    assert_eq!(app.take_locale_request(), Some(LocaleRequest::Choose(Language::NorwegianBokmaal)));
    assert_eq!(app.take_locale_request(), None);
    app.update(Message::ToggleLanguage);
    assert_eq!(app.take_locale_request(), Some(LocaleRequest::Toggle));
}

#[test]
fn failures_show_in_the_status_line() {
    let mut app = App::new();
    let error = AppError::Validation(ValidationMessage::InvalidAmount);
    assert!(app.update(Message::Failed(error)).is_none());
    assert!(matches!(app.status, StatusMessage::Error(e) if e == error));
    assert_eq!(error.code(), "validation");
    let missing = AppError::MissingAuthorization { operation: AuthorizationOperation::TopUp };
    assert_eq!(missing.code(), "missing_authorization");
}

#[test]
fn showing_a_plain_user_ends_a_running_session() {
    let mut app = App::new();
    app.auth = admin_session(3, "abc");
    let command = app.update(Message::OpenUser(user(5, "Dana", Role::User))).unwrap();
    assert!(matches!(command.request, ApiRequest::EndAdminSession));
    assert_eq!(command.authorization.unwrap().as_str(), "abc");
    assert!(matches!(top_dialog(&app), Some(Dialog::User(d)) if d.user.id == UserId(5)));
    assert!(app.active_admin.is_none());
}

#[test]
fn showing_the_session_admin_keeps_the_session() {
    let mut app = App::new();
    app.auth = admin_session(3, "abc");
    assert!(app.update(Message::OpenUser(user(3, "Ada", Role::Admin))).is_none());
    assert_eq!(app.active_admin.as_ref().unwrap().user_id, UserId(3));
    assert_eq!(app.active_admin.as_ref().unwrap().name, "Ada");
}

#[test]
fn closing_the_last_dialog_ends_the_session() {
    let mut app = App::new();
    app.auth = admin_session(3, "abc");
    assert!(app.update(Message::OpenUser(user(3, "Ada", Role::Admin))).is_none());
    let command = app.update(Message::CloseDialog).unwrap();
    assert!(matches!(command.request, ApiRequest::EndAdminSession));
    assert!(app.active_admin.is_none());
    assert!(app.dialogs.is_empty());
}

#[test]
fn session_results_change_the_auth_state() {
    let mut app = App::new();
    let token = SessionToken::from_admin_token(AdminToken("s1".to_string()));
    app.update(Message::ApiResponse(ApiResult::StartAdminSession { user_id: UserId(8), token }));
    assert!(matches!(app.auth, AuthState::Admin(ref s) if s.user_id == UserId(8) && s.token.as_str() == "s1"));
    assert!(matches!(app.status, StatusMessage::SessionStarted));
    app.update(Message::ApiResponse(ApiResult::EndAdminSession));
    assert!(matches!(app.auth, AuthState::Normal));
    assert!(matches!(app.status, StatusMessage::SessionEnded));
}

#[test]
fn a_spend_shows_its_amount_and_a_top_up_reloads_the_user() {
    let mut app = App::new();
    let spend = Transaction {
        id: TransactionId(1),
        user_id: UserId(2),
        kind: TransactionKind::Spend,
        amount: Amount(30),
        timestamp_millis: 0,
        approved_by: None,
        source: TransactionSource::Live,
    };
    assert!(app.update(Message::ApiResponse(ApiResult::Spend(spend))).is_none());
    assert!(matches!(app.status, StatusMessage::SpendSuccess(30)));
    let top_up = Transaction {
        id: TransactionId(2),
        user_id: UserId(0),
        kind: TransactionKind::TopUp,
        amount: Amount(100),
        timestamp_millis: 0,
        approved_by: Some(UserId(3)),
        source: TransactionSource::Live,
    };
    let command = app.update(Message::ApiResponse(ApiResult::TopUp(top_up))).unwrap();
    assert!(matches!(app.status, StatusMessage::TopUpSuccess(100)));
    assert!(matches!(command.request,
        ApiRequest::LookupUser(ref id) if id == "00000000-0000-0000-0000-000000000000"));
}

#[test]
fn loaded_users_show_on_the_users_page() {
    let mut app = App::new();
    app.update(Message::Navigate(PageId::Users));
    app.update(Message::ApiResponse(ApiResult::Users(vec![
        user(1, "Ada", Role::Admin),
        user(2, "Bo", Role::User),
    ])));
    assert!(matches!(app.status, StatusMessage::UsersLoaded(2)));
}

#[test]
fn a_dialog_that_keeps_cards_takes_the_scan() {
    let mut app = App::new();
    app.update(Message::OpenDialog {
        dialog: Dialog::MakeUser(deltabeer_tui::dialog::forms::MakeUserDialog::new()),
        mode: deltabeer_tui::message::DialogOpenMode::Push,
    });
    assert!(app.update(Message::CardScanned("777".to_string())).is_none());
    assert!(matches!(top_dialog(&app), Some(Dialog::MakeUser(d)) if d.card.as_deref() == Some("777")));
}

#[test]
fn a_top_up_dialog_keeps_the_looked_up_user() {
    let mut app = App::new();
    app.update(Message::OpenDialog {
        dialog: Dialog::TopUp(deltabeer_tui::dialog::basic::TopUpDialog::new()),
        mode: deltabeer_tui::message::DialogOpenMode::Push,
    });
    let command = app.update(Message::CardScanned("55".to_string())).unwrap();
    assert!(matches!(command.request, ApiRequest::LookupUser(_)));
    assert!(app.update(Message::ApiResponse(ApiResult::LookupUser(user(6, "Eve", Role::User)))).is_none());
    assert!(matches!(top_dialog(&app), Some(Dialog::TopUp(d)) if d.user.as_ref().unwrap().id == UserId(6)));
}

#[test]
fn a_spend_closes_the_user_dialog_and_a_session_start_closes_the_login() {
    let mut app = App::new();
    app.update(Message::OpenUser(user(5, "Dana", Role::User)));
    let spend = Transaction {
        id: TransactionId(1),
        user_id: UserId(5),
        kind: TransactionKind::Spend,
        amount: Amount(3),
        timestamp_millis: 0,
        approved_by: None,
        source: TransactionSource::Live,
    };
    app.update(Message::ApiResponse(ApiResult::Spend(spend)));
    assert!(app.dialogs.is_empty());
    app.update(Message::OpenDialog {
        dialog: Dialog::AdminSessionLogin(deltabeer_tui::dialog::basic::AdminSessionLoginDialog::new()),
        mode: deltabeer_tui::message::DialogOpenMode::Push,
    });
    let token = SessionToken::from_admin_token(AdminToken("s2".to_string()));
    app.update(Message::ApiResponse(ApiResult::StartAdminSession { user_id: UserId(8), token }));
    assert!(app.dialogs.is_empty());
}
