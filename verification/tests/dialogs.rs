use deltabeer_tui::auth::{AdminSession, AdminToken, AuthState, SessionToken};
use deltabeer_tui::dialog::basic::UserDialog;
use deltabeer_tui::dialog::forms::MakeUserDialog;
use deltabeer_tui::dialog::menu::{
    admin_menu, application_menu, eq_ignore_ascii_case, language_menu, toggled_language, Language,
    MenuKind, MenuLabel,
};
use deltabeer_tui::dialog::stack::DialogStack;
use deltabeer_tui::dialog::Dialog;
use deltabeer_tui::error::{AppError, ValidationMessage};
use deltabeer_tui::key::{Key, KeyCode};
use deltabeer_tui::message::{DialogOpenMode, DialogResult, Message};
use deltabeer_tui::model::{Amount, Date, Role, User, UserId};
use deltabeer_tui::request::ApiRequest;

fn person(role: Role) -> User {
    User {
        id: UserId(11),
        name: "Kari".to_string(),
        username: "kari".to_string(),
        program: "Chemistry".to_string(),
        card_number: 77,
        role,
        birthdate: Date::from_ymd(1999, 12, 31).unwrap(),
        comments: String::new(),
        balance: Amount(0),
        spent: Amount(0),
    }
}

fn press(dialog: &mut UserDialog, code: KeyCode) -> DialogResult<Key> {
    dialog.handle_key_inner(Key::new(code))
}

#[test]
fn the_user_dialog_spends_the_typed_amount() {
    let mut dialog = UserDialog::new(person(Role::User));
    assert!(matches!(press(&mut dialog, KeyCode::Char('4')), DialogResult::Consumed));
    assert!(matches!(press(&mut dialog, KeyCode::Char('x')), DialogResult::Unhandled(_)));
    assert!(matches!(press(&mut dialog, KeyCode::Char('2')), DialogResult::Consumed));
    assert_eq!(dialog.amount.as_str(), "42");
    let result = press(&mut dialog, KeyCode::Enter);
    assert!(matches!(result,
        DialogResult::Message(Message::ApiRequest(ApiRequest::Spend { user_id: UserId(11), amount: 42 }))));
    press(&mut dialog, KeyCode::Backspace);
    assert_eq!(dialog.amount.as_str(), "4");
}

#[test]
fn the_user_dialog_refuses_an_empty_amount() {
    let mut dialog = UserDialog::new(person(Role::User));
    let result = press(&mut dialog, KeyCode::Enter);
    assert!(matches!(result,
        DialogResult::Message(Message::Failed(AppError::Validation(ValidationMessage::InvalidAmount)))));
}

#[test]
fn an_admin_opens_the_admin_menu_from_the_user_dialog() {
    let mut admin = UserDialog::new(person(Role::Admin));
    let result = press(&mut admin, KeyCode::Char('a'));
    assert!(matches!(result, DialogResult::Message(Message::OpenAdminDialog {
        dialog: Dialog::Menu(ref m), mode: DialogOpenMode::Push }) if m.kind == MenuKind::Admin { logged_in: false }));
    let mut plain = UserDialog::new(person(Role::User));
    assert!(matches!(press(&mut plain, KeyCode::Char('a')), DialogResult::Unhandled(_)));
}

#[test]
fn menu_keys_match_ignoring_case() {
    let mut menu = admin_menu();
    let result = menu.handle_key_inner(Key::new(KeyCode::Char('t')));
    assert!(matches!(result, DialogResult::Message(Message::OpenDialog { dialog: Dialog::TopUp(_), .. })));
    let result = menu.handle_key_inner(Key::new(KeyCode::Char('L')));
    assert!(matches!(result, DialogResult::Message(Message::OpenAdminDialog {
        dialog: Dialog::AdminSessionLogin(_), .. })));
    assert!(matches!(menu.handle_key_inner(Key::new(KeyCode::Char('z'))), DialogResult::Unhandled(_)));
    assert!(matches!(menu.handle_key_inner(Key::new(KeyCode::Enter)), DialogResult::Unhandled(_)));
    assert!(eq_ignore_ascii_case('q', 'Q'));
    assert!(!eq_ignore_ascii_case('q', 'w'));
}

#[test]
fn the_admin_menu_follows_the_session() {
    let mut menu = admin_menu();
    assert_eq!(menu.options.last().unwrap().label, MenuLabel::Login);
    let session = AuthState::Admin(AdminSession::new(
        UserId(1),
        SessionToken::from_admin_token(AdminToken("t".to_string())),
    ));
    menu.set_auth_state(&session);
    assert_eq!(menu.kind, MenuKind::Admin { logged_in: true });
    assert_eq!(menu.options.last().unwrap().label, MenuLabel::Logout);
    let result = menu.handle_key_inner(Key::new(KeyCode::Char('l')));
    assert!(matches!(result, DialogResult::Message(Message::ApiRequest(ApiRequest::EndAdminSession))));
    menu.set_auth_state(&AuthState::Normal);
    assert_eq!(menu.options.last().unwrap().label, MenuLabel::Login);
    assert_eq!(menu.options.len(), 6);
}

#[test]
fn application_and_language_menus() {
    let mut app_menu = application_menu();
    assert!(matches!(app_menu.handle_key_inner(Key::new(KeyCode::Char('q'))),
        DialogResult::Message(Message::Quit)));
    let mut languages = language_menu();
    assert!(matches!(languages.handle_key_inner(Key::new(KeyCode::Char('n'))),
        DialogResult::Message(Message::SetLanguage(Language::NorwegianBokmaal))));
    assert_eq!(Language::English.locale(), "en");
    assert_eq!(Language::NorwegianBokmaal.locale(), "nb");
    assert_eq!(toggled_language("nb"), Language::English);
    assert_eq!(toggled_language("en"), Language::NorwegianBokmaal);
}

fn type_text(dialog: &mut MakeUserDialog, text: &str) {
    for c in text.chars() {
        dialog.handle_key_inner(Key::new(KeyCode::Char(c)));
    }
}

fn failure(result: DialogResult<Key>) -> Option<ValidationMessage> {
    match result {
        DialogResult::Message(Message::Failed(AppError::Validation(v))) => Some(v),
        _ => None,
    }
}

#[test]
fn the_make_user_form_checks_each_field_in_turn() {
    let mut dialog = MakeUserDialog::new();
    assert_eq!(failure(dialog.handle_key_inner(Key::new(KeyCode::Enter))), Some(ValidationMessage::NameRequired));
    type_text(&mut dialog, "  Ola Nordmann ");
    dialog.handle_key_inner(Key::new(KeyCode::Down));
    assert_eq!(failure(dialog.handle_key_inner(Key::new(KeyCode::Enter))), Some(ValidationMessage::UsernameRequired));
    type_text(&mut dialog, "ola");
    dialog.handle_key_inner(Key::new(KeyCode::Down));
    assert_eq!(failure(dialog.handle_key_inner(Key::new(KeyCode::Enter))), Some(ValidationMessage::ProgramRequired));
    type_text(&mut dialog, "Physics");
    dialog.handle_key_inner(Key::new(KeyCode::Down));
    type_text(&mut dialog, "2001-13-01");
    assert_eq!(failure(dialog.handle_key_inner(Key::new(KeyCode::Enter))), Some(ValidationMessage::BirthdateFormat));
    for _ in 0..5 {
        dialog.handle_key_inner(Key::new(KeyCode::Backspace));
    }
    type_text(&mut dialog, "02-03");
    assert_eq!(dialog.birthdate.as_str(), "2001-02-03");
    assert_eq!(failure(dialog.handle_key_inner(Key::new(KeyCode::Enter))), Some(ValidationMessage::ScanCardFirst));
    dialog.handle_scan("12ab".to_string());
    assert_eq!(failure(dialog.handle_key_inner(Key::new(KeyCode::Enter))), Some(ValidationMessage::InvalidCard));
    dialog.handle_scan("123456".to_string());
    let result = dialog.handle_key_inner(Key::new(KeyCode::Enter));
    match result {
        DialogResult::Message(Message::ApiRequest(ApiRequest::MakeUser {
            name, username, program, card_number, birthdate,
        })) => {
            assert_eq!(name, "Ola Nordmann");
            assert_eq!(username, "ola");
            assert_eq!(program, "Physics");
            assert_eq!(card_number, 123456);
            assert_eq!(birthdate, Date::from_ymd(2001, 2, 3).unwrap());
        },
        _ => panic!("expected a request to make the user"),
    }
}

#[test]
fn form_fields_wrap_around() {
    let mut dialog = MakeUserDialog::new();
    assert_eq!(dialog.active_field, 0);
    dialog.handle_key_inner(Key::new(KeyCode::Up));
    assert_eq!(dialog.active_field, 3);
    dialog.handle_key_inner(Key::new(KeyCode::Down));
    assert_eq!(dialog.active_field, 0);
}

#[test]
fn the_dialog_stack_opens_and_closes() {
    let mut stack = DialogStack::new();
    assert!(stack.is_empty());
    assert!(matches!(stack.handle_key(Key::new(KeyCode::Enter)), DialogResult::Unhandled(_)));
    stack.open(Dialog::Menu(admin_menu()), DialogOpenMode::Push);
    assert!(!stack.is_admin_menu_active());
    stack.open_admin(Dialog::Menu(admin_menu()), DialogOpenMode::Push, &AuthState::Normal, None);
    assert!(stack.is_admin_menu_active());
    stack.open(Dialog::User(UserDialog::new(person(Role::User))), DialogOpenMode::Push);
    assert!(!stack.is_admin_menu_active());
    stack.close_to_admin_menu();
    assert!(stack.is_admin_menu_active());
    stack.open(Dialog::Menu(application_menu()), DialogOpenMode::ReplaceTop);
    assert!(!stack.is_admin_menu_active());
    stack.open(Dialog::Menu(language_menu()), DialogOpenMode::Reset);
    stack.close();
    assert!(stack.is_empty());
    stack.open(Dialog::Menu(admin_menu()), DialogOpenMode::Push);
    assert!(matches!(stack.handle_key(Key::new(KeyCode::Esc)),
        DialogResult::Message(Message::CloseDialog)));
    stack.clear();
    assert!(stack.is_empty());
}
