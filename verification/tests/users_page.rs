use deltabeer_tui::key::{Key, KeyCode};
use deltabeer_tui::model::{Amount, Date, Role, User, UserId};
use deltabeer_tui::page::UsersPage;

fn user(id: UserId, name: &str, username: &str, card_number: u32) -> User {
    User {
        id,
        name: name.to_string(),
        username: username.to_string(),
        program: "Beer Studies".to_string(),
        card_number,
        role: Role::User,
        birthdate: Date::from_ymd(2000, 1, 1).unwrap(),
        comments: String::new(),
        balance: Amount(0),
        spent: Amount(0),
    }
}

#[test]
fn escaping_search_keeps_query_and_filtered_users() {
    let matching_id = UserId(0);
    let mut page = UsersPage::new();
    page.set_users(vec![
        user(matching_id, "Alice Example", "alice", 1),
        user(UserId(u128::MAX), "Bob Example", "bob", 2),
    ]);
    page.search.set_value("alice");
    page.search_active = true;

    page.handle_key(Key::new(KeyCode::Esc));

    assert!(!page.search_active);
    assert_eq!(page.search.as_str(), "alice");
    assert_eq!(page.visible_users().len(), 1);
    assert_eq!(page.visible_users()[0].id, matching_id);
}
