use deltabeer_tui::auth::{AdminToken, SessionToken, SingleUseToken};
use deltabeer_tui::fields::{InputConstraint, NumericInput, TextInput};
use deltabeer_tui::key::{Key, KeyCode};
use deltabeer_tui::model::{Amount, Date, Role, User, UserId};
use deltabeer_tui::page::{compare, matches_search, PageId, PageResult, SortOrder, UserSort, UsersPage};
use deltabeer_tui::text::{compare_text, contains_text, join_with, parse_u32, trim, u32_to_text, Order};

fn member(id: u128, name: &str, card: u32, balance: u32) -> User {
    User {
        id: UserId(id),
        name: name.to_string(),
        username: name.to_lowercase(),
        program: "Music".to_string(),
        card_number: card,
        role: if id == 1 { Role::Admin } else { Role::User },
        birthdate: Date::parse_iso("1995-05-17").unwrap(),
        comments: "likes stout".to_string(),
        balance: Amount(balance),
        spent: Amount(0),
    }
}

fn names(page: &UsersPage) -> Vec<String> {
    page.visible_users().into_iter().map(|u| u.name).collect()
}

#[test]
fn users_are_sorted_by_the_chosen_column() {
    let mut page = UsersPage::new();
    page.set_users(vec![member(3, "carl", 30, 5), member(1, "Anna", 10, 50), member(2, "bea", 20, 0)]);
    assert!(!page.loading);
    assert_eq!(names(&page), vec!["Anna", "bea", "carl"]);
    page.handle_key(Key::new(KeyCode::Char('s')));
    assert_eq!(page.sort_order, SortOrder::Descending);
    assert_eq!(names(&page), vec!["carl", "bea", "Anna"]);
    page.sort_field = UserSort::Balance;
    assert_eq!(names(&page), vec!["Anna", "carl", "bea"]);
    assert_eq!(compare(&member(1, "a", 1, 1), &member(2, "b", 2, 1), UserSort::Balance), Order::Equal);
    assert_eq!(compare(&member(1, "a", 1, 1), &member(2, "b", 2, 1), UserSort::Card), Order::Less);
}

#[test]
fn ties_are_broken_by_identifier() {
    let mut page = UsersPage::new();
    page.set_users(vec![member(9, "Same", 1, 0), member(4, "same", 2, 0)]);
    let ids: Vec<UserId> = page.visible_users().into_iter().map(|u| u.id).collect();
    assert_eq!(ids, vec![UserId(4), UserId(9)]);
}

#[test]
fn the_search_looks_in_every_field_ignoring_case() {
    let anna = member(1, "Anna", 10, 50);
    assert!(matches_search(&anna, "ann"));
    assert!(matches_search(&anna, "music"));
    assert!(matches_search(&anna, "stout"));
    assert!(matches_search(&anna, "1995-05"));
    assert!(matches_search(&anna, "admin"));
    assert!(matches_search(&anna, "50"));
    assert!(!matches_search(&anna, "zzz"));
    let mut page = UsersPage::new();
    page.set_users(vec![anna, member(2, "Bo", 20, 0)]);
    page.handle_key(Key::new(KeyCode::Char('/')));
    assert!(page.search_active);
    page.handle_key(Key::new(KeyCode::Char('b')));
    assert_eq!(names(&page), vec!["Bo"]);
    page.handle_key(Key::new(KeyCode::Enter));
    assert!(!page.search_active);
    assert_eq!(page.search.as_str(), "b");
}

#[test]
fn the_selection_moves_within_the_visible_users() {
    let mut page = UsersPage::new();
    page.set_users(vec![member(1, "A", 1, 0), member(2, "B", 2, 0), member(3, "C", 3, 0)]);
    page.handle_key(Key::new(KeyCode::Down));
    assert_eq!(page.selected_user_id, Some(UserId(1)));
    page.handle_key(Key::new(KeyCode::Down));
    page.handle_key(Key::new(KeyCode::Down));
    page.handle_key(Key::new(KeyCode::Down));
    assert_eq!(page.selected_user_id, Some(UserId(3)));
    page.handle_key(Key::new(KeyCode::Up));
    assert_eq!(page.selected_user_id, Some(UserId(2)));
    assert_eq!(page.selected_visible_index(&page.visible_users()), Some(1));
    match page.handle_key(Key::new(KeyCode::Enter)) {
        PageResult::Message(deltabeer_tui::message::Message::OpenUser(u)) => assert_eq!(u.id, UserId(2)),
        _ => panic!("Enter opens the selected user"),
    }
    page.set_users(vec![member(1, "A", 1, 0)]);
    assert_eq!(page.selected_user_id, None);
}

#[test]
fn sort_columns_cycle_both_ways() {
    let mut field = UserSort::Name;
    for _ in 0..8 {
        field = field.next();
    }
    assert_eq!(field, UserSort::Name);
    assert_eq!(UserSort::Name.previous(), UserSort::Spent);
    assert_eq!(UserSort::Spent.next(), UserSort::Name);
    assert_eq!(UserSort::Card.next().previous(), UserSort::Card);
    assert_eq!(SortOrder::Ascending.toggle().toggle(), SortOrder::Ascending);
}

#[test]
fn digit_keys_name_pages() {
    assert_eq!(PageId::from_key(KeyCode::Char('1')), Some(PageId::Home));
    assert_eq!(PageId::from_key(KeyCode::Char('4')), Some(PageId::Stats));
    assert_eq!(PageId::from_key(KeyCode::Char('5')), None);
    assert_eq!(PageId::Transactions.label(), "nav.transactions");
}

#[test]
fn text_fields_follow_their_constraint() {
    let mut numeric = TextInput::new(InputConstraint::Numeric);
    numeric.push('7');
    numeric.push('a');
    numeric.push('3');
    assert_eq!(numeric.as_str(), "73");
    assert_eq!(numeric.value(), Some(73));
    numeric.backspace();
    numeric.backspace();
    numeric.backspace();
    assert!(numeric.is_empty());
    assert_eq!(numeric.value(), None);
    let mut ascii = TextInput::new(InputConstraint::Ascii);
    ascii.push('é');
    ascii.push('e');
    assert_eq!(ascii.as_str(), "e");
    let mut any = TextInput::new(InputConstraint::Any);
    any.push('é');
    any.push('x');
    any.backspace();
    assert_eq!(any.as_str(), "é");
    any.set_value("hello");
    assert_eq!(any.as_str(), "hello");
    any.clear();
    assert!(any.is_empty());
    let mut digits = NumericInput::new();
    digits.push('4');
    digits.push('-');
    digits.push('2');
    assert_eq!(digits.value(), Some(42));
    assert_eq!(digits.as_str(), "42");
}

#[test]
fn tokens_keep_their_text() {
    let session = SessionToken::from_admin_token(AdminToken("abc".to_string()));
    assert_eq!(session.as_str(), "abc");
    assert_eq!(session.to_admin_token().as_str(), "abc");
    let single = SingleUseToken::from(AdminToken("xyz".to_string()));
    assert_eq!(single.into_admin_token().0, "xyz");
}

#[test]
fn text_helpers() {
    assert_eq!(trim("  a b \t"), "a b");
    assert_eq!(trim("   "), "");
    assert_eq!(parse_u32("4294967295"), Some(u32::MAX));
    assert_eq!(parse_u32("4294967296"), None);
    assert_eq!(parse_u32(""), None);
    assert_eq!(parse_u32("12a"), None);
    assert_eq!(parse_u32("0042"), Some(42));
    assert_eq!(parse_u32("+7"), Some(7));
    assert_eq!(parse_u32("+"), None);
    assert_eq!(parse_u32("-1"), None);
    assert_eq!(u32_to_text(0), "0");
    assert_eq!(u32_to_text(1905), "1905");
    assert!(contains_text("beer studies", "stud"));
    assert!(contains_text("beer", ""));
    assert!(!contains_text("beer", "wine"));
    assert_eq!(compare_text("abc", "abd"), Order::Less);
    assert_eq!(compare_text("b", "abc"), Order::Greater);
    assert_eq!(compare_text("ab", "ab"), Order::Equal);
    assert_eq!(compare_text("ab", "abc"), Order::Less);
    assert_eq!(join_with(&["en", "nb", "sv"], ", "), "en, nb, sv");
    assert_eq!(join_with(&[], ", "), "");
}

#[test]
fn dates_read_and_write_iso() {
    let date = Date::from_ymd(2024, 2, 29).unwrap();
    assert_eq!(date.to_text(), "2024-02-29");
    assert_eq!(Date::parse_iso("2024-02-29"), Some(date));
    assert_eq!(Date::from_ymd(2023, 2, 29), None);
    assert_eq!(Date::parse_iso("29.02.2024"), None);
    assert_eq!(Role::Admin.to_text(), "Admin");
    assert_eq!(Role::User.to_text(), "User");
}
