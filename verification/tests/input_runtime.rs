use deltabeer_tui::app::App;
use deltabeer_tui::client::ApiClient;
use deltabeer_tui::config::{default_config_path, validate_locale};
use deltabeer_tui::input::{Input, Scanner, ScannerResult};
use deltabeer_tui::key::{Key, KeyCode, KeyKind};
use deltabeer_tui::message::Message;
use deltabeer_tui::runtime::{DisplayState, Runtime, STARTUP_SPLASH_MS};
use deltabeer_tui::splash::{Splash, SplashImage, SplashVariant};

fn digit(c: char) -> Key {
    Key::new(KeyCode::Char(c))
}

fn control(c: char) -> Key {
    Key { code: KeyCode::Char(c), control: true, shift: false, kind: KeyKind::Press }
}

#[test]
fn digits_then_enter_are_a_card_scan() {
    let mut scanner = Scanner::new(80);
    assert!(matches!(scanner.handle(digit('1'), 0), ScannerResult::Waiting));
    assert!(matches!(scanner.handle(digit('2'), 5), ScannerResult::Waiting));
    assert!(matches!(scanner.handle(Key::new(KeyCode::Enter), 9), ScannerResult::Scanned(ref c) if c == "12"));
}

#[test]
fn held_digits_are_released_as_typing() {
    let mut scanner = Scanner::new(80);
    scanner.handle(digit('3'), 100);
    assert!(matches!(scanner.flush(150), ScannerResult::Waiting));
    assert!(matches!(scanner.flush(180), ScannerResult::Waiting));
    match scanner.flush(181) {
        ScannerResult::NotScan(keys) => assert_eq!(keys, vec![digit('3')]),
        _ => panic!("the digit should have been released"),
    }
    scanner.handle(digit('4'), 200);
    match scanner.handle(Key::new(KeyCode::Char('x')), 201) {
        ScannerResult::NotScan(keys) => assert_eq!(keys, vec![digit('4'), Key::new(KeyCode::Char('x'))]),
        _ => panic!("a letter releases the held digits"),
    }
    match scanner.handle(Key::new(KeyCode::Esc), 202) {
        ScannerResult::NotScan(keys) => assert_eq!(keys, vec![Key::new(KeyCode::Esc)]),
        _ => panic!("a lone key passes through"),
    }
}

#[test]
fn keys_map_to_messages() {
    let mut app = App::new();
    let mut input = Input::new(80);
    let messages = input.handle(&mut app, Key::new(KeyCode::Esc), 0);
    assert_eq!(messages.len(), 1);
    assert!(matches!(messages[0], Message::OpenDialog { .. }));
    let messages = input.handle(&mut App::new(), control('l'), 1);
    assert!(matches!(messages[0], Message::ToggleLanguage));
    let mut app = App::new();
    assert!(input.handle(&mut app, digit('2'), 10).is_empty());
    let messages = input.tick(&mut app, 200);
    assert!(matches!(messages[0], Message::Navigate(deltabeer_tui::page::PageId::Users)));
}

fn runtime(now: u64) -> Runtime {
    let variants = vec![
        SplashVariant { name: "default", image: SplashImage::blank(2, 2), weight: 90 },
        SplashVariant { name: "mario", image: SplashImage::blank(2, 2), weight: 10 },
    ];
    let splash = Splash::from_variants(variants).unwrap();
    let api = ApiClient::new("https://localhost:3000").unwrap();
    Runtime::new(App::new(), api, Input::new(80), 20, 60, splash, now)
}

#[test]
fn the_startup_splash_gives_way_to_the_app() {
    let mut rt = runtime(1000);
    assert_eq!(rt.idle_timeout_ms, 60_000);
    assert!(rt.prepare_frame(1000 + STARTUP_SPLASH_MS - 1));
    assert_eq!(rt.display_state, DisplayState::StartupSplash { started: 1000 });
    assert!(!rt.prepare_frame(1000 + STARTUP_SPLASH_MS));
    assert_eq!(rt.display_state, DisplayState::Active);
    assert_eq!(rt.last_activity, 1000 + STARTUP_SPLASH_MS);
}

#[test]
fn no_key_for_the_timeout_goes_idle_and_a_key_comes_back() {
    let mut rt = runtime(0);
    rt.update_display_state(2000);
    rt.app.update(Message::OpenDialog {
        dialog: deltabeer_tui::dialog::Dialog::Menu(deltabeer_tui::dialog::menu::application_menu()),
        mode: deltabeer_tui::message::DialogOpenMode::Push,
    });
    rt.update_display_state(2000 + 59_999);
    assert_eq!(rt.display_state, DisplayState::Active);
    rt.update_display_state(2000 + 60_000);
    assert_eq!(rt.display_state, DisplayState::Idle);
    assert!(rt.app.dialogs.is_empty());
    let messages = rt.handle_event(Key::new(KeyCode::Char('x')), 70_000);
    assert!(messages.is_empty());
    assert_eq!(rt.display_state, DisplayState::Active);
    assert_eq!(rt.last_activity, 70_000);
}

#[test]
fn control_q_quits_and_control_s_shows_the_splash() {
    let mut rt = runtime(0);
    rt.update_display_state(5000);
    assert!(rt.handle_global_key(control('s')));
    assert_eq!(rt.display_state, DisplayState::Idle);
    assert!(rt.handle_global_key(control('s')));
    assert_eq!(rt.display_state, DisplayState::Idle);
    assert!(!rt.handle_global_key(control('x')));
    assert!(!rt.handle_global_key(Key::new(KeyCode::Char('s'))));
    let messages = rt.handle_event(control('q'), 6000);
    assert!(messages.is_empty());
    assert!(rt.app.should_quit);
}

#[test]
fn control_s_does_nothing_on_the_startup_splash() {
    let mut rt = runtime(0);
    assert!(!rt.handle_global_key(control('s')));
    assert_eq!(rt.display_state, DisplayState::StartupSplash { started: 0 });
}

#[test]
fn very_long_idle_timeouts_saturate() {
    let variants = vec![SplashVariant { name: "d", image: SplashImage::blank(1, 1), weight: 1 }];
    let splash = Splash::from_variants(variants).unwrap();
    let api = ApiClient::new("https://localhost").unwrap();
    let rt = Runtime::new(App::new(), api, Input::new(80), 20, u64::MAX, splash, 0);
    assert_eq!(rt.idle_timeout_ms, u64::MAX);
}

#[test]
fn locales_are_checked_against_the_available_ones() {
    assert!(validate_locale("en", &["en", "nb"]).is_ok());
    assert!(validate_locale("nb", &["en", "nb"]).is_ok());
    let err = validate_locale("de", &["en", "nb"]).err().unwrap();
    assert_eq!(err, "unsupported TUI locale 'de'; supported locales are: en, nb");
    let err = validate_locale("en", &[]).err().unwrap();
    assert_eq!(err, "unsupported TUI locale 'en'; supported locales are: ");
}

#[test]
fn the_default_config_path_depends_on_the_build() {
    assert_eq!(default_config_path(true), "config/development.yaml");
    assert_eq!(default_config_path(false), "config/production.yaml");
}
