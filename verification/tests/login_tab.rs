use rusty_craft::app::login_tab::{InputBox, LoginReply, LoginTab};
use rusty_craft::app::{Action, Key, Tab, TabBinding};

#[test]
fn new_form_has_a_random_identifier() {
    let tab = LoginTab::new();
    assert_eq!(tab.uuid.len(), 36);
    let chars: Vec<char> = tab.uuid.chars().collect();
    assert_eq!(chars[8], '-');
    assert_eq!(chars[13], '-');
    assert_eq!(chars[14], '4');
    assert_eq!(chars[18], '-');
    assert_eq!(chars[23], '-');
    assert!(tab.account.is_empty() && tab.password.is_empty());
    assert!(tab.selected == InputBox::Account);
    assert_ne!(LoginTab::new().uuid, tab.uuid);
}

#[test]
fn typing_goes_to_the_selected_input() {
    let mut tab = LoginTab::new();
    for c in "steve".chars() {
        assert!(matches!(tab.on_key_press(Key::Char(c)), Action::Nothing));
    }
    tab.on_key_press(Key::Tab);
    assert!(tab.selected == InputBox::Password);
    for c in "hunter2".chars() {
        tab.on_key_press(Key::Char(c));
    }
    assert_eq!(tab.account, "steve");
    assert_eq!(tab.password, "hunter2");
    assert_eq!(tab.hidden_password(), "*******");
    tab.on_key_press(Key::Backspace);
    assert_eq!(tab.password, "hunter");
    tab.on_key_press(Key::Tab);
    tab.on_key_press(Key::Backspace);
    assert_eq!(tab.account, "stev");
}

#[test]
fn typing_then_erasing_gives_back_the_input() {
    let mut tab = LoginTab::new();
    tab.on_key_press(Key::Char('a'));
    tab.on_key_press(Key::Char('b'));
    tab.on_key_press(Key::Backspace);
    assert_eq!(tab.account, "a");
    tab.on_key_press(Key::Backspace);
    tab.on_key_press(Key::Backspace);
    assert_eq!(tab.account, "");
}

#[test]
fn enter_asks_for_a_login() {
    let mut tab = LoginTab::new();
    assert!(!tab.pending_login);
    assert!(matches!(tab.on_key_press(Key::Enter), Action::Nothing));
    assert!(tab.pending_login);
}

#[test]
fn accepted_login_opens_the_versions() {
    let mut tab = LoginTab::new();
    tab.on_key_press(Key::Enter);
    let reply = LoginReply {
        access_token: "token".to_string(),
        profile: Some(("Steve".to_string(), "069a79f4-44e9-4726-a5be-fca90e38aaf5".to_string())),
    };
    assert!(matches!(tab.finish_login(Ok(reply)), Action::NextTab(Tab::Version)));
    assert!(!tab.pending_login);
    assert_eq!(tab.token, "token");
    assert_eq!(tab.name, "Steve");
    assert_eq!(tab.uuid, "069a79f4-44e9-4726-a5be-fca90e38aaf5");
    assert_eq!(tab.user_type, "mojang");
    assert!(tab.error.is_empty());
}

#[test]
fn refused_login_stays_with_its_error() {
    let mut tab = LoginTab::new();
    let uuid = tab.uuid.clone();
    assert!(matches!(tab.finish_login(Err("Invalid credentials.".to_string())), Action::Nothing));
    assert_eq!(tab.error, "Invalid credentials.");
    assert_eq!(tab.uuid, uuid);
    let reply = LoginReply { access_token: "t".to_string(), profile: None };
    assert!(matches!(tab.finish_login(Ok(reply)), Action::NextTab(Tab::Version)));
    assert_eq!(tab.uuid, uuid);
    assert!(tab.error.is_empty());
}

#[test]
fn login_bindings() {
    let tab = LoginTab::new();
    let b = tab.get_bindings();
    let keys: Vec<String> = b
        .iter()
        .map(|x| match x {
            TabBinding::Default(k, _) => k.clone(),
            TabBinding::Enablable(k, _, _) => k.clone(),
        })
        .collect();
    assert_eq!(keys, vec!["TAB", "BACKSPACE/DELETE", "ENTER"]);
    assert!(matches!(tab.tick(), Action::Nothing));
}
