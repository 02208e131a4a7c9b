use qpasswd::gui::{Application, Message, Mode};

#[test]
fn mode_defaults_to_encrypt() {
    assert_eq!(Mode::default(), Mode::Encrypt);
}

#[test]
fn mode_labels() {
    assert_eq!(Mode::Encrypt.label(), "encrypt");
    assert_eq!(Mode::Decrypt.label(), "decrypt");
}

#[test]
fn all_modes_in_order() {
    assert_eq!(Mode::all(), [Mode::Encrypt, Mode::Decrypt]);
}

#[test]
fn new_form_is_empty() {
    let app = Application::new();
    assert_eq!(app.pass(), "");
    assert_eq!(app.source(), "");
    assert_eq!(app.selected_mode(), Mode::Encrypt);
}

#[test]
fn default_form_is_the_new_form() {
    let app = Application::default();
    assert_eq!(app.pass(), "");
    assert_eq!(app.source(), "");
    assert_eq!(app.selected_mode(), Mode::Encrypt);
}

#[test]
fn update_stores_each_field() {
    let mut app = Application::new();
    assert!(!app.update(Message::PassInputChanged(String::from("secret"))));
    assert_eq!(app.pass(), "secret");
    assert_eq!(app.source(), "");
    assert_eq!(app.selected_mode(), Mode::Encrypt);

    assert!(!app.update(Message::SourceInputChanged(String::from("text"))));
    assert_eq!(app.pass(), "secret");
    assert_eq!(app.source(), "text");
    assert_eq!(app.selected_mode(), Mode::Encrypt);

    assert!(!app.update(Message::ModeSelected(Mode::Decrypt)));
    assert_eq!(app.pass(), "secret");
    assert_eq!(app.source(), "text");
    assert_eq!(app.selected_mode(), Mode::Decrypt);
}

#[test]
fn update_replaces_earlier_input() {
    let mut app = Application::new();
    app.update(Message::PassInputChanged(String::from("one")));
    app.update(Message::PassInputChanged(String::from("two")));
    app.update(Message::ModeSelected(Mode::Decrypt));
    app.update(Message::ModeSelected(Mode::Encrypt));
    assert_eq!(app.pass(), "two");
    assert_eq!(app.selected_mode(), Mode::Encrypt);
}

#[test]
fn pressing_the_button_changes_nothing() {
    let mut app = Application::new();
    app.update(Message::PassInputChanged(String::from("secret")));
    app.update(Message::SourceInputChanged(String::from("text")));
    app.update(Message::ModeSelected(Mode::Decrypt));
    assert!(app.update(Message::CryptPressed));
    assert_eq!(app.pass(), "secret");
    assert_eq!(app.source(), "text");
    assert_eq!(app.selected_mode(), Mode::Decrypt);
}
