use psa_re_tui::{
    decode_messages, id_before, is_message_file, sort_messages, ActiveScreen, App, CanMessage, Config,
    DecodeError, EditWindow,
};

fn texts(items: &[&str]) -> Vec<String> {
    items.iter().map(|s| s.to_string()).collect()
}

fn ids(messages: &[CanMessage]) -> Vec<Option<String>> {
    messages.iter().map(|m| m.id.clone()).collect()
}

#[test]
fn sort_is_lexicographic_by_id_text() {
    let mut diags = Vec::new();
    let mut app = App::new(Config::get_default_config());
    let r = app.load_can_messages(&texts(&["id: 0x2\n", "id: 0x10\n", "id: 0x1\n"]), &mut diags);
    assert!(r.is_ok());
    let got: Vec<String> = app.can_messages.iter().map(|m| m.id.clone().unwrap()).collect();
    assert_eq!(got, vec!["0x1", "0x10", "0x2"]);
    assert_ne!(got, vec!["0x1", "0x2", "0x10"]);
}

#[test]
fn one_bad_file_fails_the_whole_load() {
    let mut diags = Vec::new();
    let mut app = App::new(Config::get_default_config());
    let r = app.load_can_messages(&texts(&["id: 0x1\n", "id: [0x2\n", "id: 0x3\n"]), &mut diags);
    assert!(matches!(r, Err(DecodeError::Syntax(_))));
    assert!(app.can_messages.is_empty());
    let r = decode_messages(&texts(&["id: 1\n", "id: 2\n", "id: [0x2\n"]), &mut diags);
    assert!(r.is_err());
}

#[test]
fn load_adds_to_loaded_messages() {
    let mut diags = Vec::new();
    let mut app = App::new(Config::get_default_config());
    app.load_can_messages(&texts(&["id: 0x5\n"]), &mut diags).unwrap();
    app.load_can_messages(&texts(&["id: 0x3\n", "name: none\n"]), &mut diags).unwrap();
    assert_eq!(ids(&app.can_messages), vec![None, Some("0x3".to_string()), Some("0x5".to_string())]);
}

#[test]
fn decode_keeps_text_order_and_diagnostics() {
    let mut diags = Vec::new();
    let v = decode_messages(&texts(&["id: 0x9\nbar: 1\n", "id: 0x8\nfoo: 2\n"]), &mut diags).unwrap();
    assert_eq!(ids(&v), vec![Some("0x9".to_string()), Some("0x8".to_string())]);
    assert_eq!(diags.len(), 2);
    assert_eq!(diags[0].subject, "bar");
    assert_eq!(diags[1].subject, "foo");
    let empty = decode_messages(&Vec::new(), &mut diags).unwrap();
    assert!(empty.is_empty());
}

#[test]
fn sort_is_stable_for_equal_ids() {
    let mut diags = Vec::new();
    let v = decode_messages(&texts(&["id: 0xA\nname: first\n", "id: 0x1\n", "id: 0xA\nname: second\n"]), &mut diags).unwrap();
    let s = sort_messages(v);
    assert_eq!(s[0].id.as_deref(), Some("0x1"));
    assert_eq!(s[1].name.as_deref(), Some("first"));
    assert_eq!(s[2].name.as_deref(), Some("second"));
}

#[test]
fn id_order() {
    assert!(id_before(&None, &Some("0x0".to_string())));
    assert!(!id_before(&Some("0x0".to_string()), &None));
    assert!(id_before(&Some("0x10".to_string()), &Some("0x2".to_string())));
    assert!(id_before(&Some("0x1".to_string()), &Some("0x10".to_string())));
    assert!(!id_before(&Some("0x1".to_string()), &Some("0x1".to_string())));
}

#[test]
fn message_file_extensions() {
    assert!(is_message_file("yml"));
    assert!(is_message_file("yaml"));
    assert!(!is_message_file("YML"));
    assert!(!is_message_file("txt"));
    assert!(!is_message_file(""));
}

#[test]
fn keys_switch_screens() {
    let mut app = App::new(Config::get_default_config());
    assert_eq!(app.handle_key('x'), None);
    assert_eq!(app.active_screen, ActiveScreen::CanBus);
    assert_eq!(app.handle_key('n'), None);
    assert_eq!(app.active_screen, ActiveScreen::Editing);
    assert_eq!(app.edit_window, Some(EditWindow::NewCanMsg));
    assert_eq!(app.handle_key('n'), None);
    assert_eq!(app.handle_key('q'), Some(false));
    let mut app = App::new(Config::get_default_config());
    assert_eq!(app.handle_key('e'), None);
    assert_eq!(app.edit_window, Some(EditWindow::EditCanMsg));
    let mut app = App::new(Config::get_default_config());
    assert_eq!(app.handle_key('q'), Some(true));
}

#[test]
fn default_config_values() {
    let c = Config::get_default_config();
    assert_eq!(c.database_dir, "../PSA-RE/buses/AEE2004.full/HS.IS/");
    assert_eq!(c.default_lang, "en");
}

#[test]
fn config_from_text() {
    let c = Config::load_config_str("database_dir: /data/db\ndefault_lang: fr\nother: 1\n").unwrap();
    assert_eq!(c.database_dir, "/data/db");
    assert_eq!(c.default_lang, "fr");
    let c = Config::load_config_str("default_lang: 3\n").unwrap();
    assert_eq!(c.default_lang, "en");
    let c = Config::load_config_str("- a\n").unwrap();
    assert_eq!(c.database_dir, "../PSA-RE/buses/AEE2004.full/HS.IS/");
    assert!(matches!(Config::load_config_str(""), Err(DecodeError::Syntax(_))));
    assert!(matches!(Config::load_config_str("a: [1\n"), Err(DecodeError::Syntax(_))));
}
