use micround::app_core::hotkeys::{parse_hotkey_string, parse_key_code, HotkeyError, KeyCode};

#[test]
fn test_parse_hotkey_string_simple() {
    let hotkey = parse_hotkey_string("Ctrl+Alt+M").unwrap();
    assert!(hotkey.modifiers.control);
    assert!(hotkey.modifiers.alt);
    assert!(!hotkey.modifiers.shift);
    assert!(!hotkey.modifiers.meta);
    assert_eq!(hotkey.key, KeyCode::KeyM);
}

#[test]
fn test_parse_hotkey_string_with_shift() {
    let hotkey = parse_hotkey_string("Ctrl+Shift+S").unwrap();
    assert!(hotkey.modifiers.control);
    assert!(hotkey.modifiers.shift);
    assert!(!hotkey.modifiers.alt);
    assert_eq!(hotkey.key, KeyCode::KeyS);
}

#[test]
fn test_parse_hotkey_string_invalid() {
    let result = parse_hotkey_string("");
    assert!(result.is_err());
}

#[test]
fn test_parse_key_code_letters() {
    assert!(parse_key_code("M").is_ok());
    assert!(parse_key_code("m").is_ok());
    assert!(parse_key_code("P").is_ok());
    assert!(parse_key_code("S").is_ok());
    assert_eq!(parse_key_code("m").unwrap(), KeyCode::KeyM);
}

#[test]
fn test_parse_key_code_special() {
    assert!(parse_key_code("Space").is_ok());
    assert!(parse_key_code("Enter").is_ok());
    assert!(parse_key_code("F1").is_ok());
    assert!(parse_key_code("Escape").is_ok());
    assert_eq!(parse_key_code("escape").unwrap(), KeyCode::Escape);
    assert_eq!(parse_key_code("F1").unwrap(), KeyCode::F1);
}

#[test]
fn hotkey_unknown_key_is_parse_error() {
    match parse_key_code("NotAKey") {
        Err(HotkeyError::Parse(msg)) => assert!(msg.contains("NotAKey")),
        other => panic!("unexpected {:?}", other),
    }
}

#[test]
fn hotkey_modifier_aliases() {
    let hotkey = parse_hotkey_string("control+option+cmd+F12").unwrap();
    assert!(hotkey.modifiers.control);
    assert!(hotkey.modifiers.alt);
    assert!(hotkey.modifiers.meta);
    assert_eq!(hotkey.key, KeyCode::F12);
}

#[test]
fn hotkey_modifiers_only_is_error() {
    assert!(parse_hotkey_string("Ctrl+Alt").is_err());
}
