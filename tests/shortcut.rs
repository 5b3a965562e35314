use grape_planit::shortcut::{
    classify_part, parse_shortcut, parse_shortcut_parts, KeyCode, Modifiers, Part, Shortcut,
    ShortcutError,
};

fn mods(ctrl: bool, alt: bool, shift: bool, meta: bool) -> Modifiers {
    Modifiers { ctrl, alt, shift, meta }
}

#[test]
fn alt_g() {
    let s = parse_shortcut("Alt+G").ok().unwrap();
    assert_eq!(s, Shortcut { modifiers: mods(false, true, false, false), key: KeyCode::Letter(6) });
}

#[test]
fn several_modifiers_and_a_function_key() {
    let s = parse_shortcut("Ctrl+Shift+F5").ok().unwrap();
    assert_eq!(s, Shortcut { modifiers: mods(true, false, true, false), key: KeyCode::Function(5) });
    let t = parse_shortcut("cmd+F12").ok().unwrap();
    assert_eq!(t, Shortcut { modifiers: mods(false, false, false, true), key: KeyCode::Function(12) });
}

#[test]
fn parts_are_trimmed_and_lowered() {
    let s = parse_shortcut(" CONTROL + k ").ok().unwrap();
    assert_eq!(s, Shortcut { modifiers: mods(true, false, false, false), key: KeyCode::Letter(10) });
    let d = parse_shortcut("Super+Space").ok().unwrap();
    assert_eq!(d.key, KeyCode::Space);
    assert_eq!(parse_shortcut("alt+7").ok().unwrap().key, KeyCode::Digit(7));
}

#[test]
fn a_later_key_replaces_an_earlier_one() {
    let s = parse_shortcut("A+Alt+B").ok().unwrap();
    assert_eq!(s.key, KeyCode::Letter(1));
}

#[test]
fn unsupported_key() {
    match parse_shortcut("Alt+Foo") {
        Err(ShortcutError::UnsupportedKey(k)) => assert_eq!(k, "foo"),
        _ => panic!("expected an unsupported key"),
    }
    match parse_shortcut("Alt+F13") {
        Err(ShortcutError::UnsupportedKey(k)) => assert_eq!(k, "f13"),
        _ => panic!("expected an unsupported key"),
    }
    match parse_shortcut("") {
        Err(ShortcutError::UnsupportedKey(k)) => assert_eq!(k, ""),
        _ => panic!("expected an unsupported key"),
    }
    match parse_shortcut("Alt++G") {
        Err(ShortcutError::UnsupportedKey(k)) => assert_eq!(k, ""),
        _ => panic!("expected an unsupported key"),
    }
}

#[test]
fn modifiers_without_a_key() {
    assert!(matches!(parse_shortcut("Alt+Shift"), Err(ShortcutError::NoKey)));
    assert_eq!(ShortcutError::NoKey.message(), "未找到有效的按键");
    assert_eq!(ShortcutError::UnsupportedKey("x1".to_string()).message(), "不支持的按键: x1");
}

#[test]
fn parts_already_normalized() {
    let parts = vec!["ctrl".to_string(), "enter".to_string()];
    let s = parse_shortcut_parts(&parts).ok().unwrap();
    assert_eq!(s, Shortcut { modifiers: mods(true, false, false, false), key: KeyCode::Enter });
    let upper = vec!["ALT".to_string(), "g".to_string()];
    assert!(matches!(parse_shortcut_parts(&upper), Err(ShortcutError::UnsupportedKey(_))));
    assert!(matches!(classify_part(&"backspace".to_string()), Part::Key(KeyCode::Backspace)));
    assert!(matches!(classify_part(&"f10".to_string()), Part::Key(KeyCode::Function(10))));
    assert!(matches!(classify_part(&"f0".to_string()), Part::Unknown));
}
