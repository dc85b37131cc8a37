use daemon_rpc::{parse_hotkey_shortcut, parse_vk, HotkeyError, HotkeySpec};

#[test]
fn key_names() {
    assert_eq!(parse_vk("A"), Some(0x41));
    assert_eq!(parse_vk("7"), Some(0x37));
    assert_eq!(parse_vk("F1"), Some(0x70));
    assert_eq!(parse_vk("F24"), Some(0x87));
    assert_eq!(parse_vk("F+3"), Some(0x72));
    assert_eq!(parse_vk("F007"), Some(0x76));
    assert_eq!(parse_vk("F25"), None);
    assert_eq!(parse_vk("F0"), None);
    assert_eq!(parse_vk("F99999999999"), None);
    assert_eq!(parse_vk("F"), Some(0x46));
    assert_eq!(parse_vk("SPACE"), Some(0x20));
    assert_eq!(parse_vk("RETURN"), Some(0x0D));
    assert_eq!(parse_vk("ESCAPE"), Some(0x1B));
    assert_eq!(parse_vk("RIGHT"), Some(0x27));
    assert_eq!(parse_vk("HOME"), None);
    assert_eq!(parse_vk(""), None);
    assert_eq!(parse_vk("é"), None);
}

#[test]
fn shortcut_with_modifiers() {
    assert_eq!(
        parse_hotkey_shortcut(" ctrl + shift + s "),
        Ok(HotkeySpec { modifiers: 0x4000 | 0x2 | 0x4, vk: 0x53, label: "Ctrl+Shift+S".to_string() })
    );
    assert_eq!(
        parse_hotkey_shortcut("Super+Control+Ctrl+f5"),
        Ok(HotkeySpec { modifiers: 0x4000 | 0x8 | 0x2, vk: 0x74, label: "Win+Ctrl+F5".to_string() })
    );
    assert_eq!(
        parse_hotkey_shortcut("Alt++Space"),
        Ok(HotkeySpec { modifiers: 0x4001, vk: 0x20, label: "Alt+SPACE".to_string() })
    );
}

#[test]
fn shortcut_refusals() {
    assert_eq!(parse_hotkey_shortcut("  "), Err(HotkeyError::Empty));
    assert_eq!(parse_hotkey_shortcut("+ +"), Err(HotkeyError::Invalid));
    assert_eq!(parse_hotkey_shortcut("Ctrl+A+b"), Err(HotkeyError::MultipleKeys("b".to_string())));
    assert_eq!(parse_hotkey_shortcut("Ctrl+Home"), Err(HotkeyError::InvalidKey("Home".to_string())));
    assert_eq!(parse_hotkey_shortcut("Ctrl+Alt"), Err(HotkeyError::MissingKey));
    assert_eq!(parse_hotkey_shortcut("S"), Err(HotkeyError::NoModifier));
}
