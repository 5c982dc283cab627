use nztool_oar::features::{
    key_to_string, string_to_key, BindKey, ConfigKey, DoubleClickButton, FeatureId,
};

#[test]
fn config_key_names_round_trip() {
    for i in 0..84 {
        let k = ConfigKey::from_index(i).unwrap();
        let name = k.to_string();
        assert_eq!(ConfigKey::from_str(&name), Ok(k));
    }
    assert!(ConfigKey::from_index(84).is_none());
}

#[test]
fn config_key_display_is_variant_name() {
    assert_eq!(ConfigKey::KeyE.to_string(), "KeyE");
    assert_eq!(ConfigKey::Backquote.to_string(), "Backquote");
    assert_eq!(ConfigKey::SemiColon.to_string(), "SemiColon");
}

#[test]
fn config_key_unknown_name_is_an_error() {
    assert_eq!(ConfigKey::from_str("KeyAA"), Err("Unknown key: KeyAA".to_string()));
    assert_eq!(ConfigKey::from_str(""), Err("Unknown key: ".to_string()));
    assert_eq!(ConfigKey::from_str("keye"), Err("Unknown key: keye".to_string()));
}

#[test]
fn letter_keys_show_as_their_letter() {
    assert_eq!(key_to_string(ConfigKey::KeyA), "A");
    assert_eq!(key_to_string(ConfigKey::KeyZ), "Z");
    assert_eq!(key_to_string(ConfigKey::Num5), "Num5");
    assert_eq!(key_to_string(ConfigKey::F1), "F1");
    assert_eq!(key_to_string(ConfigKey::ShiftLeft), "ShiftLeft");
}

#[test]
fn single_letters_read_back_in_either_case() {
    assert_eq!(string_to_key("e"), Some(ConfigKey::KeyE));
    assert_eq!(string_to_key("E"), Some(ConfigKey::KeyE));
    assert_eq!(string_to_key("KeyE"), Some(ConfigKey::KeyE));
    assert_eq!(string_to_key("Space"), Some(ConfigKey::Space));
    assert_eq!(string_to_key("1"), None);
    assert_eq!(string_to_key("Num1"), Some(ConfigKey::Num1));
    assert_eq!(string_to_key("é"), None);
    assert_eq!(string_to_key(""), None);
}

#[test]
fn bind_keys_round_trip() {
    let binds = [
        BindKey::MouseMiddle,
        BindKey::Mouse4,
        BindKey::Mouse5,
        BindKey::Keyboard(ConfigKey::KeyQ),
        BindKey::Keyboard(ConfigKey::F12),
        BindKey::Keyboard(ConfigKey::CapsLock),
    ];
    for b in binds {
        assert_eq!(BindKey::from_string(&b.to_string()), Some(b));
    }
    assert_eq!(BindKey::MouseMiddle.to_string(), "Mouse Middle");
    assert_eq!(BindKey::Mouse4.to_string(), "Mouse 4");
    assert_eq!(BindKey::Keyboard(ConfigKey::KeyQ).to_string(), "Q");
    assert_eq!(BindKey::from_string("Mouse 6"), None);
    assert_eq!(BindKey::from_string("q"), Some(BindKey::Keyboard(ConfigKey::KeyQ)));
}

#[test]
fn feature_ids_parse_names_and_old_names() {
    assert_eq!(FeatureId::from_str("HackingPostMessage"), Ok(FeatureId::HackingClickMtd));
    assert_eq!(FeatureId::from_str("HackingPostMessage2"), Ok(FeatureId::HackingJumpMtd));
    assert_eq!(FeatureId::from_str("HackingEsc"), Ok(FeatureId::HackingEscMtd));
    assert_eq!(FeatureId::from_str("GrabNoGun"), Ok(FeatureId::FastLoadout));
    assert_eq!(FeatureId::from_str("LMBHoldToggle"), Ok(FeatureId::KeepItemClicker));
    assert_eq!(FeatureId::from_str("GunAndTool"), Ok(FeatureId::GangstaGrip));
    assert_eq!(FeatureId::from_str("Bhop"), Ok(FeatureId::Bhop));
    assert_eq!(FeatureId::from_str("bhop"), Err("Unknown variant: bhop".to_string()));
    assert_eq!(FeatureId::DoubleClick.to_string(), "DoubleClick");
    let ids = [
        FeatureId::HackingClickMtd,
        FeatureId::HackingJumpMtd,
        FeatureId::HackingEscMtd,
        FeatureId::TipsSkip,
        FeatureId::Restart,
        FeatureId::NoFallDamage,
        FeatureId::ShiftToggle,
        FeatureId::AutoClicker,
        FeatureId::FastLoadout,
        FeatureId::Bhop,
        FeatureId::HoldItemBug,
        FeatureId::KeepItemClicker,
        FeatureId::GangstaGrip,
        FeatureId::QuickExit,
        FeatureId::ToggleAllMacros,
        FeatureId::DoubleClick,
    ];
    for id in ids {
        assert_eq!(FeatureId::from_str(&id.to_string()), Ok(id));
    }
}

#[test]
fn double_click_button_labels() {
    assert_eq!(DoubleClickButton::Left.to_string(), "LMB");
    assert_eq!(DoubleClickButton::Right.to_string(), "RMB");
    assert_eq!(DoubleClickButton::default(), DoubleClickButton::Left);
}
