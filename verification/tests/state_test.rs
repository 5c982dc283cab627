use nztool_oar::features::{BindKey, ConfigKey, DoubleClickButton, FeatureId, SerializableFeature};
use nztool_oar::state::{
    default_auto_clicker_click_count, default_auto_clicker_key, default_auto_clicker_mode,
    default_double_click_button, default_features, default_gun_tool_digit, default_hacking2_y,
    default_hacking_esc_y, default_hacking_y, default_restart_y, default_tips_skip_y,
    is_game_module_name, AppState, AutoClickerMode, ClickMethod, GlobalInputState, InputState,
    MonitorRect, FEATURE_COUNT, FOCUS_CACHE_TTL_MS,
};

fn stored(id: FeatureId, bind: Option<&str>, enabled: bool) -> SerializableFeature {
    SerializableFeature { id, bind_key: bind.map(|s| s.to_string()), enabled }
}

#[test]
fn fresh_tool_has_sixteen_unbound_features() {
    let s = AppState::new();
    assert_eq!(s.features.len(), FEATURE_COUNT);
    assert_eq!(s.features[0].id, FeatureId::HackingClickMtd);
    assert_eq!(s.features[0].name, "Hacking Device (Click mtd)");
    assert_eq!(s.features[6].id, FeatureId::ShiftToggle);
    assert_eq!(s.features[15].id, FeatureId::ToggleAllMacros);
    assert_eq!(s.features[15].name, "Toggle All Macros");
    for f in &s.features {
        assert!(f.bind_key.is_none());
        assert!(!f.enabled);
        assert!(!f.selecting);
    }
    for i in 0..s.features.len() {
        for j in 0..s.features.len() {
            if i != j {
                assert_ne!(s.features[i].id, s.features[j].id);
            }
        }
    }
    assert_eq!(default_features().len(), 16);
}

#[test]
fn fresh_tool_has_default_settings() {
    let s = AppState::new();
    assert_eq!(s.monitor_id, "1");
    assert_eq!(s.auto_clicker_delay, 6);
    assert_eq!(s.auto_clicker_method, ClickMethod::SendInput);
    assert_eq!(s.auto_clicker_click_count, 1);
    assert_eq!(s.auto_clicker_mode, AutoClickerMode::Mouse);
    assert_eq!(s.auto_clicker_key, ConfigKey::KeyE);
    assert_eq!(s.tips_skip_y_offset, 830);
    assert_eq!(s.restart_y_offset, 486);
    assert_eq!(s.hacking_y_offset, -140);
    assert_eq!(s.hacking2_y_offset, -140);
    assert_eq!(s.hacking_esc_y_offset, -140);
    assert_eq!(s.gun_tool_digit, 1);
    assert_eq!(s.double_click_button, DoubleClickButton::Left);
    assert!(!s.shift_held);
    assert!(!s.dev_mode);
    assert!(s.presets.is_empty());
}

#[test]
fn defaults_of_missing_settings() {
    assert_eq!(default_double_click_button(), DoubleClickButton::Left);
    assert_eq!(default_tips_skip_y(), 830);
    assert_eq!(default_restart_y(), 486);
    assert_eq!(default_hacking_y(), -140);
    assert_eq!(default_hacking2_y(), -140);
    assert_eq!(default_hacking_esc_y(), -140);
    assert_eq!(default_auto_clicker_click_count(), 1);
    assert_eq!(default_gun_tool_digit(), 1);
    assert_eq!(default_auto_clicker_mode(), AutoClickerMode::Mouse);
    assert_eq!(default_auto_clicker_key(), ConfigKey::KeyE);
}

#[test]
fn click_method_and_mode_names() {
    assert_eq!(ClickMethod::SendInput.to_string(), "SendInput");
    assert_eq!(ClickMethod::PostMessage.to_string(), "PostMessage");
    assert_eq!(AutoClickerMode::Mouse.to_string(), "Mouse");
    assert_eq!(AutoClickerMode::Keyboard.to_string(), "Keyboard");
}

#[test]
fn reset_keeps_features_and_esc_offset() {
    let mut s = AppState::new();
    s.features[2].enabled = true;
    s.features[2].bind_key = Some(BindKey::Mouse4);
    s.auto_clicker_delay = 50;
    s.gun_tool_digit = 3;
    s.hacking_esc_y_offset = 12;
    s.hacking_y_offset = 7;
    s.monitor_id = "2".to_string();
    s.dev_mode = true;
    s.selected_preset = "p".to_string();
    s.reset_to_defaults();
    assert_eq!(s.auto_clicker_delay, 6);
    assert_eq!(s.gun_tool_digit, 1);
    assert_eq!(s.hacking_y_offset, -140);
    assert_eq!(s.hacking_esc_y_offset, 12);
    assert_eq!(s.monitor_id, "1");
    assert!(!s.dev_mode);
    assert_eq!(s.selected_preset, "");
    assert!(s.features[2].enabled);
    assert_eq!(s.features[2].bind_key, Some(BindKey::Mouse4));
}

#[test]
fn shift_toggle_and_release() {
    let mut s = AppState::new();
    assert!(!s.release_shift());
    assert!(s.toggle_shift());
    assert!(s.shift_held);
    assert!(s.release_shift());
    assert!(!s.shift_held);
    assert!(s.toggle_shift());
    assert!(!s.toggle_shift());
    assert!(!s.shift_held);
}

#[test]
fn save_then_load_restores_bindings_and_settings() {
    let mut s = AppState::new();
    s.features[0].bind_key = Some(BindKey::Keyboard(ConfigKey::KeyQ));
    s.features[0].enabled = true;
    s.features[7].bind_key = Some(BindKey::MouseMiddle);
    s.features[13].bind_key = Some(BindKey::Keyboard(ConfigKey::F5));
    s.features[13].enabled = true;
    s.auto_clicker_delay = 33;
    s.auto_clicker_method = ClickMethod::PostMessage;
    s.auto_clicker_mode = AutoClickerMode::Keyboard;
    s.auto_clicker_key = ConfigKey::Space;
    s.position_x = -20;
    s.position_y = 15;
    s.hacking_esc_y_offset = -99;
    s.gun_tool_digit = 2;
    s.double_click_button = DoubleClickButton::Right;
    s.monitor_id = "2".to_string();
    let c = s.save_config();
    assert_eq!(c.features.len(), 16);
    assert_eq!(c.features[0].bind_key.as_deref(), Some("Q"));
    assert_eq!(c.features[7].bind_key.as_deref(), Some("Mouse Middle"));
    assert_eq!(c.features[13].bind_key.as_deref(), Some("F5"));
    assert_eq!(c.features[1].bind_key, None);

    let mut t = AppState::new();
    t.load_config(c);
    for i in 0..16 {
        assert_eq!(t.features[i].bind_key, s.features[i].bind_key);
        assert_eq!(t.features[i].enabled, s.features[i].enabled);
        assert_eq!(t.features[i].name, s.features[i].name);
    }
    assert_eq!(t.monitor_id, "2");
    assert_eq!(t.auto_clicker_delay, 33);
    assert_eq!(t.auto_clicker_method, ClickMethod::PostMessage);
    assert_eq!(t.auto_clicker_mode, AutoClickerMode::Keyboard);
    assert_eq!(t.auto_clicker_key, ConfigKey::Space);
    assert_eq!(t.position_x, -20);
    assert_eq!(t.position_y, 15);
    assert_eq!(t.hacking_esc_y_offset, -99);
    assert_eq!(t.gun_tool_digit, 2);
    assert_eq!(t.double_click_button, DoubleClickButton::Right);
}

#[test]
fn load_clamps_gun_digit() {
    let mut s = AppState::new();
    let mut c = s.save_config();
    c.gun_tool_digit = 0;
    s.load_config(c);
    assert_eq!(s.gun_tool_digit, 1);
    let mut c = s.save_config();
    c.gun_tool_digit = 9;
    s.load_config(c);
    assert_eq!(s.gun_tool_digit, 3);
    let mut c = s.save_config();
    c.gun_tool_digit = 2;
    s.load_config(c);
    assert_eq!(s.gun_tool_digit, 2);
}

#[test]
fn load_takes_entries_in_order_and_drops_unknown_bindings() {
    let mut s = AppState::new();
    s.features[4].bind_key = Some(BindKey::Mouse5);
    let mut c = s.save_config();
    c.features = vec![
        stored(FeatureId::Restart, Some("Nonsense"), true),
        stored(FeatureId::Bhop, Some("Space"), false),
        stored(FeatureId::Bhop, Some("x"), true),
    ];
    s.load_config(c);
    // An unknown text leaves the feature unbound.
    assert_eq!(s.features[4].bind_key, None);
    assert!(s.features[4].enabled);
    // The later entry for the same feature wins.
    assert_eq!(s.features[11].bind_key, Some(BindKey::Keyboard(ConfigKey::KeyX)));
    assert!(s.features[11].enabled);
    // Features without an entry keep what they had.
    assert_eq!(s.features[0].bind_key, None);
}

#[test]
fn presets_are_json_stems_sorted_without_case() {
    let mut s = AppState::new();
    let files = vec![
        "beta.json".to_string(),
        "Alpha.json".to_string(),
        "notes.txt".to_string(),
        ".json".to_string(),
        "gamma.JSON".to_string(),
        "alpha.json".to_string(),
        "c.d.json".to_string(),
    ];
    s.refresh_presets(&files);
    assert_eq!(s.presets, vec!["Alpha", "alpha", "beta", "c.d"]);
    s.refresh_presets(&Vec::new());
    assert!(s.presets.is_empty());
}

#[test]
fn screen_position_follows_the_monitor_setting() {
    let monitors = vec![
        MonitorRect { left: 0, top: 0, right: 1920, bottom: 1080 },
        MonitorRect { left: 1920, top: -200, right: 4480, bottom: 1240 },
    ];
    let mut s = AppState::new();
    s.update_screen_position(&monitors);
    assert_eq!((s.x_offset, s.y_offset, s.width, s.height), (0, 0, 1920, 1080));
    s.monitor_id = "2".to_string();
    s.update_screen_position(&monitors);
    assert_eq!((s.x_offset, s.y_offset, s.width, s.height), (1920, -200, 2560, 1440));
    // A number past the monitors changes nothing.
    s.monitor_id = "3".to_string();
    s.update_screen_position(&monitors);
    assert_eq!((s.x_offset, s.y_offset, s.width, s.height), (1920, -200, 2560, 1440));
    // Numbers below 1 and text that is no number pick the first monitor.
    s.monitor_id = "-4".to_string();
    s.update_screen_position(&monitors);
    assert_eq!(s.x_offset, 0);
    s.monitor_id = "2".to_string();
    s.update_screen_position(&monitors);
    s.monitor_id = "two".to_string();
    s.update_screen_position(&monitors);
    assert_eq!(s.x_offset, 0);
    s.monitor_id = "+2".to_string();
    s.update_screen_position(&monitors);
    assert_eq!(s.x_offset, 1920);
}

#[test]
fn game_module_name_ignores_ascii_case() {
    assert!(is_game_module_name(b"OAR-Win64-Shipping.exe"));
    assert!(is_game_module_name(b"oar-win64-shipping.EXE"));
    assert!(!is_game_module_name(b"OAR-Win64-Shipping.ex"));
    assert!(!is_game_module_name(b"OAR-Win64-Shipping.exe "));
    assert!(!is_game_module_name(b"notepad.exe"));
    assert!(!is_game_module_name(b""));
}

#[test]
fn input_toggles_flip_and_report() {
    let h = InputState;
    let mut g = GlobalInputState::new();
    assert!(!h.is_autoclicker_active(&g));
    assert!(h.toggle_autoclicker(&mut g));
    assert!(h.is_autoclicker_active(&g));
    assert!(!h.toggle_autoclicker(&mut g));
    assert!(h.toggle_bhop(&mut g));
    assert!(h.is_bhop_active(&g));
    assert!(h.toggle_lmb_hold(&mut g));
    h.set_lmb_hold_active(&mut g, false);
    assert!(!h.is_lmb_hold_active(&g));
    assert!(h.toggle_all_macros_disabled(&mut g));
    assert!(h.are_all_macros_disabled(&g));
    assert!(!h.toggle_all_macros_disabled(&mut g));
    h.set_lmb_down(&mut g, true);
    assert!(h.is_lmb_down(&g));
    h.set_space_down(&mut g, true);
    assert!(h.is_space_down(&g));
    h.set_mouse_hook_thread_id(&mut g, 77);
    h.set_keyboard_hook_thread_id(&mut g, 88);
    assert_eq!(h.get_mouse_hook_thread_id(&g), 77);
    assert_eq!(h.get_keyboard_hook_thread_id(&g), 88);
    assert!(!h.is_ctrl_down(&g) && !h.is_shift_down(&g) && !h.is_alt_down(&g));
    assert!(!h.is_capslock_down(&g));
}

#[test]
fn focus_answer_is_cached_for_a_short_while() {
    let h = InputState;
    let mut g = GlobalInputState::new();
    h.record_focus(&mut g, 1000, true);
    assert_eq!(h.cached_focus(&g, 1000), Some(true));
    assert_eq!(h.cached_focus(&g, 1000 + FOCUS_CACHE_TTL_MS - 1), Some(true));
    assert_eq!(h.cached_focus(&g, 1000 + FOCUS_CACHE_TTL_MS), None);
    // A clock that went back counts as fresh.
    assert_eq!(h.cached_focus(&g, 10), Some(true));
    h.record_focus(&mut g, 5000, false);
    assert_eq!(h.cached_focus(&g, 5050), Some(false));
}

#[test]
fn picked_monitor_counts_from_one() {
    let mut s = AppState::new();
    assert_eq!(s.picked_monitor(), 0);
    s.monitor_id = "3".to_string();
    assert_eq!(s.picked_monitor(), 2);
    s.monitor_id = "0".to_string();
    assert_eq!(s.picked_monitor(), 0);
    s.monitor_id = "abc".to_string();
    assert_eq!(s.picked_monitor(), 0);
    s.monitor_id = "2147483647".to_string();
    assert_eq!(s.picked_monitor(), 2147483646);
    // Only the picked monitor's size has to fit.
    let monitors = vec![
        MonitorRect { left: 0, top: 0, right: 800, bottom: 600 },
        MonitorRect { left: i32::MIN, top: 0, right: i32::MAX, bottom: 10 },
    ];
    s.monitor_id = "1".to_string();
    s.update_screen_position(&monitors);
    assert_eq!((s.width, s.height), (800, 600));
}

#[test]
fn listing_presets_and_placing_leave_the_rest_alone() {
    let mut s = AppState::new();
    s.gun_tool_digit = 3;
    s.x_offset = 44;
    s.shift_held = true;
    s.preset_name_input = "draft".to_string();
    s.refresh_presets(&vec!["p.json".to_string()]);
    assert_eq!(s.presets, vec!["p"]);
    assert_eq!((s.gun_tool_digit, s.x_offset, s.shift_held), (3, 44, true));
    assert_eq!(s.preset_name_input, "draft");
    s.update_screen_position(&vec![MonitorRect { left: 5, top: 6, right: 105, bottom: 206 }]);
    assert_eq!((s.x_offset, s.y_offset, s.width, s.height), (5, 6, 100, 200));
    assert_eq!((s.gun_tool_digit, s.shift_held), (3, true));
    assert_eq!(s.presets, vec!["p"]);
}
