use nztool_oar::features::{BindKey, ConfigKey, DoubleClickButton, FeatureId};
use nztool_oar::hooks::{
    any_feature_enabled, autoclicker_step, bhop_step, dispatch_bind, feature_job, first_bound_feature,
    handle_mouse_bind, hotkey_callback, is_bound_to_feature, lmb_hold_step, low_level_keyboard_proc,
    low_level_mouse_proc, message_sums_fit, shift_poll_step, bind_of_event, bind_sums_ok, is_plain_event, side_button_verdict, SideButtonVerdict, AutoClick, BhopStep, BindOutcome,
    HotkeyVerdict, InputEvent, MouseButton, MouseHookEvent, Pause, HC_ACTION, VK_CAPITAL, VK_LSHIFT,
    VK_RMENU, VK_SPACE, WM_KEYDOWN, WM_KEYUP, WM_LBUTTONDOWN, WM_LBUTTONUP, WM_SYSKEYDOWN,
    WM_XBUTTONDOWN, WM_XBUTTONUP,
};
use nztool_oar::state::{AppState, AutoClickerMode, ClickMethod, GlobalInputState};
use nztool_oar::worker::WorkerMessage;

fn bind(s: &mut AppState, id: FeatureId, b: BindKey) {
    let f = s.features.iter_mut().find(|f| f.id == id).unwrap();
    f.bind_key = Some(b);
    f.enabled = true;
}

#[test]
fn keyboard_hook_tracks_modifiers() {
    let mut g = GlobalInputState::new();
    low_level_keyboard_proc(&mut g, HC_ACTION, WM_KEYDOWN, VK_SPACE, false);
    assert!(g.space_down);
    low_level_keyboard_proc(&mut g, HC_ACTION, WM_KEYDOWN, VK_LSHIFT, false);
    assert!(g.shift_down);
    low_level_keyboard_proc(&mut g, HC_ACTION, WM_SYSKEYDOWN, VK_RMENU, false);
    assert!(g.alt_down);
    low_level_keyboard_proc(&mut g, HC_ACTION, WM_KEYDOWN, VK_CAPITAL, false);
    assert!(g.capslock_down);
    low_level_keyboard_proc(&mut g, HC_ACTION, WM_KEYUP, VK_SPACE, false);
    assert!(!g.space_down);
    assert!(g.shift_down);
    // Injected keys and other hook codes are ignored.
    low_level_keyboard_proc(&mut g, HC_ACTION, WM_KEYUP, VK_LSHIFT, true);
    assert!(g.shift_down);
    low_level_keyboard_proc(&mut g, 3, WM_KEYUP, VK_LSHIFT, false);
    assert!(g.shift_down);
    // An unrelated key changes nothing.
    low_level_keyboard_proc(&mut g, HC_ACTION, WM_KEYDOWN, 0x41, false);
    assert!(!g.ctrl_down);
}

#[test]
fn mouse_hook_tracks_left_button_and_side_buttons() {
    let mut g = GlobalInputState::new();
    assert_eq!(low_level_mouse_proc(&mut g, HC_ACTION, WM_LBUTTONDOWN, false, 0), MouseHookEvent::PassOn);
    assert!(g.lmb_down);
    assert_eq!(low_level_mouse_proc(&mut g, HC_ACTION, WM_LBUTTONUP, false, 0), MouseHookEvent::PassOn);
    assert!(!g.lmb_down);
    g.click_debug_enabled = true;
    assert_eq!(low_level_mouse_proc(&mut g, HC_ACTION, WM_LBUTTONDOWN, false, 0), MouseHookEvent::LogClick);
    assert_eq!(
        low_level_mouse_proc(&mut g, HC_ACTION, WM_XBUTTONDOWN, false, 1 << 16),
        MouseHookEvent::SideButton { bind: BindKey::Mouse4, down: true }
    );
    assert_eq!(
        low_level_mouse_proc(&mut g, HC_ACTION, WM_XBUTTONUP, false, 2 << 16),
        MouseHookEvent::SideButton { bind: BindKey::Mouse5, down: false }
    );
    let before = g.lmb_down;
    assert_eq!(low_level_mouse_proc(&mut g, HC_ACTION, WM_LBUTTONUP, true, 0), MouseHookEvent::PassOn);
    assert_eq!(g.lmb_down, before);
}

#[test]
fn binding_lookup_takes_the_first_enabled_feature() {
    let mut s = AppState::new();
    assert!(!is_bound_to_feature(&s, BindKey::Mouse4));
    s.features[3].bind_key = Some(BindKey::Mouse4);
    assert!(!is_bound_to_feature(&s, BindKey::Mouse4));
    s.features[3].enabled = true;
    s.features[9].bind_key = Some(BindKey::Mouse4);
    s.features[9].enabled = true;
    assert!(is_bound_to_feature(&s, BindKey::Mouse4));
    assert_eq!(first_bound_feature(&s.features, BindKey::Mouse4), Some(3));
    assert_eq!(first_bound_feature(&s.features, BindKey::Mouse5), None);
}

#[test]
fn feature_jobs_carry_the_settings() {
    let mut s = AppState::new();
    s.x_offset = 100;
    s.y_offset = 50;
    s.width = 1920;
    s.height = 1080;
    s.hacking_y_offset = -10;
    s.hacking2_y_offset = -20;
    s.hacking_esc_y_offset = -30;
    s.gun_tool_digit = 2;
    s.double_click_button = DoubleClickButton::Right;
    assert_eq!(
        feature_job(&s, FeatureId::HackingClickMtd),
        Some(WorkerMessage::HackingClickMtd { x: 100, y: 50, w: 1920, h: 1080, offset_y: -10 })
    );
    assert_eq!(
        feature_job(&s, FeatureId::HackingJumpMtd),
        Some(WorkerMessage::HackingJumpMtd { x: 100, y: 50, w: 1920, h: 1080, offset_y: -20 })
    );
    assert_eq!(
        feature_job(&s, FeatureId::HackingEscMtd),
        Some(WorkerMessage::HackingEscMtd { x: 100, y: 50, w: 1920, h: 1080, offset_y: -30 })
    );
    assert_eq!(feature_job(&s, FeatureId::TipsSkip), Some(WorkerMessage::TipsSkip { x: 100, w: 1920, y: 880 }));
    assert_eq!(feature_job(&s, FeatureId::Restart), Some(WorkerMessage::Restart { x: 100, w: 1920, y: 536 }));
    assert_eq!(feature_job(&s, FeatureId::GangstaGrip), Some(WorkerMessage::GangstaGrip { digit: 2 }));
    assert_eq!(feature_job(&s, FeatureId::QuickExit), Some(WorkerMessage::QuickExit { x: 100, y: 50 }));
    assert_eq!(
        feature_job(&s, FeatureId::DoubleClick),
        Some(WorkerMessage::DoubleClick(DoubleClickButton::Right))
    );
    assert_eq!(feature_job(&s, FeatureId::ShiftToggle), Some(WorkerMessage::ShiftToggle));
    assert_eq!(feature_job(&s, FeatureId::AutoClicker), None);
    assert_eq!(feature_job(&s, FeatureId::Bhop), None);
    assert!(message_sums_fit(&s, FeatureId::TipsSkip));
    s.y_offset = i32::MAX;
    assert!(!message_sums_fit(&s, FeatureId::TipsSkip));
    assert!(message_sums_fit(&s, FeatureId::HackingClickMtd));
}

#[test]
fn dispatch_toggles_and_sends() {
    let mut s = AppState::new();
    let mut g = GlobalInputState::new();
    bind(&mut s, FeatureId::AutoClicker, BindKey::Keyboard(ConfigKey::KeyF));
    bind(&mut s, FeatureId::TipsSkip, BindKey::Keyboard(ConfigKey::KeyT));
    bind(&mut s, FeatureId::ToggleAllMacros, BindKey::Keyboard(ConfigKey::F8));
    assert_eq!(dispatch_bind(&s, &mut g, BindKey::Keyboard(ConfigKey::KeyZ)), BindOutcome::Unbound);
    assert_eq!(dispatch_bind(&s, &mut g, BindKey::Keyboard(ConfigKey::KeyF)), BindOutcome::ToggledAutoClicker);
    assert!(g.autoclicker_active);
    assert_eq!(dispatch_bind(&s, &mut g, BindKey::Keyboard(ConfigKey::KeyF)), BindOutcome::ToggledAutoClicker);
    assert!(!g.autoclicker_active);
    assert_eq!(
        dispatch_bind(&s, &mut g, BindKey::Keyboard(ConfigKey::KeyT)),
        BindOutcome::Send(WorkerMessage::TipsSkip { x: 0, w: 0, y: 830 })
    );
    assert_eq!(dispatch_bind(&s, &mut g, BindKey::Keyboard(ConfigKey::F8)), BindOutcome::ToggledAllMacros);
    assert!(g.all_macros_disabled);
    assert_eq!(dispatch_bind(&s, &mut g, BindKey::Keyboard(ConfigKey::KeyT)), BindOutcome::MacrosDisabled);
    assert_eq!(dispatch_bind(&s, &mut g, BindKey::Keyboard(ConfigKey::KeyF)), BindOutcome::MacrosDisabled);
    assert!(!g.autoclicker_active);
    assert_eq!(dispatch_bind(&s, &mut g, BindKey::Keyboard(ConfigKey::F8)), BindOutcome::ToggledAllMacros);
    assert!(!g.all_macros_disabled);
}

#[test]
fn mouse_binds_act_only_with_focus() {
    let mut s = AppState::new();
    let mut g = GlobalInputState::new();
    bind(&mut s, FeatureId::FastLoadout, BindKey::Mouse5);
    bind(&mut s, FeatureId::Bhop, BindKey::Mouse4);
    assert_eq!(handle_mouse_bind(&s, &mut g, BindKey::Mouse5, false), None);
    assert_eq!(handle_mouse_bind(&s, &mut g, BindKey::Mouse5, true), Some(WorkerMessage::FastLoadout));
    assert_eq!(handle_mouse_bind(&s, &mut g, BindKey::Mouse4, true), None);
    assert!(g.bhop_active);
    assert_eq!(handle_mouse_bind(&s, &mut g, BindKey::MouseMiddle, true), None);
}

#[test]
fn hotkey_listener_verdicts() {
    let mut s = AppState::new();
    let mut g = GlobalInputState::new();
    bind(&mut s, FeatureId::NoFallDamage, BindKey::MouseMiddle);
    bind(&mut s, FeatureId::Bhop, BindKey::Keyboard(ConfigKey::KeyB));
    let middle = InputEvent::ButtonPress(MouseButton::Middle);
    assert_eq!(hotkey_callback(&s, &mut g, middle, true), HotkeyVerdict::Dispatch(WorkerMessage::NoFallDamage));
    assert_eq!(hotkey_callback(&s, &mut g, middle, false), HotkeyVerdict::Pass);
    assert_eq!(
        hotkey_callback(&s, &mut g, InputEvent::KeyPress(Some(ConfigKey::KeyB)), true),
        HotkeyVerdict::Block
    );
    assert!(g.bhop_active);
    assert_eq!(hotkey_callback(&s, &mut g, InputEvent::KeyPress(Some(ConfigKey::KeyC)), true), HotkeyVerdict::Pass);
    assert_eq!(hotkey_callback(&s, &mut g, InputEvent::KeyPress(None), true), HotkeyVerdict::Pass);
    assert_eq!(hotkey_callback(&s, &mut g, InputEvent::ButtonPress(MouseButton::Left), true), HotkeyVerdict::Pass);
    assert_eq!(hotkey_callback(&s, &mut g, InputEvent::MouseMove, true), HotkeyVerdict::Pass);
    assert_eq!(hotkey_callback(&s, &mut g, InputEvent::KeyRelease, true), HotkeyVerdict::Pass);
    assert_eq!(
        hotkey_callback(&s, &mut g, InputEvent::ButtonPress(MouseButton::Unknown(7)), true),
        HotkeyVerdict::Pass
    );
    g.rdev_shutdown = true;
    assert_eq!(hotkey_callback(&s, &mut g, InputEvent::MouseMove, true), HotkeyVerdict::Block);
}

#[test]
fn bhop_taps_only_while_space_is_held() {
    let mut g = GlobalInputState::new();
    assert_eq!(bhop_step(&g, true), BhopStep::Sleep(5));
    g.bhop_active = true;
    assert_eq!(bhop_step(&g, true), BhopStep::Sleep(5));
    g.space_down = true;
    assert_eq!(bhop_step(&g, true), BhopStep::TapThenSleep(3));
    assert_eq!(bhop_step(&g, false), BhopStep::Sleep(5));
    g.all_macros_disabled = true;
    assert_eq!(bhop_step(&g, true), BhopStep::Sleep(5));
}

#[test]
fn shift_poll_sends_on_a_fresh_press() {
    let mut s = AppState::new();
    let mut g = GlobalInputState::new();
    g.shift_down = true;
    assert_eq!(shift_poll_step(&s, &g, true, false), (false, true));
    bind(&mut s, FeatureId::ShiftToggle, BindKey::Keyboard(ConfigKey::ShiftLeft));
    assert_eq!(shift_poll_step(&s, &g, true, false), (true, true));
    assert_eq!(shift_poll_step(&s, &g, true, true), (false, true));
    assert_eq!(shift_poll_step(&s, &g, false, false), (false, true));
    g.shift_down = false;
    assert_eq!(shift_poll_step(&s, &g, true, true), (false, false));
}

#[test]
fn autoclicker_clicks_while_left_button_held() {
    let mut s = AppState::new();
    let mut g = GlobalInputState::new();
    assert_eq!(autoclicker_step(&s, &g, true), (None, Pause::Sleep(5)));
    bind(&mut s, FeatureId::AutoClicker, BindKey::Mouse4);
    assert!(any_feature_enabled(&s.features, FeatureId::AutoClicker));
    g.autoclicker_active = true;
    g.lmb_down = true;
    assert_eq!(autoclicker_step(&s, &g, true), (Some(AutoClick::MouseClick), Pause::Sleep(6)));
    s.auto_clicker_method = ClickMethod::PostMessage;
    s.auto_clicker_click_count = 4;
    s.auto_clicker_delay = 0;
    assert_eq!(autoclicker_step(&s, &g, true), (Some(AutoClick::PostClicks(4)), Pause::Yield));
    s.auto_clicker_mode = AutoClickerMode::Keyboard;
    assert_eq!(autoclicker_step(&s, &g, true), (Some(AutoClick::KeyTap(0x12)), Pause::Yield));
    s.auto_clicker_key = ConfigKey::Return;
    assert_eq!(autoclicker_step(&s, &g, true), (None, Pause::Yield));
    g.lmb_down = false;
    assert_eq!(autoclicker_step(&s, &g, true), (None, Pause::Sleep(5)));
}

#[test]
fn lmb_hold_presses_then_releases_once() {
    let mut s = AppState::new();
    let mut g = GlobalInputState::new();
    bind(&mut s, FeatureId::KeepItemClicker, BindKey::Mouse5);
    g.lmb_hold_active = true;
    assert_eq!(lmb_hold_step(&s, &g, true, false), (Some(true), true));
    assert_eq!(lmb_hold_step(&s, &g, true, true), (Some(true), true));
    assert_eq!(lmb_hold_step(&s, &g, false, true), (Some(false), false));
    assert_eq!(lmb_hold_step(&s, &g, false, false), (None, false));
}

#[test]
fn bound_side_buttons_are_swallowed_and_act_on_press() {
    let mut s = AppState::new();
    assert_eq!(side_button_verdict(&s, BindKey::Mouse4, true, true), SideButtonVerdict::PassOn);
    bind(&mut s, FeatureId::FastLoadout, BindKey::Mouse4);
    assert_eq!(side_button_verdict(&s, BindKey::Mouse4, true, true), SideButtonVerdict::SwallowAndAct(BindKey::Mouse4));
    assert_eq!(side_button_verdict(&s, BindKey::Mouse4, false, true), SideButtonVerdict::Swallow);
    assert_eq!(side_button_verdict(&s, BindKey::Mouse4, true, false), SideButtonVerdict::PassOn);
    assert_eq!(side_button_verdict(&s, BindKey::Mouse5, true, true), SideButtonVerdict::PassOn);
    s.features[10].enabled = false;
    assert_eq!(side_button_verdict(&s, BindKey::Mouse4, true, true), SideButtonVerdict::PassOn);
}

#[test]
fn overflowing_heights_matter_only_when_the_job_is_built() {
    let mut s = AppState::new();
    let mut g = GlobalInputState::new();
    bind(&mut s, FeatureId::TipsSkip, BindKey::Mouse5);
    bind(&mut s, FeatureId::ToggleAllMacros, BindKey::Keyboard(ConfigKey::F8));
    s.y_offset = i32::MAX;
    assert!(!bind_sums_ok(&s, BindKey::Mouse5));
    assert!(bind_sums_ok(&s, BindKey::Keyboard(ConfigKey::F8)));
    assert!(bind_sums_ok(&s, BindKey::Mouse4));
    // Unfocused: nothing happens.
    assert_eq!(handle_mouse_bind(&s, &mut g, BindKey::Mouse5, false), None);
    assert_eq!(
        hotkey_callback(&s, &mut g, InputEvent::ButtonPress(MouseButton::Unknown(5)), false),
        HotkeyVerdict::Pass
    );
    // Every macro off: the press passes and nothing is built.
    g.all_macros_disabled = true;
    assert_eq!(dispatch_bind(&s, &mut g, BindKey::Mouse5), BindOutcome::MacrosDisabled);
    assert_eq!(handle_mouse_bind(&s, &mut g, BindKey::Mouse5, true), None);
    assert_eq!(
        hotkey_callback(&s, &mut g, InputEvent::ButtonPress(MouseButton::Unknown(5)), true),
        HotkeyVerdict::Pass
    );
    assert!(g.all_macros_disabled);
    // The toggle itself still works.
    assert_eq!(
        hotkey_callback(&s, &mut g, InputEvent::KeyPress(Some(ConfigKey::F8)), true),
        HotkeyVerdict::Block
    );
    assert!(!g.all_macros_disabled);
}

#[test]
fn events_map_to_bindings() {
    assert_eq!(bind_of_event(InputEvent::KeyPress(Some(ConfigKey::KeyQ))), Some(BindKey::Keyboard(ConfigKey::KeyQ)));
    assert_eq!(bind_of_event(InputEvent::KeyPress(None)), None);
    assert_eq!(bind_of_event(InputEvent::ButtonPress(MouseButton::Middle)), Some(BindKey::MouseMiddle));
    assert_eq!(bind_of_event(InputEvent::ButtonPress(MouseButton::Unknown(4))), Some(BindKey::Mouse4));
    assert_eq!(bind_of_event(InputEvent::ButtonPress(MouseButton::Unknown(5))), Some(BindKey::Mouse5));
    assert_eq!(bind_of_event(InputEvent::ButtonPress(MouseButton::Unknown(6))), None);
    assert_eq!(bind_of_event(InputEvent::ButtonPress(MouseButton::Left)), None);
    assert!(is_plain_event(InputEvent::MouseMove));
    assert!(is_plain_event(InputEvent::ButtonPress(MouseButton::Right)));
    assert!(is_plain_event(InputEvent::ButtonRelease));
    assert!(!is_plain_event(InputEvent::KeyPress(None)));
    assert!(!is_plain_event(InputEvent::KeyRelease));
    assert!(!is_plain_event(InputEvent::ButtonPress(MouseButton::Middle)));
}
