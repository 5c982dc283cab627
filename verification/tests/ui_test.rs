use nztool_oar::features::{BindKey, ConfigKey, FeatureId};
use nztool_oar::state::{AppState, GlobalInputState};
use nztool_oar::ui::{
    egui_to_rdev_key, feature_key_text, key_choice, pick_key_choice, preset_name_to_create, render_inline_styled_text,
    render_markdown, BindSelection, HeldInputs, KeyBindApp, KeyChoice, KeyEvent, MarkdownLine, RowColor, RowEffects,
    SegmentKind,
};

fn press(name: &str) -> KeyEvent {
    KeyEvent { name: name.to_string(), pressed: true, ctrl: false, shift: false, alt: false }
}

fn nothing_held() -> HeldInputs {
    HeldInputs { ctrl: false, shift: false, alt: false, capslock: false, mouse_mid: false, mouse4: false, mouse5: false }
}

fn item(bullet: bool, text: &str) -> MarkdownLine {
    MarkdownLine::Item { bullet, text: text.to_string() }
}

fn segments(text: &str) -> Vec<(SegmentKind, String)> {
    render_inline_styled_text(text).into_iter().map(|g| (g.kind, g.text)).collect()
}

#[test]
fn interface_keys_map_to_bindable_keys() {
    assert_eq!(egui_to_rdev_key("A"), Some(ConfigKey::KeyA));
    assert_eq!(egui_to_rdev_key("Z"), Some(ConfigKey::KeyZ));
    assert_eq!(egui_to_rdev_key("7"), Some(ConfigKey::Num7));
    assert_eq!(egui_to_rdev_key("F10"), Some(ConfigKey::F10));
    assert_eq!(egui_to_rdev_key("Space"), Some(ConfigKey::Space));
    assert_eq!(egui_to_rdev_key("Enter"), Some(ConfigKey::Return));
    assert_eq!(egui_to_rdev_key("PageDown"), Some(ConfigKey::PageDown));
    assert_eq!(egui_to_rdev_key("Left"), Some(ConfigKey::LeftArrow));
    assert_eq!(egui_to_rdev_key("Down"), Some(ConfigKey::DownArrow));
    assert_eq!(egui_to_rdev_key("F13"), None);
    assert_eq!(egui_to_rdev_key("a"), None);
    assert_eq!(egui_to_rdev_key(""), None);
}

#[test]
fn key_events_choose_plain_presses_only() {
    assert_eq!(key_choice(&press("Escape")), Some(KeyChoice::Escape));
    assert_eq!(key_choice(&press("Q")), Some(KeyChoice::Key(ConfigKey::KeyQ)));
    assert_eq!(key_choice(&press("F13")), None);
    let mut e = press("Q");
    e.ctrl = true;
    assert_eq!(key_choice(&e), None);
    let mut e = press("Q");
    e.pressed = false;
    assert_eq!(key_choice(&e), None);
    let events = vec![press("F13"), press("W"), press("E")];
    assert_eq!(pick_key_choice(&events), Some(KeyChoice::Key(ConfigKey::KeyW)));
    // Escape wins over a key pressed before it in the same frame.
    let events = vec![press("F13"), press("W"), press("Escape")];
    assert_eq!(pick_key_choice(&events), Some(KeyChoice::Escape));
    // An Escape held with a modifier does not count.
    let mut ctrl_escape = press("Escape");
    ctrl_escape.ctrl = true;
    let events = vec![press("W"), ctrl_escape];
    assert_eq!(pick_key_choice(&events), Some(KeyChoice::Key(ConfigKey::KeyW)));
    assert_eq!(pick_key_choice(&Vec::new()), None);
}

#[test]
fn picking_prefers_a_fresh_modifier_press() {
    let mut app = KeyBindApp::new();
    let mut held = nothing_held();
    assert_eq!(app.select_bind(held, None), BindSelection::Nothing);
    held.shift = true;
    assert_eq!(
        app.select_bind(held, Some(KeyChoice::Key(ConfigKey::KeyA))),
        BindSelection::Bind(BindKey::Keyboard(ConfigKey::ShiftLeft))
    );
    // Shift is still held, so it no longer counts; the key does.
    assert_eq!(
        app.select_bind(held, Some(KeyChoice::Key(ConfigKey::KeyA))),
        BindSelection::Bind(BindKey::Keyboard(ConfigKey::KeyA))
    );
    held.mouse4 = true;
    held.ctrl = true;
    assert_eq!(app.select_bind(held, None), BindSelection::Bind(BindKey::Keyboard(ConfigKey::ControlLeft)));
    held.mouse5 = true;
    assert_eq!(app.select_bind(held, None), BindSelection::Bind(BindKey::Mouse5));
    assert_eq!(app.select_bind(held, Some(KeyChoice::Escape)), BindSelection::Cancel);
    let mut fresh = KeyBindApp::new();
    let mut held = nothing_held();
    held.capslock = true;
    held.mouse_mid = true;
    assert_eq!(fresh.select_bind(held, None), BindSelection::Bind(BindKey::Keyboard(ConfigKey::CapsLock)));
    held.alt = true;
    assert_eq!(fresh.select_bind(held, None), BindSelection::Bind(BindKey::Keyboard(ConfigKey::Alt)));
}

#[test]
fn shutdown_reports_running_hook_threads() {
    let mut g = GlobalInputState::new();
    assert_eq!(KeyBindApp::shutdown(&mut g), (None, None));
    assert!(g.rdev_shutdown);
    g.mouse_hook_thread_id = 12;
    g.keyboard_hook_thread_id = 34;
    assert_eq!(KeyBindApp::shutdown(&mut g), (Some(12), Some(34)));
}

#[test]
fn binding_a_feature_through_the_window() {
    let mut s = AppState::new();
    assert_eq!(s.selecting_feature(), None);
    s.start_selecting(4);
    assert_eq!(s.selecting_feature(), Some(4));
    assert_eq!(feature_key_text(&s.features[4]), "Waiting...");
    assert!(!s.apply_selection(4, BindSelection::Nothing));
    assert_eq!(s.selecting_feature(), Some(4));
    assert!(s.apply_selection(4, BindSelection::Bind(BindKey::Keyboard(ConfigKey::KeyR))));
    assert_eq!(s.selecting_feature(), None);
    assert_eq!(s.features[4].bind_key, Some(BindKey::Keyboard(ConfigKey::KeyR)));
    assert_eq!(feature_key_text(&s.features[4]), "R");
    assert_eq!(feature_key_text(&s.features[5]), "Select Key");
    s.start_selecting(5);
    assert!(!s.apply_selection(5, BindSelection::Cancel));
    assert_eq!(s.features[5].bind_key, None);
    assert!(!s.features[5].selecting);
}

#[test]
fn on_off_button_needs_a_binding() {
    let mut s = AppState::new();
    let mut g = GlobalInputState::new();
    assert_eq!(s.toggle_feature_enabled(&mut g, 0), None);
    assert!(!s.features[0].enabled);
    s.features[0].bind_key = Some(BindKey::Mouse4);
    assert_eq!(
        s.toggle_feature_enabled(&mut g, 0),
        Some(RowEffects { release_shift: false, release_mouse: false })
    );
    assert!(s.features[0].enabled);
    assert_eq!(s.feature_row_color(&g, 0), RowColor::Green);
    assert_eq!(s.feature_row_color(&g, 1), RowColor::Red);
}

#[test]
fn switching_off_lets_go_of_what_is_held() {
    let mut s = AppState::new();
    let mut g = GlobalInputState::new();
    // Shift toggle is row 6, Keep Item Clicker row 8, Toggle All Macros row 15.
    s.features[6].bind_key = Some(BindKey::Keyboard(ConfigKey::ShiftLeft));
    s.features[6].enabled = true;
    s.shift_held = true;
    assert_eq!(s.feature_row_color(&g, 6), RowColor::Blue);
    assert_eq!(
        s.toggle_feature_enabled(&mut g, 6),
        Some(RowEffects { release_shift: true, release_mouse: false })
    );
    assert!(!s.shift_held);

    s.features[8].bind_key = Some(BindKey::Mouse5);
    s.features[8].enabled = true;
    g.lmb_hold_active = true;
    assert_eq!(s.feature_row_color(&g, 8), RowColor::Blue);
    assert_eq!(
        s.toggle_feature_enabled(&mut g, 8),
        Some(RowEffects { release_shift: false, release_mouse: true })
    );
    assert!(!g.lmb_hold_active);

    s.features[15].bind_key = Some(BindKey::Keyboard(ConfigKey::F8));
    s.features[15].enabled = true;
    g.all_macros_disabled = true;
    assert_eq!(s.feature_row_color(&g, 15), RowColor::Blue);
    s.toggle_feature_enabled(&mut g, 15);
    assert!(!g.all_macros_disabled);
    assert!(!s.features[15].enabled);
}

#[test]
fn reset_unbinds_and_switches_off() {
    let mut s = AppState::new();
    let mut g = GlobalInputState::new();
    s.features[6].bind_key = Some(BindKey::Keyboard(ConfigKey::ShiftLeft));
    s.features[6].enabled = true;
    s.shift_held = true;
    assert_eq!(s.reset_feature(&mut g, 6), RowEffects { release_shift: true, release_mouse: false });
    assert_eq!(s.features[6].bind_key, None);
    assert!(!s.features[6].enabled);
    assert!(!s.shift_held);
    g.lmb_hold_active = true;
    assert_eq!(s.reset_feature(&mut g, 8), RowEffects { release_shift: false, release_mouse: true });
    assert!(!g.lmb_hold_active);
    assert_eq!(s.reset_feature(&mut g, 0), RowEffects { release_shift: false, release_mouse: false });
    assert_eq!(s.features[0].id, FeatureId::HackingClickMtd);
}

#[test]
fn gun_digit_is_clamped_and_6969_opens_dev_tools() {
    let mut s = AppState::new();
    s.set_gun_tool_digit(2);
    assert_eq!(s.gun_tool_digit, 2);
    s.set_gun_tool_digit(0);
    assert_eq!(s.gun_tool_digit, 1);
    s.set_gun_tool_digit(40);
    assert_eq!(s.gun_tool_digit, 3);
    assert!(!s.dev_mode);
    s.set_gun_tool_digit(6969);
    assert!(s.dev_mode);
    assert_eq!(s.gun_tool_digit, 3);
    s.set_gun_tool_digit(1);
    assert!(s.dev_mode);
}

#[test]
fn release_notes_are_laid_out_by_line() {
    let lines = render_markdown("# Title\n\n## Changes\n* one\n- two\n### Small\nplain text\n  ## spaced  \n#nospace\n");
    let want = vec![
        MarkdownLine::Heading("Title".to_string()),
        MarkdownLine::Blank,
        MarkdownLine::Heading2("Changes".to_string()),
        item(true, "one"),
        item(true, "two"),
        MarkdownLine::Heading3("Small".to_string()),
        item(false, "plain text"),
        MarkdownLine::Heading2("spaced".to_string()),
        item(false, "#nospace"),
    ];
    assert!(lines == want);
}

#[test]
fn release_notes_line_endings() {
    assert!(render_markdown("") == Vec::new());
    assert!(render_markdown("\n") == vec![MarkdownLine::Blank]);
    assert!(render_markdown("a\r\nb") == vec![item(false, "a"), item(false, "b")]);
    assert!(render_markdown("a\n\n") == vec![item(false, "a"), MarkdownLine::Blank]);
    assert!(render_markdown("*") == vec![item(false, "*")]);
}

#[test]
fn inline_styles_split_bold_and_code() {
    assert_eq!(
        segments("use **bold** and `code` here"),
        vec![
            (SegmentKind::Plain, "use ".to_string()),
            (SegmentKind::Bold, "bold".to_string()),
            (SegmentKind::Plain, " and ".to_string()),
            (SegmentKind::Code, "code".to_string()),
            (SegmentKind::Plain, " here".to_string()),
        ]
    );
    assert_eq!(segments(""), vec![]);
    assert_eq!(segments("plain"), vec![(SegmentKind::Plain, "plain".to_string())]);
    assert_eq!(
        segments("a **open"),
        vec![(SegmentKind::Plain, "a ".to_string()), (SegmentKind::Plain, "**open".to_string())]
    );
    assert_eq!(segments("`x"), vec![(SegmentKind::Plain, "`x".to_string())]);
    assert_eq!(
        segments("`a**b**`**c**"),
        vec![(SegmentKind::Code, "a**b**".to_string()), (SegmentKind::Bold, "c".to_string())]
    );
    assert_eq!(segments("****"), vec![(SegmentKind::Bold, "".to_string())]);
}

#[test]
fn preset_names_are_trimmed() {
    assert_eq!(preset_name_to_create("  my preset \t"), Some("my preset".to_string()));
    assert_eq!(preset_name_to_create("   "), None);
    assert_eq!(preset_name_to_create(""), None);
    assert_eq!(preset_name_to_create("x"), Some("x".to_string()));
}

fn rebuilt(text: &str) -> String {
    render_inline_styled_text(text)
        .into_iter()
        .map(|g| match g.kind {
            SegmentKind::Plain => g.text,
            SegmentKind::Bold => format!("**{}**", g.text),
            SegmentKind::Code => format!("`{}`", g.text),
        })
        .collect()
}

#[test]
fn styled_pieces_rebuild_the_text() {
    for t in ["", "plain", "a **b** c", "**", "a **open", "`x", "`a**b**`**c**", "****", "x`y`z**w**", "``"] {
        assert_eq!(rebuilt(t), t);
        for g in render_inline_styled_text(t) {
            if g.kind == SegmentKind::Plain {
                assert!(!g.text.is_empty(), "{}", t);
            }
        }
    }
}
