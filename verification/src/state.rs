use vstd::prelude::*;
use crate::features::{
    bind_key_label, bind_key_of_text, lemma_bind_key_round_trip, BindKey, ConfigKey,
    DoubleClickButton, Feature, FeatureId, SerializableFeature,
};
use crate::text::{
    chars_of, parse_i32, parse_i32_spec, sort_by_lowercase, sorted_by_lowercase, string_from_chars,
    string_views,
};

verus! {

/// What the input hooks and the worker threads share: which buttons are held, which
/// toggles are on, and the bookkeeping of the hook threads.
pub struct GlobalInputState {
    pub lmb_down: bool,
    pub space_down: bool,
    pub autoclicker_active: bool,
    pub bhop_active: bool,
    pub ctrl_down: bool,
    pub shift_down: bool,
    pub alt_down: bool,
    pub capslock_down: bool,
    pub mouse_hook_thread_id: u32,
    pub keyboard_hook_thread_id: u32,
    pub last_focus_check: u64,
    pub cached_focus_value: bool,
    pub rdev_shutdown: bool,
    pub lmb_hold_active: bool,
    pub click_debug_enabled: bool,
    pub all_macros_disabled: bool,
}

impl GlobalInputState {
    /// Nothing held, every toggle off, no hook thread known.
    pub fn new() -> (g: GlobalInputState)
        ensures
            !g.lmb_down && !g.space_down && !g.autoclicker_active && !g.bhop_active,
            !g.ctrl_down && !g.shift_down && !g.alt_down && !g.capslock_down,
            g.mouse_hook_thread_id == 0 && g.keyboard_hook_thread_id == 0,
            g.last_focus_check == 0 && !g.cached_focus_value && !g.rdev_shutdown,
            !g.lmb_hold_active && !g.click_debug_enabled && !g.all_macros_disabled,
    {
        GlobalInputState {
            lmb_down: false,
            space_down: false,
            autoclicker_active: false,
            bhop_active: false,
            ctrl_down: false,
            shift_down: false,
            alt_down: false,
            capslock_down: false,
            mouse_hook_thread_id: 0,
            keyboard_hook_thread_id: 0,
            last_focus_check: 0,
            cached_focus_value: false,
            rdev_shutdown: false,
            lmb_hold_active: false,
            click_debug_enabled: false,
            all_macros_disabled: false,
        }
    }
}

/// A handle on the shared input state, through which it is read and changed.
#[derive(Clone, Copy)]
pub struct InputState;

impl InputState {
    /// Whether the left mouse button is held.
    pub fn is_lmb_down(&self, g: &GlobalInputState) -> (r: bool)
        ensures
            r == g.lmb_down,
    {
        g.lmb_down
    }

    /// Records whether the left mouse button is held.
    pub fn set_lmb_down(&self, g: &mut GlobalInputState, down: bool)
        ensures
            *final(g) == (GlobalInputState { lmb_down: down, ..*old(g) }),
    {
        g.lmb_down = down;
    }

    /// Records whether the space bar is held.
    pub fn set_space_down(&self, g: &mut GlobalInputState, down: bool)
        ensures
            *final(g) == (GlobalInputState { space_down: down, ..*old(g) }),
    {
        g.space_down = down;
    }

    /// Whether the space bar is held.
    pub fn is_space_down(&self, g: &GlobalInputState) -> (r: bool)
        ensures
            r == g.space_down,
    {
        g.space_down
    }

    /// Switches the auto clicker on or off. Gives the new value.
    pub fn toggle_autoclicker(&self, g: &mut GlobalInputState) -> (r: bool)
        ensures
            r == !old(g).autoclicker_active,
            *final(g) == (GlobalInputState { autoclicker_active: r, ..*old(g) }),
    {
        let current = g.autoclicker_active;
        g.autoclicker_active = !current;
        !current
    }

    /// Whether the auto clicker is on.
    pub fn is_autoclicker_active(&self, g: &GlobalInputState) -> (r: bool)
        ensures
            r == g.autoclicker_active,
    {
        g.autoclicker_active
    }

    /// Switches bunny hopping on or off. Gives the new value.
    pub fn toggle_bhop(&self, g: &mut GlobalInputState) -> (r: bool)
        ensures
            r == !old(g).bhop_active,
            *final(g) == (GlobalInputState { bhop_active: r, ..*old(g) }),
    {
        let current = g.bhop_active;
        g.bhop_active = !current;
        !current
    }

    /// Whether bunny hopping is on.
    pub fn is_bhop_active(&self, g: &GlobalInputState) -> (r: bool)
        ensures
            r == g.bhop_active,
    {
        g.bhop_active
    }

    /// Switches holding the left mouse button on or off. Gives the new value.
    pub fn toggle_lmb_hold(&self, g: &mut GlobalInputState) -> (r: bool)
        ensures
            r == !old(g).lmb_hold_active,
            *final(g) == (GlobalInputState { lmb_hold_active: r, ..*old(g) }),
    {
        let current = g.lmb_hold_active;
        g.lmb_hold_active = !current;
        !current
    }

    /// Whether the left mouse button is kept held.
    pub fn is_lmb_hold_active(&self, g: &GlobalInputState) -> (r: bool)
        ensures
            r == g.lmb_hold_active,
    {
        g.lmb_hold_active
    }

    /// Sets whether the left mouse button is kept held.
    pub fn set_lmb_hold_active(&self, g: &mut GlobalInputState, active: bool)
        ensures
            *final(g) == (GlobalInputState { lmb_hold_active: active, ..*old(g) }),
    {
        g.lmb_hold_active = active;
    }

    /// Whether a control key is held.
    pub fn is_ctrl_down(&self, g: &GlobalInputState) -> (r: bool)
        ensures
            r == g.ctrl_down,
    {
        g.ctrl_down
    }

    /// Whether a shift key is held.
    pub fn is_shift_down(&self, g: &GlobalInputState) -> (r: bool)
        ensures
            r == g.shift_down,
    {
        g.shift_down
    }

    /// Whether an alt key is held.
    pub fn is_alt_down(&self, g: &GlobalInputState) -> (r: bool)
        ensures
            r == g.alt_down,
    {
        g.alt_down
    }

    /// Whether caps lock is held.
    pub fn is_capslock_down(&self, g: &GlobalInputState) -> (r: bool)
        ensures
            r == g.capslock_down,
    {
        g.capslock_down
    }

    /// Records the thread that runs the mouse hook.
    pub fn set_mouse_hook_thread_id(&self, g: &mut GlobalInputState, id: u32)
        ensures
            *final(g) == (GlobalInputState { mouse_hook_thread_id: id, ..*old(g) }),
    {
        g.mouse_hook_thread_id = id;
    }

    /// The thread that runs the mouse hook (0 before it starts).
    pub fn get_mouse_hook_thread_id(&self, g: &GlobalInputState) -> (r: u32)
        ensures
            r == g.mouse_hook_thread_id,
    {
        g.mouse_hook_thread_id
    }

    /// Records the thread that runs the keyboard hook.
    pub fn set_keyboard_hook_thread_id(&self, g: &mut GlobalInputState, id: u32)
        ensures
            *final(g) == (GlobalInputState { keyboard_hook_thread_id: id, ..*old(g) }),
    {
        g.keyboard_hook_thread_id = id;
    }

    /// The thread that runs the keyboard hook (0 before it starts).
    pub fn get_keyboard_hook_thread_id(&self, g: &GlobalInputState) -> (r: u32)
        ensures
            r == g.keyboard_hook_thread_id,
    {
        g.keyboard_hook_thread_id
    }

    /// Switches every macro off, or back on. Gives the new value.
    pub fn toggle_all_macros_disabled(&self, g: &mut GlobalInputState) -> (r: bool)
        ensures
            r == !old(g).all_macros_disabled,
            *final(g) == (GlobalInputState { all_macros_disabled: r, ..*old(g) }),
    {
        let current = g.all_macros_disabled;
        g.all_macros_disabled = !current;
        !current
    }

    /// Whether every macro is switched off.
    pub fn are_all_macros_disabled(&self, g: &GlobalInputState) -> (r: bool)
        ensures
            r == g.all_macros_disabled,
    {
        g.all_macros_disabled
    }

}


/// How long a look at which window has the focus stays good, in milliseconds.
pub const FOCUS_CACHE_TTL_MS: u64 = 100;

impl InputState {
    /// The remembered answer to "is the game focused?", if it is younger than
    /// `FOCUS_CACHE_TTL_MS` at time `now`.
    pub fn cached_focus(&self, g: &GlobalInputState, now: u64) -> (r: Option<bool>)
        ensures
            r == (if now >= g.last_focus_check && now - g.last_focus_check < FOCUS_CACHE_TTL_MS
                || now < g.last_focus_check {
                Some(g.cached_focus_value)
            } else {
                None::<bool>
            }),
    {
        let age: u64 = now.saturating_sub(g.last_focus_check);
        if age < FOCUS_CACHE_TTL_MS {
            Some(g.cached_focus_value)
        } else {
            None
        }
    }

    /// Remembers the answer to "is the game focused?" found at time `now`.
    pub fn record_focus(&self, g: &mut GlobalInputState, now: u64, focused: bool)
        ensures
            *final(g) == (GlobalInputState {
                cached_focus_value: focused,
                last_focus_check: now,
                ..*old(g)
            }),
    {
        g.cached_focus_value = focused;
        g.last_focus_check = now;
    }
}

/// The file name of the game's process.
pub open spec fn game_module_name() -> Seq<u8> {
    seq![79u8, 65u8, 82u8, 45u8, 87u8, 105u8, 110u8, 54u8, 52u8, 45u8, 83u8, 104u8, 105u8, 112u8, 112u8, 105u8, 110u8, 103u8, 46u8, 101u8, 120u8, 101u8]
}

/// The lower-case form of an ASCII letter byte; any other byte is kept.
pub open spec fn ascii_lower_byte(b: u8) -> u8 {
    if 65 <= b <= 90 {
        (b + 32) as u8
    } else {
        b
    }
}

/// Two byte strings are equal when ASCII letters are compared without case
/// (`eq_ignore_ascii_case`).
pub open spec fn eq_ignore_ascii_case(a: Seq<u8>, b: Seq<u8>) -> bool {
    a.len() == b.len() && forall|i: int| 0 <= i < a.len() ==> ascii_lower_byte(a[i]) == ascii_lower_byte(b[i])
}

/// Whether a process's module name is the game's, ignoring ASCII case.
pub fn is_game_module_name(name: &[u8]) -> (r: bool)
    ensures
        r == eq_ignore_ascii_case(name@, game_module_name()),
{
    let target: [u8; 22] = [79, 65, 82, 45, 87, 105, 110, 54, 52, 45, 83, 104, 105, 112, 112, 105, 110, 103, 46, 101, 120, 101];
    assert(target@ =~= game_module_name());
    if name.len() != 22 {
        return false;
    }
    for i in 0..22
        invariant
            name@.len() == 22,
            target@ == game_module_name(),
            forall|j: int| 0 <= j < i ==> ascii_lower_byte(name@[j]) == ascii_lower_byte(target@[j]),
    {
        let a: u8 = name[i];
        let b: u8 = target[i];
        let la: u8 = if 65 <= a && a <= 90 { a + 32 } else { a };
        let lb: u8 = if 65 <= b && b <= 90 { b + 32 } else { b };
        if la != lb {
            return false;
        }
    }
    true
}

/// How the auto clicker clicks the mouse.
#[derive(Clone, Copy, PartialEq, Eq, Debug, Structural)]
pub enum ClickMethod {
    SendInput,
    PostMessage,
}

impl Default for ClickMethod {
    fn default() -> (m: ClickMethod)
        ensures
            m == ClickMethod::SendInput,
    {
        ClickMethod::SendInput
    }
}

impl ClickMethod {
    /// The name of the method (`Display`).
    pub fn to_string(&self) -> (s: String)
        ensures
            s@ == (match *self {
                ClickMethod::SendInput => "SendInput"@,
                ClickMethod::PostMessage => "PostMessage"@,
            }),
    {
        match self {
            ClickMethod::SendInput => "SendInput".to_owned(),
            ClickMethod::PostMessage => "PostMessage".to_owned(),
        }
    }
}

/// Whether the auto clicker clicks the mouse or taps a key.
#[derive(Clone, Copy, PartialEq, Eq, Debug, Structural)]
pub enum AutoClickerMode {
    Mouse,
    Keyboard,
}

impl Default for AutoClickerMode {
    fn default() -> (m: AutoClickerMode)
        ensures
            m == AutoClickerMode::Mouse,
    {
        AutoClickerMode::Mouse
    }
}

impl AutoClickerMode {
    /// The name of the mode (`Display`).
    pub fn to_string(&self) -> (s: String)
        ensures
            s@ == (match *self {
                AutoClickerMode::Mouse => "Mouse"@,
                AutoClickerMode::Keyboard => "Keyboard"@,
            }),
    {
        match self {
            AutoClickerMode::Mouse => "Mouse".to_owned(),
            AutoClickerMode::Keyboard => "Keyboard".to_owned(),
        }
    }
}

/// The settings as the configuration file stores them.
pub struct SerializableConfig {
    pub monitor_id: String,
    pub features: Vec<SerializableFeature>,
    pub auto_clicker_delay: u32,
    pub auto_clicker_method: ClickMethod,
    pub auto_clicker_click_count: u32,
    pub auto_clicker_mode: AutoClickerMode,
    pub auto_clicker_key: ConfigKey,
    pub position_x: i32,
    pub position_y: i32,
    pub tips_skip_y_offset: i32,
    pub restart_y_offset: i32,
    pub hacking_y_offset: i32,
    pub hacking2_y_offset: i32,
    pub hacking_esc_y_offset: i32,
    pub gun_tool_digit: u32,
    pub double_click_button: DoubleClickButton,
}

/// The double-click button of a configuration that names none.
pub fn default_double_click_button() -> (b: DoubleClickButton)
    ensures
        b == DoubleClickButton::Left,
{
    DoubleClickButton::Left
}

/// The Tips Skip height of a configuration that names none.
pub fn default_tips_skip_y() -> (y: i32)
    ensures
        y == 830,
{
    830
}

/// The Restart height of a configuration that names none.
pub fn default_restart_y() -> (y: i32)
    ensures
        y == 486,
{
    486
}

/// The hacking (click) offset of a configuration that names none.
pub fn default_hacking_y() -> (y: i32)
    ensures
        y == -140,
{
    -140
}

/// The hacking (jump) offset of a configuration that names none.
pub fn default_hacking2_y() -> (y: i32)
    ensures
        y == -140,
{
    -140
}

/// The hacking (escape) offset of a configuration that names none.
pub fn default_hacking_esc_y() -> (y: i32)
    ensures
        y == -140,
{
    -140
}

/// The clicks per trigger of a configuration that names none.
pub fn default_auto_clicker_click_count() -> (n: u32)
    ensures
        n == 1,
{
    1
}

/// The Gangsta Grip digit of a configuration that names none.
pub fn default_gun_tool_digit() -> (d: u32)
    ensures
        d == 1,
{
    1
}

/// The auto clicker mode of a configuration that names none.
pub fn default_auto_clicker_mode() -> (m: AutoClickerMode)
    ensures
        m == AutoClickerMode::Mouse,
{
    AutoClickerMode::Mouse
}

/// The key the auto clicker taps in a configuration that names none.
pub fn default_auto_clicker_key() -> (k: ConfigKey)
    ensures
        k == ConfigKey::KeyE,
{
    ConfigKey::KeyE
}

/// Everything the tool holds: its features and their bindings, and the settings.
pub struct AppState {
    pub features: Vec<Feature>,
    pub monitor_id: String,
    pub x_offset: i32,
    pub y_offset: i32,
    pub width: i32,
    pub height: i32,
    pub shift_held: bool,
    pub auto_clicker_delay: u32,
    pub auto_clicker_method: ClickMethod,
    pub auto_clicker_click_count: u32,
    pub auto_clicker_mode: AutoClickerMode,
    pub auto_clicker_key: ConfigKey,
    pub position_x: i32,
    pub position_y: i32,
    pub tips_skip_y_offset: i32,
    pub restart_y_offset: i32,
    pub hacking_y_offset: i32,
    pub hacking2_y_offset: i32,
    pub hacking_esc_y_offset: i32,
    pub gun_tool_digit: u32,
    pub dev_mode: bool,
    pub presets: Vec<String>,
    pub selected_preset: String,
    pub preset_name_input: String,
    pub double_click_button: DoubleClickButton,
}

/// How many features the tool has.
pub const FEATURE_COUNT: usize = 16;

/// The feature in row `i` of the tool's list.
pub open spec fn default_feature_id(i: int) -> FeatureId {
    if i == 0 {
        FeatureId::HackingClickMtd
    } else if i == 1 {
        FeatureId::HackingJumpMtd
    } else if i == 2 {
        FeatureId::HackingEscMtd
    } else if i == 3 {
        FeatureId::TipsSkip
    } else if i == 4 {
        FeatureId::Restart
    } else if i == 5 {
        FeatureId::NoFallDamage
    } else if i == 6 {
        FeatureId::ShiftToggle
    } else if i == 7 {
        FeatureId::AutoClicker
    } else if i == 8 {
        FeatureId::KeepItemClicker
    } else if i == 9 {
        FeatureId::DoubleClick
    } else if i == 10 {
        FeatureId::FastLoadout
    } else if i == 11 {
        FeatureId::Bhop
    } else if i == 12 {
        FeatureId::HoldItemBug
    } else if i == 13 {
        FeatureId::GangstaGrip
    } else if i == 14 {
        FeatureId::QuickExit
    } else {
        FeatureId::ToggleAllMacros
    }
}

/// The name shown in row `i` of the tool's list.
pub open spec fn default_feature_name(i: int) -> Seq<char> {
    if i == 0 {
        "Hacking Device (Click mtd)"@
    } else if i == 1 {
        "Hacking Device (Jump mtd)"@
    } else if i == 2 {
        "Hacking Device (Esc mtd)"@
    } else if i == 3 {
        "Tips Skip"@
    } else if i == 4 {
        "Restart"@
    } else if i == 5 {
        "No Fall Damage"@
    } else if i == 6 {
        "Shift Toggle"@
    } else if i == 7 {
        "Auto Clicker"@
    } else if i == 8 {
        "Keep Item Clicker"@
    } else if i == 9 {
        "Double Click"@
    } else if i == 10 {
        "Fast Loadout"@
    } else if i == 11 {
        "Bhop"@
    } else if i == 12 {
        "Hold Item Bug"@
    } else if i == 13 {
        "Gangsta Grip"@
    } else if i == 14 {
        "Quick Exit"@
    } else {
        "Toggle All Macros"@
    }
}

/// The features in the list: each row's feature and name, unbound and switched off.
pub open spec fn is_default_feature_list(fs: Seq<Feature>) -> bool {
    &&& fs.len() == FEATURE_COUNT
    &&& forall|i: int|
        0 <= i < FEATURE_COUNT ==> {
            &&& #[trigger] fs[i].id == default_feature_id(i)
            &&& fs[i].name@ == default_feature_name(i)
            &&& fs[i].bind_key is None
            &&& !fs[i].enabled
            &&& !fs[i].selecting
        }
}

/// No two features share an identity.
pub open spec fn distinct_feature_ids(fs: Seq<Feature>) -> bool {
    forall|i: int, j: int| 0 <= i < fs.len() && 0 <= j < fs.len() && i != j ==> fs[i].id != fs[j].id
}

/// The list of features has each feature once.
pub proof fn lemma_default_feature_ids_distinct(fs: Seq<Feature>)
    requires
        is_default_feature_list(fs),
    ensures
        distinct_feature_ids(fs),
{
    assert forall|i: int, j: int|
        0 <= i < fs.len() && 0 <= j < fs.len() && i != j implies fs[i].id != fs[j].id by {
        assert(fs[i].id == default_feature_id(i));
        assert(fs[j].id == default_feature_id(j));
    }
}

/// An unbound, switched-off feature.
fn new_feature(id: FeatureId, name: &str) -> (f: Feature)
    ensures
        f.id == id,
        f.name@ == name@,
        f.bind_key is None,
        !f.enabled,
        !f.selecting,
{
    Feature { id, name: name.to_owned(), bind_key: None, enabled: false, selecting: false }
}

/// The list of features of a fresh tool.
pub fn default_features() -> (fs: Vec<Feature>)
    ensures
        is_default_feature_list(fs@),
{
    let mut fs: Vec<Feature> = Vec::new();
    fs.push(new_feature(FeatureId::HackingClickMtd, "Hacking Device (Click mtd)"));
    fs.push(new_feature(FeatureId::HackingJumpMtd, "Hacking Device (Jump mtd)"));
    fs.push(new_feature(FeatureId::HackingEscMtd, "Hacking Device (Esc mtd)"));
    fs.push(new_feature(FeatureId::TipsSkip, "Tips Skip"));
    fs.push(new_feature(FeatureId::Restart, "Restart"));
    fs.push(new_feature(FeatureId::NoFallDamage, "No Fall Damage"));
    fs.push(new_feature(FeatureId::ShiftToggle, "Shift Toggle"));
    fs.push(new_feature(FeatureId::AutoClicker, "Auto Clicker"));
    fs.push(new_feature(FeatureId::KeepItemClicker, "Keep Item Clicker"));
    fs.push(new_feature(FeatureId::DoubleClick, "Double Click"));
    fs.push(new_feature(FeatureId::FastLoadout, "Fast Loadout"));
    fs.push(new_feature(FeatureId::Bhop, "Bhop"));
    fs.push(new_feature(FeatureId::HoldItemBug, "Hold Item Bug"));
    fs.push(new_feature(FeatureId::GangstaGrip, "Gangsta Grip"));
    fs.push(new_feature(FeatureId::QuickExit, "Quick Exit"));
    fs.push(new_feature(FeatureId::ToggleAllMacros, "Toggle All Macros"));
    assert forall|i: int| 0 <= i < FEATURE_COUNT implies #[trigger] fs@[i].id == default_feature_id(i) && fs@[i].name@ == default_feature_name(i) && fs@[i].bind_key is None && !fs@[i].enabled && !fs@[i].selecting by {
    }
    fs
}


impl AppState {
    /// The settings are those of a fresh tool (the ones that "Default" restores).
    pub open spec fn settings_are_defaults(&self) -> bool {
        &&& self.auto_clicker_delay == 6
        &&& self.auto_clicker_method == ClickMethod::SendInput
        &&& self.auto_clicker_click_count == 1
        &&& self.auto_clicker_mode == AutoClickerMode::Mouse
        &&& self.auto_clicker_key == ConfigKey::KeyE
        &&& self.position_x == 0
        &&& self.position_y == 0
        &&& self.tips_skip_y_offset == 830
        &&& self.restart_y_offset == 486
        &&& self.hacking_y_offset == -140
        &&& self.hacking2_y_offset == -140
        &&& self.gun_tool_digit == 1
        &&& !self.dev_mode
        &&& self.selected_preset@ == Seq::<char>::empty()
        &&& self.preset_name_input@ == Seq::<char>::empty()
        &&& self.monitor_id@ == "1"@
        &&& self.double_click_button == DoubleClickButton::Left
    }

    /// A fresh tool: every feature unbound and off, default settings, no monitor
    /// placement and no presets known yet.
    pub fn new() -> (s: AppState)
        ensures
            is_default_feature_list(s.features@),
            s.settings_are_defaults(),
            s.hacking_esc_y_offset == -140,
            s.x_offset == 0 && s.y_offset == 0 && s.width == 0 && s.height == 0,
            !s.shift_held,
            s.presets@.len() == 0,
    {
        AppState {
            features: default_features(),
            monitor_id: "1".to_owned(),
            x_offset: 0,
            y_offset: 0,
            width: 0,
            height: 0,
            shift_held: false,
            auto_clicker_delay: 6,
            auto_clicker_method: ClickMethod::SendInput,
            auto_clicker_click_count: 1,
            auto_clicker_mode: AutoClickerMode::Mouse,
            auto_clicker_key: ConfigKey::KeyE,
            position_x: 0,
            position_y: 0,
            tips_skip_y_offset: 830,
            restart_y_offset: 486,
            hacking_y_offset: -140,
            hacking2_y_offset: -140,
            hacking_esc_y_offset: -140,
            gun_tool_digit: 1,
            dev_mode: false,
            presets: Vec::new(),
            selected_preset: String::new(),
            preset_name_input: String::new(),
            double_click_button: DoubleClickButton::Left,
        }
    }

    /// Puts the settings back to their defaults. The features, the Esc-method
    /// offset, the monitor placement, the shift toggle and the preset list stay.
    pub fn reset_to_defaults(&mut self)
        ensures
            final(self).settings_are_defaults(),
            final(self).features == old(self).features,
            final(self).hacking_esc_y_offset == old(self).hacking_esc_y_offset,
            final(self).x_offset == old(self).x_offset,
            final(self).y_offset == old(self).y_offset,
            final(self).width == old(self).width,
            final(self).height == old(self).height,
            final(self).shift_held == old(self).shift_held,
            final(self).presets == old(self).presets,
    {
        self.auto_clicker_delay = 6;
        self.auto_clicker_method = ClickMethod::SendInput;
        self.auto_clicker_click_count = 1;
        self.auto_clicker_mode = AutoClickerMode::Mouse;
        self.auto_clicker_key = ConfigKey::KeyE;
        self.position_x = 0;
        self.position_y = 0;
        self.tips_skip_y_offset = 830;
        self.restart_y_offset = 486;
        self.hacking_y_offset = -140;
        self.hacking2_y_offset = -140;
        self.gun_tool_digit = 1;
        self.dev_mode = false;
        self.selected_preset = String::new();
        self.preset_name_input = String::new();
        self.monitor_id = "1".to_owned();
        self.double_click_button = DoubleClickButton::Left;
    }

    /// Flips the shift toggle; gives whether shift should now be held.
    pub fn toggle_shift(&mut self) -> (held: bool)
        ensures
            held == !old(self).shift_held,
            final(self).shift_held == held,
            final(self).features == old(self).features,
    {
        self.shift_held = !self.shift_held;
        self.shift_held
    }

    /// Lets go of shift if the toggle holds it; gives whether shift has to be released.
    pub fn release_shift(&mut self) -> (release: bool)
        ensures
            release == old(self).shift_held,
            !final(self).shift_held,
            final(self).features == old(self).features,
    {
        if self.shift_held {
            self.shift_held = false;
            true
        } else {
            false
        }
    }
}

/// How a feature is stored: its identity, the text of its binding, whether it is on.
pub open spec fn stores_feature(sf: SerializableFeature, f: Feature) -> bool {
    &&& sf.id == f.id
    &&& sf.enabled == f.enabled
    &&& match f.bind_key {
        Some(b) => sf.bind_key is Some && sf.bind_key->0@ == bind_key_label(b),
        None => sf.bind_key is None,
    }
}

/// `c` is what saving `s` writes.
pub open spec fn saves_as(s: AppState, c: SerializableConfig) -> bool {
    &&& c.monitor_id@ == s.monitor_id@
    &&& c.features@.len() == s.features@.len()
    &&& forall|i: int| 0 <= i < c.features@.len() ==> stores_feature(#[trigger] c.features@[i], s.features@[i])
    &&& c.auto_clicker_delay == s.auto_clicker_delay
    &&& c.auto_clicker_method == s.auto_clicker_method
    &&& c.auto_clicker_click_count == s.auto_clicker_click_count
    &&& c.auto_clicker_mode == s.auto_clicker_mode
    &&& c.auto_clicker_key == s.auto_clicker_key
    &&& c.position_x == s.position_x
    &&& c.position_y == s.position_y
    &&& c.tips_skip_y_offset == s.tips_skip_y_offset
    &&& c.restart_y_offset == s.restart_y_offset
    &&& c.hacking_y_offset == s.hacking_y_offset
    &&& c.hacking2_y_offset == s.hacking2_y_offset
    &&& c.hacking_esc_y_offset == s.hacking_esc_y_offset
    &&& c.gun_tool_digit == s.gun_tool_digit
    &&& c.double_click_button == s.double_click_button
}

/// The stored form of one feature.
fn store_feature(f: &Feature) -> (sf: SerializableFeature)
    ensures
        stores_feature(sf, *f),
{
    SerializableFeature {
        id: f.id,
        bind_key: match &f.bind_key {
            Some(b) => Some(b.to_string()),
            None => None,
        },
        enabled: f.enabled,
    }
}

impl AppState {
    /// What saving the settings writes (the file itself is written by the caller).
    pub fn save_config(&self) -> (c: SerializableConfig)
        ensures
            saves_as(*self, c),
    {
        let mut features: Vec<SerializableFeature> = Vec::new();
        let n: usize = self.features.len();
        for i in 0..n
            invariant
                n == self.features@.len(),
                features@.len() == i,
                forall|j: int| 0 <= j < i ==> stores_feature(#[trigger] features@[j], self.features@[j]),
        {
            features.push(store_feature(&self.features[i]));
        }
        SerializableConfig {
            monitor_id: self.monitor_id.clone(),
            features,
            auto_clicker_delay: self.auto_clicker_delay,
            auto_clicker_method: self.auto_clicker_method,
            auto_clicker_click_count: self.auto_clicker_click_count,
            auto_clicker_mode: self.auto_clicker_mode,
            auto_clicker_key: self.auto_clicker_key,
            position_x: self.position_x,
            position_y: self.position_y,
            tips_skip_y_offset: self.tips_skip_y_offset,
            restart_y_offset: self.restart_y_offset,
            hacking_y_offset: self.hacking_y_offset,
            hacking2_y_offset: self.hacking2_y_offset,
            hacking_esc_y_offset: self.hacking_esc_y_offset,
            gun_tool_digit: self.gun_tool_digit,
            double_click_button: self.double_click_button,
        }
    }
}

/// `k` is the first feature with identity `id`.
pub open spec fn is_first_with_id(fs: Seq<Feature>, id: FeatureId, k: int) -> bool {
    &&& 0 <= k < fs.len()
    &&& fs[k].id == id
    &&& forall|j: int| 0 <= j < k ==> fs[j].id != id
}

/// There is only one first feature with an identity.
pub proof fn lemma_first_with_id_unique(fs: Seq<Feature>, id: FeatureId, a: int, b: int)
    requires
        is_first_with_id(fs, id, a),
        is_first_with_id(fs, id, b),
    ensures
        a == b,
{
    if a < b {
        assert(fs[a].id == id);
    } else if b < a {
        assert(fs[b].id == id);
    }
}

/// The binding a stored text stands for; none when there is no text or it names nothing.
pub open spec fn stored_binding(t: Option<String>) -> Option<BindKey> {
    match t {
        Some(s) => bind_key_of_text(s@),
        None => None,
    }
}

/// Loading one stored feature: the first feature with its identity takes its binding
/// and its on/off state; when no feature has that identity, nothing changes.
pub open spec fn load_entry(fs: Seq<Feature>, sf: SerializableFeature) -> Seq<Feature> {
    if exists|k: int| is_first_with_id(fs, sf.id, k) {
        let k = choose|k: int| is_first_with_id(fs, sf.id, k);
        fs.update(
            k,
            Feature {
                id: fs[k].id,
                name: fs[k].name,
                bind_key: stored_binding(sf.bind_key),
                enabled: sf.enabled,
                selecting: fs[k].selecting,
            },
        )
    } else {
        fs
    }
}

/// Loading stored features one after the other.
pub open spec fn load_entries(fs: Seq<Feature>, entries: Seq<SerializableFeature>) -> Seq<Feature>
    decreases entries.len(),
{
    if entries.len() == 0 {
        fs
    } else {
        load_entry(load_entries(fs, entries.drop_last()), entries.last())
    }
}

/// `u32::clamp(d, 1, 3)`.
pub open spec fn clamp_digit(d: u32) -> u32 {
    if d < 1 {
        1
    } else if d > 3 {
        3
    } else {
        d
    }
}

/// `new` is `old` after loading configuration `c`.
pub open spec fn loads_as(old: AppState, c: SerializableConfig, new: AppState) -> bool {
    &&& new.features@ == load_entries(old.features@, c.features@)
    &&& new.monitor_id@ == c.monitor_id@
    &&& new.auto_clicker_delay == c.auto_clicker_delay
    &&& new.auto_clicker_method == c.auto_clicker_method
    &&& new.auto_clicker_click_count == c.auto_clicker_click_count
    &&& new.auto_clicker_mode == c.auto_clicker_mode
    &&& new.auto_clicker_key == c.auto_clicker_key
    &&& new.position_x == c.position_x
    &&& new.position_y == c.position_y
    &&& new.tips_skip_y_offset == c.tips_skip_y_offset
    &&& new.restart_y_offset == c.restart_y_offset
    &&& new.hacking_y_offset == c.hacking_y_offset
    &&& new.hacking2_y_offset == c.hacking2_y_offset
    &&& new.hacking_esc_y_offset == c.hacking_esc_y_offset
    &&& new.gun_tool_digit == clamp_digit(c.gun_tool_digit)
    &&& new.double_click_button == c.double_click_button
    &&& new.x_offset == old.x_offset
    &&& new.y_offset == old.y_offset
    &&& new.width == old.width
    &&& new.height == old.height
    &&& new.shift_held == old.shift_held
    &&& new.dev_mode == old.dev_mode
    &&& new.presets == old.presets
    &&& new.selected_preset == old.selected_preset
    &&& new.preset_name_input == old.preset_name_input
}

/// The position of the first feature with identity `id`.
fn first_feature_with_id(fs: &Vec<Feature>, id: FeatureId) -> (r: Option<usize>)
    ensures
        match r {
            Some(k) => is_first_with_id(fs@, id, k as int),
            None => forall|k: int| 0 <= k < fs@.len() ==> fs@[k].id != id,
        },
{
    let n: usize = fs.len();
    for i in 0..n
        invariant
            n == fs@.len(),
            forall|j: int| 0 <= j < i ==> fs@[j].id != id,
    {
        if fs[i].id == id {
            return Some(i);
        }
    }
    None
}

impl AppState {
    /// Takes over a configuration read from the file (the reading is the caller's):
    /// the stored features in turn, then every setting, with the Gangsta Grip digit
    /// kept between 1 and 3.
    pub fn load_config(&mut self, config: SerializableConfig)
        ensures
            loads_as(*old(self), config, *final(self)),
    {
        let ghost start = self.features@;
        let n: usize = config.features.len();
        for i in 0..n
            invariant
                n == config.features@.len(),
                self.features@ == load_entries(start, config.features@.take(i as int)),
                self.monitor_id == old(self).monitor_id,
                self.x_offset == old(self).x_offset,
                self.y_offset == old(self).y_offset,
                self.width == old(self).width,
                self.height == old(self).height,
                self.shift_held == old(self).shift_held,
                self.dev_mode == old(self).dev_mode,
                self.presets == old(self).presets,
                self.selected_preset == old(self).selected_preset,
                self.preset_name_input == old(self).preset_name_input,
        {
            let sf = &config.features[i];
            let ghost before = self.features@;
            assert(config.features@.take(i + 1).drop_last() == config.features@.take(i as int));
            assert(config.features@.take(i + 1).last() == config.features@[i as int]);
            match first_feature_with_id(&self.features, sf.id) {
                Some(k) => {
                    let bind = match &sf.bind_key {
                        Some(t) => BindKey::from_string(t.as_str()),
                        None => None,
                    };
                    let f = &self.features[k];
                    let updated = Feature {
                        id: f.id,
                        name: f.name.clone(),
                        bind_key: bind,
                        enabled: sf.enabled,
                        selecting: f.selecting,
                    };
                    self.features.set(k, updated);
                    proof {
                        let c = choose|c: int| is_first_with_id(before, sf.id, c);
                        lemma_first_with_id_unique(before, sf.id, c, k as int);
                    }
                },
                None => {},
            }
        }
        assert(config.features@.take(n as int) == config.features@);
        self.monitor_id = config.monitor_id;
        self.auto_clicker_delay = config.auto_clicker_delay;
        self.auto_clicker_method = config.auto_clicker_method;
        self.auto_clicker_click_count = config.auto_clicker_click_count;
        self.auto_clicker_mode = config.auto_clicker_mode;
        self.auto_clicker_key = config.auto_clicker_key;
        self.position_x = config.position_x;
        self.position_y = config.position_y;
        self.tips_skip_y_offset = config.tips_skip_y_offset;
        self.restart_y_offset = config.restart_y_offset;
        self.hacking_y_offset = config.hacking_y_offset;
        self.hacking2_y_offset = config.hacking2_y_offset;
        self.hacking_esc_y_offset = config.hacking_esc_y_offset;
        self.gun_tool_digit = if config.gun_tool_digit < 1 {
            1
        } else if config.gun_tool_digit > 3 {
            3
        } else {
            config.gun_tool_digit
        };
        self.double_click_button = config.double_click_button;
    }
}


/// Two lists hold features of the same identities in the same order.
pub open spec fn same_feature_ids(a: Seq<Feature>, b: Seq<Feature>) -> bool {
    &&& a.len() == b.len()
    &&& forall|i: int| 0 <= i < a.len() ==> #[trigger] a[i].id == b[i].id
}

/// Feature `r` is feature `t` with the binding and on/off state of feature `s`.
pub open spec fn takes_stored_state(r: Feature, t: Feature, s: Feature) -> bool {
    r == Feature {
        id: t.id,
        name: t.name,
        bind_key: s.bind_key,
        enabled: s.enabled,
        selecting: t.selecting,
    }
}

proof fn lemma_load_saved_prefix(
    t: Seq<Feature>,
    s: Seq<Feature>,
    saved: Seq<SerializableFeature>,
    m: int,
)
    requires
        same_feature_ids(t, s),
        distinct_feature_ids(s),
        saved.len() == s.len(),
        forall|i: int| 0 <= i < saved.len() ==> stores_feature(#[trigger] saved[i], s[i]),
        0 <= m <= saved.len(),
    ensures
        load_entries(t, saved.take(m)).len() == t.len(),
        forall|i: int|
            0 <= i < m ==> takes_stored_state(#[trigger] load_entries(t, saved.take(m))[i], t[i], s[i]),
        forall|i: int| m <= i < t.len() ==> #[trigger] load_entries(t, saved.take(m))[i] == t[i],
    decreases m,
{
    if m > 0 {
        lemma_load_saved_prefix(t, s, saved, m - 1);
        let prev = load_entries(t, saved.take(m - 1));
        assert(saved.take(m).drop_last() == saved.take(m - 1));
        assert(saved.take(m).last() == saved[m - 1]);
        let sf = saved[m - 1];
        assert(stores_feature(sf, s[m - 1]));
        assert(prev[m - 1] == t[m - 1]);
        assert forall|j: int| 0 <= j < m - 1 implies prev[j].id != sf.id by {
            assert(takes_stored_state(prev[j], t[j], s[j]));
            assert(t[j].id == s[j].id);
        }
        assert(is_first_with_id(prev, sf.id, m - 1));
        let k = choose|k: int| is_first_with_id(prev, sf.id, k);
        lemma_first_with_id_unique(prev, sf.id, k, m - 1);
        match s[m - 1].bind_key {
            Some(b) => {
                lemma_bind_key_round_trip(b);
            },
            None => {},
        }
        assert(stored_binding(sf.bind_key) == s[m - 1].bind_key);
    }
}

/// Saving the settings and loading them back, into the same tool or into a fresh one
/// with the same features, gives every feature its saved binding and on/off state and
/// brings back every saved setting. (The Gangsta Grip digit comes back when it is
/// between 1 and 3, the range the tool keeps it in.)
pub proof fn lemma_save_then_load(s: AppState, c: SerializableConfig, t: AppState, u: AppState)
    requires
        saves_as(s, c),
        loads_as(t, c, u),
        same_feature_ids(t.features@, s.features@),
        distinct_feature_ids(s.features@),
        1 <= s.gun_tool_digit <= 3,
    ensures
        u.features@.len() == t.features@.len(),
        forall|i: int|
            0 <= i < u.features@.len() ==> takes_stored_state(
                #[trigger] u.features@[i],
                t.features@[i],
                s.features@[i],
            ),
        u.monitor_id@ == s.monitor_id@,
        u.auto_clicker_delay == s.auto_clicker_delay,
        u.auto_clicker_method == s.auto_clicker_method,
        u.auto_clicker_click_count == s.auto_clicker_click_count,
        u.auto_clicker_mode == s.auto_clicker_mode,
        u.auto_clicker_key == s.auto_clicker_key,
        u.position_x == s.position_x,
        u.position_y == s.position_y,
        u.tips_skip_y_offset == s.tips_skip_y_offset,
        u.restart_y_offset == s.restart_y_offset,
        u.hacking_y_offset == s.hacking_y_offset,
        u.hacking2_y_offset == s.hacking2_y_offset,
        u.hacking_esc_y_offset == s.hacking_esc_y_offset,
        u.gun_tool_digit == s.gun_tool_digit,
        u.double_click_button == s.double_click_button,
{
    let saved = c.features@;
    lemma_load_saved_prefix(t.features@, s.features@, saved, saved.len() as int);
    assert(saved.take(saved.len() as int) == saved);
}


/// Saving writes every setting to the field of the same name, and every feature, in
/// order, with its identity, its on/off state and the text of its binding (none when it
/// is unbound).
pub proof fn lemma_save_writes_each_field(s: AppState, c: SerializableConfig)
    requires
        saves_as(s, c),
    ensures
        c.monitor_id@ == s.monitor_id@,
        c.auto_clicker_delay == s.auto_clicker_delay,
        c.auto_clicker_method == s.auto_clicker_method,
        c.auto_clicker_click_count == s.auto_clicker_click_count,
        c.auto_clicker_mode == s.auto_clicker_mode,
        c.auto_clicker_key == s.auto_clicker_key,
        c.position_x == s.position_x,
        c.position_y == s.position_y,
        c.tips_skip_y_offset == s.tips_skip_y_offset,
        c.restart_y_offset == s.restart_y_offset,
        c.hacking_y_offset == s.hacking_y_offset,
        c.hacking2_y_offset == s.hacking2_y_offset,
        c.hacking_esc_y_offset == s.hacking_esc_y_offset,
        c.gun_tool_digit == s.gun_tool_digit,
        c.double_click_button == s.double_click_button,
        c.features@.len() == s.features@.len(),
        forall|i: int|
            0 <= i < c.features@.len() ==> {
                &&& (#[trigger] c.features@[i]).id == s.features@[i].id
                &&& c.features@[i].enabled == s.features@[i].enabled
                &&& (s.features@[i].bind_key is None <==> c.features@[i].bind_key is None)
                &&& (s.features@[i].bind_key matches Some(b) ==> c.features@[i].bind_key->0@ == bind_key_label(b))
            },
{
    assert forall|i: int| 0 <= i < c.features@.len() implies {
        &&& (#[trigger] c.features@[i]).id == s.features@[i].id
        &&& c.features@[i].enabled == s.features@[i].enabled
        &&& (s.features@[i].bind_key is None <==> c.features@[i].bind_key is None)
        &&& (s.features@[i].bind_key matches Some(b) ==> c.features@[i].bind_key->0@ == bind_key_label(b))
    } by {
        assert(stores_feature(c.features@[i], s.features@[i]));
    }
}

/// Loading takes every setting from the configuration field of the same name (the
/// Gangsta Grip digit as it is when it lies between 1 and 3, else the nearer of the two),
/// and keeps the placement, the shift toggle, the developer mode and the preset fields.
pub proof fn lemma_load_takes_each_field(old: AppState, c: SerializableConfig, new: AppState)
    requires
        loads_as(old, c, new),
    ensures
        new.monitor_id@ == c.monitor_id@,
        new.auto_clicker_delay == c.auto_clicker_delay,
        new.auto_clicker_method == c.auto_clicker_method,
        new.auto_clicker_click_count == c.auto_clicker_click_count,
        new.auto_clicker_mode == c.auto_clicker_mode,
        new.auto_clicker_key == c.auto_clicker_key,
        new.position_x == c.position_x,
        new.position_y == c.position_y,
        new.tips_skip_y_offset == c.tips_skip_y_offset,
        new.restart_y_offset == c.restart_y_offset,
        new.hacking_y_offset == c.hacking_y_offset,
        new.hacking2_y_offset == c.hacking2_y_offset,
        new.hacking_esc_y_offset == c.hacking_esc_y_offset,
        1 <= c.gun_tool_digit <= 3 ==> new.gun_tool_digit == c.gun_tool_digit,
        c.gun_tool_digit < 1 ==> new.gun_tool_digit == 1,
        c.gun_tool_digit > 3 ==> new.gun_tool_digit == 3,
        new.double_click_button == c.double_click_button,
        new.x_offset == old.x_offset && new.y_offset == old.y_offset,
        new.width == old.width && new.height == old.height,
        new.shift_held == old.shift_held && new.dev_mode == old.dev_mode,
        new.presets == old.presets && new.selected_preset == old.selected_preset,
        new.preset_name_input == old.preset_name_input,
{
}

/// Loading a single stored feature changes only the first feature with its identity,
/// giving it the stored on/off state and the binding its text names (none when the text
/// is missing or names nothing); the identity, name and picking state stay.
pub proof fn lemma_load_entry_updates_its_feature(fs: Seq<Feature>, sf: SerializableFeature, k: int)
    requires
        is_first_with_id(fs, sf.id, k),
    ensures
        load_entry(fs, sf).len() == fs.len(),
        load_entry(fs, sf)[k].id == fs[k].id,
        load_entry(fs, sf)[k].name == fs[k].name,
        load_entry(fs, sf)[k].selecting == fs[k].selecting,
        load_entry(fs, sf)[k].enabled == sf.enabled,
        load_entry(fs, sf)[k].bind_key == (match sf.bind_key {
            Some(t) => bind_key_of_text(t@),
            None => None,
        }),
        forall|j: int| 0 <= j < fs.len() && j != k ==> #[trigger] load_entry(fs, sf)[j] == fs[j],
{
    let c = choose|c: int| is_first_with_id(fs, sf.id, c);
    lemma_first_with_id_unique(fs, sf.id, c, k);
}

/// The preset a file holds: a file `NAME.json` (with `NAME` not empty) holds preset `NAME`.
pub open spec fn preset_stem(file_name: Seq<char>) -> Option<Seq<char>> {
    if file_name.len() > 5 && file_name.skip(file_name.len() - 5) == seq!['.', 'j', 's', 'o', 'n'] {
        Some(file_name.take(file_name.len() - 5))
    } else {
        None
    }
}

/// The presets that a list of files holds, in the order of the files.
pub open spec fn preset_names(file_names: Seq<Seq<char>>) -> Seq<Seq<char>>
    decreases file_names.len(),
{
    if file_names.len() == 0 {
        Seq::empty()
    } else {
        let rest = preset_names(file_names.drop_last());
        match preset_stem(file_names.last()) {
            Some(stem) => rest.push(stem),
            None => rest,
        }
    }
}

/// The preset a file holds, if any.
fn preset_stem_of(name: &str) -> (r: Option<String>)
    ensures
        match r {
            Some(t) => preset_stem(name@) == Some(t@),
            None => preset_stem(name@) is None,
        },
{
    let cs = chars_of(name);
    let n: usize = cs.len();
    if n > 5 && cs[n - 5] == '.' && cs[n - 4] == 'j' && cs[n - 3] == 's' && cs[n - 2] == 'o' && cs[n
        - 1] == 'n' {
        assert(cs@.skip(n - 5) =~= seq!['.', 'j', 's', 'o', 'n']);
        let mut stem: Vec<char> = Vec::new();
        for i in 0..n - 5
            invariant
                n == cs@.len(),
                n > 5,
                stem@ == cs@.take(i as int),
        {
            stem.push(cs[i]);
            assert(cs@.take(i + 1) == cs@.take(i as int).push(cs@[i as int]));
        }
        Some(string_from_chars(stem.as_slice()))
    } else {
        proof {
            if n > 5 && cs@.skip(n - 5) == seq!['.', 'j', 's', 'o', 'n'] {
                assert(cs@[n - 5] == cs@.skip(n - 5)[0]);
                assert(cs@[n - 4] == cs@.skip(n - 5)[1]);
                assert(cs@[n - 3] == cs@.skip(n - 5)[2]);
                assert(cs@[n - 2] == cs@.skip(n - 5)[3]);
                assert(cs@[n - 1] == cs@.skip(n - 5)[4]);
            }
        }
        None
    }
}

/// A monitor's rectangle on the desktop.
#[derive(Clone, Copy, PartialEq, Eq, Debug, Structural)]
pub struct MonitorRect {
    pub left: i32,
    pub top: i32,
    pub right: i32,
    pub bottom: i32,
}

/// The monitor number a setting names: the number it holds, or 1.
pub open spec fn monitor_number(id: Seq<char>) -> i32 {
    match parse_i32_spec(id) {
        Some(n) => n,
        None => 1,
    }
}

/// The position in the list of monitors that a setting picks (numbers start at 1;
/// numbers below 1 pick the first monitor).
pub open spec fn monitor_position(id: Seq<char>) -> int {
    if monitor_number(id) - 1 > 0 {
        monitor_number(id) - 1
    } else {
        0
    }
}

/// A monitor's width and height fit in an `i32`.
pub open spec fn monitor_size_fits(m: MonitorRect) -> bool {
    &&& i32::MIN <= m.right - m.left <= i32::MAX
    &&& i32::MIN <= m.bottom - m.top <= i32::MAX
}

impl AppState {
    /// Lists the presets found among the files of the preset folder (the listing is
    /// the caller's), sorted by their lower-case names. Nothing else changes.
    pub fn refresh_presets(&mut self, file_names: &Vec<String>)
        ensures
            sorted_by_lowercase(preset_names(string_views(file_names@)), string_views(final(self).presets@)),
            *final(self) == (AppState { presets: final(self).presets, ..*old(self) }),
    {
        let mut list: Vec<String> = Vec::new();
        let n: usize = file_names.len();
        for i in 0..n
            invariant
                n == file_names@.len(),
                string_views(list@) == preset_names(string_views(file_names@.take(i as int))),
        {
            let ghost before = file_names@.take(i as int);
            assert(file_names@.take(i + 1).drop_last() == before);
            assert(string_views(file_names@.take(i + 1)).drop_last() == string_views(before));
            match preset_stem_of(file_names[i].as_str()) {
                Some(stem) => {
                    list.push(stem);
                    assert(string_views(list@) =~= preset_names(string_views(before)).push(
                        file_names@[i as int]@.take(file_names@[i as int]@.len() - 5),
                    ));
                },
                None => {},
            }
        }
        assert(file_names@.take(n as int) == file_names@);
        self.presets = sort_by_lowercase(&list);
    }

    /// The position in the list of monitors that the monitor setting picks (see
    /// `monitor_position`).
    pub fn picked_monitor(&self) -> (pos: usize)
        requires
            parse_i32_spec(self.monitor_id@) != Some(i32::MIN),
        ensures
            pos == monitor_position(self.monitor_id@),
    {
        let cs = chars_of(self.monitor_id.as_str());
        let mon_id: i32 = match parse_i32(cs.as_slice()) {
            Some(v) => v,
            None => 1,
        };
        let below: i32 = mon_id - 1;
        if below > 0 {
            below as usize
        } else {
            0
        }
    }

    /// Places the tool on the monitor that the setting picks, when there is such a
    /// monitor in `monitors` (the list is the caller's); otherwise nothing changes.
    /// Only the placement (offsets, width and height) ever changes.
    pub fn update_screen_position(&mut self, monitors: &Vec<MonitorRect>)
        requires
            parse_i32_spec(old(self).monitor_id@) != Some(i32::MIN),
            monitor_position(old(self).monitor_id@) < monitors@.len() ==> monitor_size_fits(
                monitors@[monitor_position(old(self).monitor_id@)],
            ),
        ensures
            ({
                let p = monitor_position(old(self).monitor_id@);
                if p < monitors@.len() {
                    let m = monitors@[p];
                    &&& final(self).x_offset == m.left
                    &&& final(self).y_offset == m.top
                    &&& final(self).width == m.right - m.left
                    &&& final(self).height == m.bottom - m.top
                } else {
                    &&& final(self).x_offset == old(self).x_offset
                    &&& final(self).y_offset == old(self).y_offset
                    &&& final(self).width == old(self).width
                    &&& final(self).height == old(self).height
                }
            }),
            *final(self) == (AppState {
                x_offset: final(self).x_offset,
                y_offset: final(self).y_offset,
                width: final(self).width,
                height: final(self).height,
                ..*old(self)
            }),
    {
        let pos = self.picked_monitor();
        if pos < monitors.len() {
            let m = monitors[pos];
            self.x_offset = m.left;
            self.y_offset = m.top;
            self.width = m.right - m.left;
            self.height = m.bottom - m.top;
        }
    }
}

} // verus!
