use vstd::prelude::*;
use crate::features::{BindKey, ConfigKey, FeatureId};
use crate::state::{AppState, AutoClickerMode, ClickMethod, GlobalInputState};
use crate::worker::{
    message_fits, rdev_key_to_scancode, scancode_of, WorkerMessage, BHOP_TAP_INTERVAL_MS,
    POLL_INTERVAL_MS,
};
use crate::features::Feature;

verus! {

/// Hook code of an input event that the hook is to act on.
pub const HC_ACTION: i32 = 0;
pub const WM_KEYDOWN: u32 = 0x0100;
pub const WM_KEYUP: u32 = 0x0101;
pub const WM_SYSKEYDOWN: u32 = 0x0104;
pub const WM_SYSKEYUP: u32 = 0x0105;
pub const WM_LBUTTONDOWN: u32 = 0x0201;
pub const WM_LBUTTONUP: u32 = 0x0202;
pub const WM_XBUTTONDOWN: u32 = 0x020B;
pub const WM_XBUTTONUP: u32 = 0x020C;
pub const VK_SPACE: u32 = 0x20;
pub const VK_SHIFT: u32 = 0x10;
pub const VK_LSHIFT: u32 = 0xA0;
pub const VK_RSHIFT: u32 = 0xA1;
pub const VK_CONTROL: u32 = 0x11;
pub const VK_LCONTROL: u32 = 0xA2;
pub const VK_RCONTROL: u32 = 0xA3;
pub const VK_MENU: u32 = 0x12;
pub const VK_LMENU: u32 = 0xA4;
pub const VK_RMENU: u32 = 0xA5;
pub const VK_CAPITAL: u32 = 0x14;

/// A key message that presses a key.
pub open spec fn is_key_down_message(msg: u32) -> bool {
    msg == WM_KEYDOWN || msg == WM_SYSKEYDOWN
}

/// A key message that releases a key.
pub open spec fn is_key_up_message(msg: u32) -> bool {
    msg == WM_KEYUP || msg == WM_SYSKEYUP
}

/// A held-key flag after a key message: set on a press, cleared on a release,
/// kept otherwise or when the message is about another key.
pub open spec fn flag_after(flag: bool, concerned: bool, msg: u32) -> bool {
    if concerned && is_key_down_message(msg) {
        true
    } else if concerned && is_key_up_message(msg) {
        false
    } else {
        flag
    }
}

/// The shared state after the keyboard hook sees a key message that the user typed.
pub open spec fn keys_after(g: GlobalInputState, msg: u32, vk: u32) -> GlobalInputState {
    GlobalInputState {
        space_down: flag_after(g.space_down, vk == VK_SPACE, msg),
        shift_down: flag_after(g.shift_down, vk == VK_SHIFT || vk == VK_LSHIFT || vk == VK_RSHIFT, msg),
        ctrl_down: flag_after(g.ctrl_down, vk == VK_CONTROL || vk == VK_LCONTROL || vk == VK_RCONTROL, msg),
        alt_down: flag_after(g.alt_down, vk == VK_MENU || vk == VK_LMENU || vk == VK_RMENU, msg),
        capslock_down: flag_after(g.capslock_down, vk == VK_CAPITAL, msg),
        ..g
    }
}

fn next_flag(flag: bool, concerned: bool, msg: u32) -> (r: bool)
    ensures
        r == flag_after(flag, concerned, msg),
{
    if concerned && (msg == WM_KEYDOWN || msg == WM_SYSKEYDOWN) {
        true
    } else if concerned && (msg == WM_KEYUP || msg == WM_SYSKEYUP) {
        false
    } else {
        flag
    }
}

/// The keyboard hook's bookkeeping: keeps track of which of space, shift, control, alt
/// and caps lock are held. Keys that this program sends itself (`injected`) and hook
/// codes other than `HC_ACTION` are ignored. The message always goes on to the next hook.
pub fn low_level_keyboard_proc(g: &mut GlobalInputState, n_code: i32, msg: u32, vk_code: u32, injected: bool)
    ensures
        *final(g) == (if n_code == HC_ACTION && !injected {
            keys_after(*old(g), msg, vk_code)
        } else {
            *old(g)
        }),
{
    if n_code == HC_ACTION && !injected {
        g.space_down = next_flag(g.space_down, vk_code == VK_SPACE, msg);
        g.shift_down = next_flag(
            g.shift_down,
            vk_code == VK_SHIFT || vk_code == VK_LSHIFT || vk_code == VK_RSHIFT,
            msg,
        );
        g.ctrl_down = next_flag(
            g.ctrl_down,
            vk_code == VK_CONTROL || vk_code == VK_LCONTROL || vk_code == VK_RCONTROL,
            msg,
        );
        g.alt_down = next_flag(g.alt_down, vk_code == VK_MENU || vk_code == VK_LMENU || vk_code == VK_RMENU, msg);
        g.capslock_down = next_flag(g.capslock_down, vk_code == VK_CAPITAL, msg);
    }
}

/// Each held-key flag follows the last press or release of its keys that the user made:
/// a press (`WM_KEYDOWN` or `WM_SYSKEYDOWN`) of one of its keys sets it, a release
/// (`WM_KEYUP` or `WM_SYSKEYUP`) clears it, and a message about another key leaves it;
/// nothing else in the shared state changes.
pub proof fn lemma_key_flags_follow_the_user(g: GlobalInputState, msg: u32, vk: u32)
    ensures
        ({
            let n = keys_after(g, msg, vk);
            let down = msg == 0x0100u32 || msg == 0x0104u32;
            let up = msg == 0x0101u32 || msg == 0x0105u32;
            let shift = vk == 0x10u32 || vk == 0xA0u32 || vk == 0xA1u32;
            let ctrl = vk == 0x11u32 || vk == 0xA2u32 || vk == 0xA3u32;
            let alt = vk == 0x12u32 || vk == 0xA4u32 || vk == 0xA5u32;
            let space = vk == 0x20u32;
            let caps = vk == 0x14u32;
            &&& (shift && down ==> n.shift_down) && (shift && up ==> !n.shift_down) && (!shift ==> n.shift_down
                == g.shift_down)
            &&& (ctrl && down ==> n.ctrl_down) && (ctrl && up ==> !n.ctrl_down) && (!ctrl ==> n.ctrl_down
                == g.ctrl_down)
            &&& (alt && down ==> n.alt_down) && (alt && up ==> !n.alt_down) && (!alt ==> n.alt_down == g.alt_down)
            &&& (space && down ==> n.space_down) && (space && up ==> !n.space_down) && (!space ==> n.space_down
                == g.space_down)
            &&& (caps && down ==> n.capslock_down) && (caps && up ==> !n.capslock_down) && (!caps
                ==> n.capslock_down == g.capslock_down)
            &&& (!down && !up ==> n == g)
            &&& n == (GlobalInputState {
                shift_down: n.shift_down,
                ctrl_down: n.ctrl_down,
                alt_down: n.alt_down,
                space_down: n.space_down,
                capslock_down: n.capslock_down,
                ..g
            })
        }),
{
}

/// A press and then a release of the same key, both made by the user, leave every flag
/// of that key cleared and every other flag as it was.
pub proof fn lemma_press_then_release_clears(g: GlobalInputState, vk: u32)
    ensures
        ({
            let n = keys_after(keys_after(g, 0x0100u32, vk), 0x0101u32, vk);
            &&& n.shift_down == (g.shift_down && !(vk == 0x10u32 || vk == 0xA0u32 || vk == 0xA1u32))
            &&& n.ctrl_down == (g.ctrl_down && !(vk == 0x11u32 || vk == 0xA2u32 || vk == 0xA3u32))
            &&& n.alt_down == (g.alt_down && !(vk == 0x12u32 || vk == 0xA4u32 || vk == 0xA5u32))
            &&& n.space_down == (g.space_down && vk != 0x20u32)
            &&& n.capslock_down == (g.capslock_down && vk != 0x14u32)
        }),
{
    lemma_key_flags_follow_the_user(g, 0x0100u32, vk);
    lemma_key_flags_follow_the_user(keys_after(g, 0x0100u32, vk), 0x0101u32, vk);
}

/// What the mouse hook saw, beyond its own bookkeeping.
#[derive(Clone, Copy, PartialEq, Eq, Debug, Structural)]
pub enum MouseHookEvent {
    /// Nothing more to do: pass the message on.
    PassOn,
    /// The left button went down while click debugging is on: log the point, pass on.
    LogClick,
    /// A side button went down (`down`) or up: it may be bound to a feature.
    SideButton { bind: BindKey, down: bool },
}

/// The side button that a side-button message's data names: the first one for 1,
/// the second one otherwise.
pub open spec fn side_button(mouse_data: u32) -> BindKey {
    if (mouse_data >> 16u32) as u16 == 1 {
        BindKey::Mouse4
    } else {
        BindKey::Mouse5
    }
}

/// The mouse hook's bookkeeping: keeps track of the left button and recognizes the
/// side buttons. Clicks that this program sends itself (`injected`) and hook codes
/// other than `HC_ACTION` are passed on untouched.
pub fn low_level_mouse_proc(
    g: &mut GlobalInputState,
    n_code: i32,
    msg: u32,
    injected: bool,
    mouse_data: u32,
) -> (r: MouseHookEvent)
    ensures
        if n_code == HC_ACTION && !injected && msg == WM_LBUTTONDOWN {
            *final(g) == (GlobalInputState { lmb_down: true, ..*old(g) })
                && r == (if old(g).click_debug_enabled { MouseHookEvent::LogClick } else { MouseHookEvent::PassOn })
        } else if n_code == HC_ACTION && !injected && msg == WM_LBUTTONUP {
            *final(g) == (GlobalInputState { lmb_down: false, ..*old(g) }) && r == MouseHookEvent::PassOn
        } else if n_code == HC_ACTION && !injected && (msg == WM_XBUTTONDOWN || msg == WM_XBUTTONUP) {
            *final(g) == *old(g) && r == (MouseHookEvent::SideButton {
                bind: side_button(mouse_data),
                down: msg == WM_XBUTTONDOWN,
            })
        } else {
            *final(g) == *old(g) && r == MouseHookEvent::PassOn
        },
{
    if n_code == HC_ACTION && !injected {
        if msg == WM_LBUTTONDOWN {
            g.lmb_down = true;
            if g.click_debug_enabled {
                return MouseHookEvent::LogClick;
            }
        } else if msg == WM_LBUTTONUP {
            g.lmb_down = false;
        } else if msg == WM_XBUTTONDOWN || msg == WM_XBUTTONUP {
            let xbutton: u16 = (mouse_data >> 16u32) as u16;
            let bind = if xbutton == 1 { BindKey::Mouse4 } else { BindKey::Mouse5 };
            return MouseHookEvent::SideButton { bind, down: msg == WM_XBUTTONDOWN };
        }
    }
    MouseHookEvent::PassOn
}

/// `k` is the first switched-on feature bound to `bind`.
pub open spec fn is_first_bound(fs: Seq<Feature>, bind: BindKey, k: int) -> bool {
    &&& 0 <= k < fs.len()
    &&& fs[k].enabled && fs[k].bind_key == Some(bind)
    &&& forall|j: int| 0 <= j < k ==> !(fs[j].enabled && fs[j].bind_key == Some(bind))
}

/// Some switched-on feature is bound to `bind`.
pub open spec fn is_bound(fs: Seq<Feature>, bind: BindKey) -> bool {
    exists|k: int| 0 <= k < fs.len() && fs[k].enabled && fs[k].bind_key == Some(bind)
}

/// The position of the first switched-on feature bound to `bind`.
pub fn first_bound_feature(fs: &Vec<Feature>, bind: BindKey) -> (r: Option<usize>)
    ensures
        match r {
            Some(k) => is_first_bound(fs@, bind, k as int),
            None => !is_bound(fs@, bind),
        },
{
    let n: usize = fs.len();
    for i in 0..n
        invariant
            n == fs@.len(),
            forall|j: int| 0 <= j < i ==> !(fs@[j].enabled && fs@[j].bind_key == Some(bind)),
    {
        if fs[i].enabled && fs[i].bind_key == Some(bind) {
            return Some(i);
        }
    }
    None
}

/// Whether a switched-on feature is bound to a key or button (the mouse hook blocks
/// the side buttons that are).
pub fn is_bound_to_feature(s: &AppState, bind: BindKey) -> (r: bool)
    ensures
        r == is_bound(s.features@, bind),
{
    match first_bound_feature(&s.features, bind) {
        Some(k) => {
            assert(s.features@[k as int].enabled);
            true
        },
        None => false,
    }
}


/// What the mouse hook does with a side-button message.
#[derive(Clone, Copy, PartialEq, Eq, Debug, Structural)]
pub enum SideButtonVerdict {
    /// Let the message through to the system.
    PassOn,
    /// Keep the message from the game.
    Swallow,
    /// Keep the message from the game and act on the binding.
    SwallowAndAct(BindKey),
}

/// The mouse hook's decision on a side button going down (`down`) or up: while the game
/// has the focus, a button bound to a switched-on feature is kept from the game, and
/// only its press acts; any other side button goes through.
pub fn side_button_verdict(s: &AppState, bind: BindKey, down: bool, focused: bool) -> (r: SideButtonVerdict)
    ensures
        r == (if focused && is_bound(s.features@, bind) {
            if down {
                SideButtonVerdict::SwallowAndAct(bind)
            } else {
                SideButtonVerdict::Swallow
            }
        } else {
            SideButtonVerdict::PassOn
        }),
{
    if focused && is_bound_to_feature(s, bind) {
        if down {
            SideButtonVerdict::SwallowAndAct(bind)
        } else {
            SideButtonVerdict::Swallow
        }
    } else {
        SideButtonVerdict::PassOn
    }
}


/// The job a feature sends to the worker thread, built from the settings; the features
/// that only switch something on or off send none.
pub open spec fn feature_message(id: FeatureId, s: AppState) -> Option<WorkerMessage> {
    match id {
        FeatureId::ShiftToggle => Some(WorkerMessage::ShiftToggle),
        FeatureId::NoFallDamage => Some(WorkerMessage::NoFallDamage),
        FeatureId::HackingClickMtd => Some(
            WorkerMessage::HackingClickMtd {
                x: s.x_offset,
                y: s.y_offset,
                w: s.width,
                h: s.height,
                offset_y: s.hacking_y_offset,
            },
        ),
        FeatureId::HackingJumpMtd => Some(
            WorkerMessage::HackingJumpMtd {
                x: s.x_offset,
                y: s.y_offset,
                w: s.width,
                h: s.height,
                offset_y: s.hacking2_y_offset,
            },
        ),
        FeatureId::HackingEscMtd => Some(
            WorkerMessage::HackingEscMtd {
                x: s.x_offset,
                y: s.y_offset,
                w: s.width,
                h: s.height,
                offset_y: s.hacking_esc_y_offset,
            },
        ),
        FeatureId::TipsSkip => Some(
            WorkerMessage::TipsSkip {
                x: s.x_offset,
                w: s.width,
                y: (s.y_offset + s.tips_skip_y_offset) as i32,
            },
        ),
        FeatureId::Restart => Some(
            WorkerMessage::Restart {
                x: s.x_offset,
                w: s.width,
                y: (s.y_offset + s.restart_y_offset) as i32,
            },
        ),
        FeatureId::FastLoadout => Some(WorkerMessage::FastLoadout),
        FeatureId::HoldItemBug => Some(WorkerMessage::HoldItemBug),
        FeatureId::GangstaGrip => Some(WorkerMessage::GangstaGrip { digit: s.gun_tool_digit }),
        FeatureId::QuickExit => Some(WorkerMessage::QuickExit { x: s.x_offset, y: s.y_offset }),
        FeatureId::DoubleClick => Some(WorkerMessage::DoubleClick(s.double_click_button)),
        _ => None,
    }
}

/// The feature that a job for the worker thread runs.
pub open spec fn job_feature(m: WorkerMessage) -> FeatureId {
    match m {
        WorkerMessage::ShiftToggle => FeatureId::ShiftToggle,
        WorkerMessage::NoFallDamage => FeatureId::NoFallDamage,
        WorkerMessage::HackingClickMtd { .. } => FeatureId::HackingClickMtd,
        WorkerMessage::HackingJumpMtd { .. } => FeatureId::HackingJumpMtd,
        WorkerMessage::HackingEscMtd { .. } => FeatureId::HackingEscMtd,
        WorkerMessage::TipsSkip { .. } => FeatureId::TipsSkip,
        WorkerMessage::Restart { .. } => FeatureId::Restart,
        WorkerMessage::FastLoadout => FeatureId::FastLoadout,
        WorkerMessage::HoldItemBug => FeatureId::HoldItemBug,
        WorkerMessage::GangstaGrip { .. } => FeatureId::GangstaGrip,
        WorkerMessage::QuickExit { .. } => FeatureId::QuickExit,
        WorkerMessage::DoubleClick(_) => FeatureId::DoubleClick,
    }
}

/// The features that only switch something on or off, and send no job.
pub open spec fn is_toggle_feature(id: FeatureId) -> bool {
    id == FeatureId::AutoClicker || id == FeatureId::Bhop || id == FeatureId::KeepItemClicker || id
        == FeatureId::ToggleAllMacros
}

/// Every feature but the four toggles sends a job, and the job it sends runs that very
/// feature; so no two features send the same kind of job.
pub proof fn lemma_feature_sends_its_own_job(id: FeatureId, s: AppState)
    ensures
        feature_message(id, s) is Some <==> !is_toggle_feature(id),
        feature_message(id, s) matches Some(m) ==> job_feature(m) == id,
{
}

/// Two different features never send the same kind of job.
pub proof fn lemma_feature_jobs_differ(a: FeatureId, b: FeatureId, s: AppState, t: AppState)
    requires
        a != b,
        feature_message(a, s) is Some,
        feature_message(b, t) is Some,
    ensures
        job_feature(feature_message(a, s)->0) != job_feature(feature_message(b, t)->0),
{
    lemma_feature_sends_its_own_job(a, s);
    lemma_feature_sends_its_own_job(b, t);
}

/// A press of a key bound to a feature that sends a job, while the macros are on, sends
/// a job that runs that feature and changes nothing else.
pub proof fn lemma_dispatch_sends_the_feature_job(id: FeatureId, s: AppState, g: GlobalInputState)
    requires
        !g.all_macros_disabled,
        !is_toggle_feature(id),
    ensures
        dispatch_result(id, s, g).0 matches BindOutcome::Send(m) && job_feature(m) == id,
        dispatch_result(id, s, g).1 == g,
{
    lemma_feature_sends_its_own_job(id, s);
}

/// The sums a feature's job needs lie within `i32`.
pub open spec fn feature_sums_fit(id: FeatureId, s: AppState) -> bool {
    match id {
        FeatureId::TipsSkip => i32::MIN <= s.y_offset + s.tips_skip_y_offset <= i32::MAX,
        FeatureId::Restart => i32::MIN <= s.y_offset + s.restart_y_offset <= i32::MAX,
        _ => true,
    }
}

/// Whether the sums a feature's job needs lie within `i32`.
pub fn message_sums_fit(s: &AppState, id: FeatureId) -> (r: bool)
    ensures
        r == feature_sums_fit(id, *s),
{
    match id {
        FeatureId::TipsSkip => s.y_offset.checked_add(s.tips_skip_y_offset).is_some(),
        FeatureId::Restart => s.y_offset.checked_add(s.restart_y_offset).is_some(),
        _ => true,
    }
}

/// The job a feature sends to the worker thread (see `feature_message`).
pub fn feature_job(s: &AppState, id: FeatureId) -> (r: Option<WorkerMessage>)
    requires
        feature_sums_fit(id, *s),
    ensures
        r == feature_message(id, *s),
{
    match id {
        FeatureId::ShiftToggle => Some(WorkerMessage::ShiftToggle),
        FeatureId::NoFallDamage => Some(WorkerMessage::NoFallDamage),
        FeatureId::HackingClickMtd => Some(
            WorkerMessage::HackingClickMtd {
                x: s.x_offset,
                y: s.y_offset,
                w: s.width,
                h: s.height,
                offset_y: s.hacking_y_offset,
            },
        ),
        FeatureId::HackingJumpMtd => Some(
            WorkerMessage::HackingJumpMtd {
                x: s.x_offset,
                y: s.y_offset,
                w: s.width,
                h: s.height,
                offset_y: s.hacking2_y_offset,
            },
        ),
        FeatureId::HackingEscMtd => Some(
            WorkerMessage::HackingEscMtd {
                x: s.x_offset,
                y: s.y_offset,
                w: s.width,
                h: s.height,
                offset_y: s.hacking_esc_y_offset,
            },
        ),
        FeatureId::TipsSkip => Some(
            WorkerMessage::TipsSkip { x: s.x_offset, w: s.width, y: s.y_offset + s.tips_skip_y_offset },
        ),
        FeatureId::Restart => Some(
            WorkerMessage::Restart { x: s.x_offset, w: s.width, y: s.y_offset + s.restart_y_offset },
        ),
        FeatureId::FastLoadout => Some(WorkerMessage::FastLoadout),
        FeatureId::HoldItemBug => Some(WorkerMessage::HoldItemBug),
        FeatureId::GangstaGrip => Some(WorkerMessage::GangstaGrip { digit: s.gun_tool_digit }),
        FeatureId::QuickExit => Some(WorkerMessage::QuickExit { x: s.x_offset, y: s.y_offset }),
        FeatureId::DoubleClick => Some(WorkerMessage::DoubleClick(s.double_click_button)),
        _ => None,
    }
}

/// What pressing a bound key or button did.
#[derive(Clone, Copy, PartialEq, Eq, Debug, Structural)]
pub enum BindOutcome {
    /// No switched-on feature is bound to it.
    Unbound,
    /// It switched every macro off, or back on.
    ToggledAllMacros,
    /// Its feature did not run: every macro is switched off.
    MacrosDisabled,
    /// It switched the auto clicker on or off.
    ToggledAutoClicker,
    /// It switched bunny hopping on or off.
    ToggledBhop,
    /// It switched holding the left button on or off.
    ToggledLmbHold,
    /// Its feature's job is to go to the worker thread.
    Send(WorkerMessage),
}

/// What pressing a key bound to feature `id` does, and the shared state after it.
pub open spec fn dispatch_result(id: FeatureId, s: AppState, g: GlobalInputState) -> (BindOutcome, GlobalInputState) {
    if id == FeatureId::ToggleAllMacros {
        (BindOutcome::ToggledAllMacros, GlobalInputState { all_macros_disabled: !g.all_macros_disabled, ..g })
    } else if g.all_macros_disabled {
        (BindOutcome::MacrosDisabled, g)
    } else if id == FeatureId::AutoClicker {
        (BindOutcome::ToggledAutoClicker, GlobalInputState { autoclicker_active: !g.autoclicker_active, ..g })
    } else if id == FeatureId::Bhop {
        (BindOutcome::ToggledBhop, GlobalInputState { bhop_active: !g.bhop_active, ..g })
    } else if id == FeatureId::KeepItemClicker {
        (BindOutcome::ToggledLmbHold, GlobalInputState { lmb_hold_active: !g.lmb_hold_active, ..g })
    } else {
        match feature_message(id, s) {
            Some(m) => (BindOutcome::Send(m), g),
            None => (BindOutcome::Unbound, g),
        }
    }
}

/// The jobs of the features that a bound key may trigger can be built.
pub open spec fn bind_sums_fit(s: AppState, bind: BindKey) -> bool {
    forall|k: int| is_first_bound(s.features@, bind, k) ==> feature_sums_fit(#[trigger] s.features@[k].id, s)
}

/// Whether the job that a press of `bind` may build fits in `i32` (see `bind_sums_fit`).
pub fn bind_sums_ok(s: &AppState, bind: BindKey) -> (r: bool)
    ensures
        r == bind_sums_fit(*s, bind),
{
    match first_bound_feature(&s.features, bind) {
        Some(k) => {
            proof {
                assert forall|j: int| is_first_bound(s.features@, bind, j) implies j == k by {
                    if j < k {
                        assert(s.features@[j].enabled && s.features@[j].bind_key == Some(bind));
                    } else if k < j {
                        assert(s.features@[k as int].enabled && s.features@[k as int].bind_key == Some(bind));
                    }
                }
            }
            message_sums_fit(s, s.features[k].id)
        },
        None => {
            proof {
                assert forall|j: int| !is_first_bound(s.features@, bind, j) by {
                    if 0 <= j < s.features@.len() {
                        assert(!(s.features@[j].enabled && s.features@[j].bind_key == Some(bind)));
                    }
                }
            }
            true
        },
    }
}

/// Acts on a press of a key or button: the first switched-on feature bound to it
/// decides. The all-macros toggle always works; while every macro is off nothing else
/// does; the auto clicker, bunny hop and left-button hold are switched at once; every
/// other feature's job goes to the worker thread. The Tips Skip and Restart heights
/// need to fit in `i32` only when such a job is built.
pub fn dispatch_bind(s: &AppState, g: &mut GlobalInputState, bind: BindKey) -> (r: BindOutcome)
    requires
        !old(g).all_macros_disabled ==> bind_sums_fit(*s, bind),
    ensures
        !is_bound(s.features@, bind) ==> r == BindOutcome::Unbound && *final(g) == *old(g),
        forall|k: int|
            is_first_bound(s.features@, bind, k) ==> (r, *final(g)) == dispatch_result(
                #[trigger] s.features@[k].id,
                *s,
                *old(g),
            ),
{
    let k = match first_bound_feature(&s.features, bind) {
        Some(k) => k,
        None => {
            return BindOutcome::Unbound;
        },
    };
    proof {
        assert forall|j: int| is_first_bound(s.features@, bind, j) implies j == k by {
            if j < k {
                assert(s.features@[j].enabled && s.features@[j].bind_key == Some(bind));
            } else if k < j {
                assert(s.features@[k as int].enabled && s.features@[k as int].bind_key == Some(bind));
            }
        }
    }
    let id = s.features[k].id;
    if id == FeatureId::ToggleAllMacros {
        g.all_macros_disabled = !g.all_macros_disabled;
        return BindOutcome::ToggledAllMacros;
    }
    if g.all_macros_disabled {
        return BindOutcome::MacrosDisabled;
    }
    if id == FeatureId::AutoClicker {
        g.autoclicker_active = !g.autoclicker_active;
        return BindOutcome::ToggledAutoClicker;
    }
    if id == FeatureId::Bhop {
        g.bhop_active = !g.bhop_active;
        return BindOutcome::ToggledBhop;
    }
    if id == FeatureId::KeepItemClicker {
        g.lmb_hold_active = !g.lmb_hold_active;
        return BindOutcome::ToggledLmbHold;
    }
    match feature_job(s, id) {
        Some(m) => BindOutcome::Send(m),
        None => BindOutcome::Unbound,
    }
}

/// A side button bound to a feature: when the game has the focus, its feature acts
/// (see `dispatch_bind`) and gives the job for the worker thread, if any.
pub fn handle_mouse_bind(s: &AppState, g: &mut GlobalInputState, bind: BindKey, focused: bool) -> (r:
    Option<WorkerMessage>)
    requires
        focused && !old(g).all_macros_disabled ==> bind_sums_fit(*s, bind),
    ensures
        !focused ==> r is None && *final(g) == *old(g),
        focused && !is_bound(s.features@, bind) ==> r is None && *final(g) == *old(g),
        focused ==> forall|k: int|
            is_first_bound(s.features@, bind, k) ==> {
                let (o, g1) = dispatch_result(#[trigger] s.features@[k].id, *s, *old(g));
                &&& *final(g) == g1
                &&& r == (match o {
                    BindOutcome::Send(m) => Some(m),
                    _ => None::<WorkerMessage>,
                })
            },
{
    if !focused {
        return None;
    }
    match dispatch_bind(s, g, bind) {
        BindOutcome::Send(m) => Some(m),
        _ => None,
    }
}

/// A mouse button as the input listener reports it.
#[derive(Clone, Copy, PartialEq, Eq, Debug, Structural)]
pub enum MouseButton {
    Left,
    Right,
    Middle,
    Unknown(u8),
}

/// An input event as the input listener reports it. A key press carries the key when it
/// is one that a configuration can name.
#[derive(Clone, Copy, PartialEq, Eq, Debug, Structural)]
pub enum InputEvent {
    KeyPress(Option<ConfigKey>),
    KeyRelease,
    ButtonPress(MouseButton),
    ButtonRelease,
    MouseMove,
    Wheel,
}

/// What the input listener does with an event.
#[derive(Clone, Copy, PartialEq, Eq, Debug, Structural)]
pub enum HotkeyVerdict {
    /// Let the event through to the system.
    Pass,
    /// Keep the event from the system.
    Block,
    /// Keep the event from the system and send this job to the worker thread.
    Dispatch(WorkerMessage),
}

/// The key or button that an event presses, if a feature can be bound to it.
pub open spec fn event_bind(e: InputEvent) -> Option<BindKey> {
    match e {
        InputEvent::KeyPress(Some(k)) => Some(BindKey::Keyboard(k)),
        InputEvent::ButtonPress(MouseButton::Middle) => Some(BindKey::MouseMiddle),
        InputEvent::ButtonPress(MouseButton::Unknown(4)) => Some(BindKey::Mouse4),
        InputEvent::ButtonPress(MouseButton::Unknown(5)) => Some(BindKey::Mouse5),
        _ => None,
    }
}

/// Events that always go through: moving and scrolling, releasing a button, and the
/// left and right buttons.
pub open spec fn is_plain_mouse_event(e: InputEvent) -> bool {
    match e {
        InputEvent::ButtonRelease | InputEvent::MouseMove | InputEvent::Wheel => true,
        InputEvent::ButtonPress(MouseButton::Left) | InputEvent::ButtonPress(MouseButton::Right) => true,
        _ => false,
    }
}

/// How the input listener treats a bind outcome.
pub open spec fn verdict_of(o: BindOutcome) -> HotkeyVerdict {
    match o {
        BindOutcome::Unbound | BindOutcome::MacrosDisabled => HotkeyVerdict::Pass,
        BindOutcome::Send(m) => HotkeyVerdict::Dispatch(m),
        _ => HotkeyVerdict::Block,
    }
}

/// Whether an event always goes through (see `is_plain_mouse_event`); the others are
/// looked at only while the game has the focus.
pub fn is_plain_event(e: InputEvent) -> (r: bool)
    ensures
        r == is_plain_mouse_event(e),
{
    match e {
        InputEvent::ButtonRelease | InputEvent::MouseMove | InputEvent::Wheel => true,
        InputEvent::ButtonPress(MouseButton::Left) | InputEvent::ButtonPress(MouseButton::Right) => true,
        _ => false,
    }
}

/// The key or button that an event presses, if a feature can be bound to it (see
/// `event_bind`).
pub fn bind_of_event(e: InputEvent) -> (r: Option<BindKey>)
    ensures
        r == event_bind(e),
{
    match e {
        InputEvent::KeyPress(Some(k)) => Some(BindKey::Keyboard(k)),
        InputEvent::ButtonPress(MouseButton::Middle) => Some(BindKey::MouseMiddle),
        InputEvent::ButtonPress(MouseButton::Unknown(4)) => Some(BindKey::Mouse4),
        InputEvent::ButtonPress(MouseButton::Unknown(5)) => Some(BindKey::Mouse5),
        _ => None,
    }
}

/// The input listener's decision on one event. When shutting down it keeps every
/// event; plain mouse events go through; nothing is bound while the game does not
/// have the focus; a key or button bound to a feature acts (see `dispatch_bind`) and
/// is kept from the system unless nothing happened.
pub fn hotkey_callback(s: &AppState, g: &mut GlobalInputState, event: InputEvent, focused: bool) -> (r:
    HotkeyVerdict)
    requires
        forall|b: BindKey|
            event_bind(event) == Some(b) && focused && !old(g).all_macros_disabled && !old(g).rdev_shutdown
                ==> bind_sums_fit(*s, b),
    ensures
        old(g).rdev_shutdown ==> r == HotkeyVerdict::Block && *final(g) == *old(g),
        !old(g).rdev_shutdown && (is_plain_mouse_event(event) || !focused || event_bind(event) is None)
            ==> r == HotkeyVerdict::Pass && *final(g) == *old(g),
        !old(g).rdev_shutdown && !is_plain_mouse_event(event) && focused && event_bind(event) is Some
            ==> {
            let b = event_bind(event)->0;
            &&& !is_bound(s.features@, b) ==> r == HotkeyVerdict::Pass && *final(g) == *old(g)
            &&& forall|k: int|
                is_first_bound(s.features@, b, k) ==> {
                    let (o, g1) = dispatch_result(#[trigger] s.features@[k].id, *s, *old(g));
                    &&& *final(g) == g1
                    &&& r == verdict_of(o)
                }
        },
{
    if g.rdev_shutdown {
        return HotkeyVerdict::Block;
    }
    match event {
        InputEvent::ButtonRelease | InputEvent::MouseMove | InputEvent::Wheel => {
            return HotkeyVerdict::Pass;
        },
        InputEvent::ButtonPress(MouseButton::Left) | InputEvent::ButtonPress(MouseButton::Right) => {
            return HotkeyVerdict::Pass;
        },
        _ => {},
    }
    if !focused {
        return HotkeyVerdict::Pass;
    }
    let bind = match event {
        InputEvent::KeyPress(Some(k)) => BindKey::Keyboard(k),
        InputEvent::ButtonPress(MouseButton::Middle) => BindKey::MouseMiddle,
        InputEvent::ButtonPress(MouseButton::Unknown(4)) => BindKey::Mouse4,
        InputEvent::ButtonPress(MouseButton::Unknown(5)) => BindKey::Mouse5,
        _ => {
            return HotkeyVerdict::Pass;
        },
    };
    match dispatch_bind(s, g, bind) {
        BindOutcome::Unbound | BindOutcome::MacrosDisabled => HotkeyVerdict::Pass,
        BindOutcome::Send(m) => HotkeyVerdict::Dispatch(m),
        _ => HotkeyVerdict::Block,
    }
}


/// What the bunny-hop thread does next.
#[derive(Clone, Copy, PartialEq, Eq, Debug, Structural)]
pub enum BhopStep {
    /// Tap space, then wait this many milliseconds.
    TapThenSleep(u64),
    /// Wait this many milliseconds.
    Sleep(u64),
}

/// The bunny-hop thread's decision: while bunny hopping is on, the game has the focus,
/// macros are not switched off and space is held, tap space quickly; otherwise poll.
pub fn bhop_step(g: &GlobalInputState, focused: bool) -> (r: BhopStep)
    ensures
        r == (if g.bhop_active && focused && !g.all_macros_disabled && g.space_down {
            BhopStep::TapThenSleep(BHOP_TAP_INTERVAL_MS)
        } else {
            BhopStep::Sleep(POLL_INTERVAL_MS)
        }),
{
    if g.bhop_active && focused && !g.all_macros_disabled {
        if g.space_down {
            BhopStep::TapThenSleep(BHOP_TAP_INTERVAL_MS)
        } else {
            BhopStep::Sleep(POLL_INTERVAL_MS)
        }
    } else {
        BhopStep::Sleep(POLL_INTERVAL_MS)
    }
}

/// The shift key the shift toggle can be bound to.
pub open spec fn shift_bind() -> BindKey {
    BindKey::Keyboard(ConfigKey::ShiftLeft)
}

/// The first switched-on feature bound to left shift is the shift toggle.
pub open spec fn shift_bound_to_toggle(fs: Seq<Feature>) -> bool {
    exists|k: int| is_first_bound(fs, shift_bind(), k) && fs[k].id == FeatureId::ShiftToggle
}

/// The shift-polling thread's decision, given whether shift was held at the last poll:
/// when shift has just gone down, the game has the focus, macros are not switched off
/// and left shift is bound to the shift toggle, the toggle's job is sent. Gives whether
/// to send it and what to remember as "held at the last poll".
pub fn shift_poll_step(s: &AppState, g: &GlobalInputState, focused: bool, prev_shift: bool) -> (r: (
    bool,
    bool,
))
    ensures
        r.0 == (focused && !g.all_macros_disabled && g.shift_down && !prev_shift
            && shift_bound_to_toggle(s.features@)),
        r.1 == g.shift_down,
{
    let shift_down = g.shift_down;
    let mut send = false;
    if focused && !g.all_macros_disabled && shift_down && !prev_shift {
        match first_bound_feature(&s.features, BindKey::Keyboard(ConfigKey::ShiftLeft)) {
            Some(k) => {
                send = s.features[k].id == FeatureId::ShiftToggle;
                proof {
                    assert forall|j: int|
                        is_first_bound(s.features@, shift_bind(), j) implies j == k by {
                        if j < k {
                            assert(s.features@[j].enabled && s.features@[j].bind_key == Some(shift_bind()));
                        } else if k < j {
                            assert(s.features@[k as int].enabled && s.features@[k as int].bind_key == Some(
                                shift_bind(),
                            ));
                        }
                    }
                }
            },
            None => {
                proof {
                    assert forall|j: int| !is_first_bound(s.features@, shift_bind(), j) by {
                        if 0 <= j < s.features@.len() {
                            assert(!(s.features@[j].enabled && s.features@[j].bind_key == Some(shift_bind())));
                        }
                    }
                }
            },
        }
    }
    (send, shift_down)
}

/// Some feature with identity `id` is switched on.
pub open spec fn feature_enabled(fs: Seq<Feature>, id: FeatureId) -> bool {
    exists|k: int| 0 <= k < fs.len() && fs[k].id == id && fs[k].enabled
}

/// Whether some feature with identity `id` is switched on.
pub fn any_feature_enabled(fs: &Vec<Feature>, id: FeatureId) -> (r: bool)
    ensures
        r == feature_enabled(fs@, id),
{
    let n: usize = fs.len();
    for i in 0..n
        invariant
            n == fs@.len(),
            forall|j: int| 0 <= j < i ==> !(fs@[j].id == id && fs@[j].enabled),
    {
        if fs[i].id == id && fs[i].enabled {
            return true;
        }
    }
    false
}

/// One click of the auto clicker.
#[derive(Clone, Copy, PartialEq, Eq, Debug, Structural)]
pub enum AutoClick {
    /// A left click sent as input.
    MouseClick,
    /// This many left clicks posted to the focused window at the cursor.
    PostClicks(u32),
    /// A tap of the key with this scan code.
    KeyTap(u16),
}

/// How a worker thread waits before its next round.
#[derive(Clone, Copy, PartialEq, Eq, Debug, Structural)]
pub enum Pause {
    Sleep(u64),
    Yield,
}

/// The click the auto clicker makes with the given settings (none for a key without a
/// scan code).
pub open spec fn auto_click_of(s: AppState) -> Option<AutoClick> {
    match s.auto_clicker_mode {
        AutoClickerMode::Mouse => match s.auto_clicker_method {
            ClickMethod::SendInput => Some(AutoClick::MouseClick),
            ClickMethod::PostMessage => Some(AutoClick::PostClicks(s.auto_clicker_click_count)),
        },
        AutoClickerMode::Keyboard => match scancode_of(s.auto_clicker_key) {
            Some(scan) => Some(AutoClick::KeyTap(scan)),
            None => None,
        },
    }
}

/// The auto clicker thread's decision: while the auto clicker is switched on and
/// active, the game has the focus, macros are not switched off and the left button is
/// held, click as set and then wait the set delay (or just yield with no delay);
/// otherwise poll.
pub fn autoclicker_step(s: &AppState, g: &GlobalInputState, focused: bool) -> (r: (Option<AutoClick>, Pause))
    ensures
        r == (if g.autoclicker_active && feature_enabled(s.features@, FeatureId::AutoClicker) && focused
            && !g.all_macros_disabled && g.lmb_down {
            (
                auto_click_of(*s),
                if s.auto_clicker_delay > 0 {
                    Pause::Sleep(s.auto_clicker_delay as u64)
                } else {
                    Pause::Yield
                },
            )
        } else {
            (None::<AutoClick>, Pause::Sleep(POLL_INTERVAL_MS))
        }),
{
    let enabled = any_feature_enabled(&s.features, FeatureId::AutoClicker);
    if g.autoclicker_active && enabled && focused && !g.all_macros_disabled {
        if g.lmb_down {
            let click = match s.auto_clicker_mode {
                AutoClickerMode::Mouse => match s.auto_clicker_method {
                    ClickMethod::SendInput => Some(AutoClick::MouseClick),
                    ClickMethod::PostMessage => Some(AutoClick::PostClicks(s.auto_clicker_click_count)),
                },
                AutoClickerMode::Keyboard => match rdev_key_to_scancode(s.auto_clicker_key) {
                    Some(scan) => Some(AutoClick::KeyTap(scan)),
                    None => None,
                },
            };
            let pause = if s.auto_clicker_delay > 0 {
                Pause::Sleep(s.auto_clicker_delay as u64)
            } else {
                Pause::Yield
            };
            (click, pause)
        } else {
            (None, Pause::Sleep(POLL_INTERVAL_MS))
        }
    } else {
        (None, Pause::Sleep(POLL_INTERVAL_MS))
    }
}

/// The left-button-hold thread's decision, given whether it was holding at the last
/// round: while holding is switched on and active, the game has the focus and macros
/// are not switched off, press the button (again); when that stops, release it once.
/// Gives the button change to send, if any, and whether it is now holding.
pub fn lmb_hold_step(s: &AppState, g: &GlobalInputState, focused: bool, was_active: bool) -> (r: (
    Option<bool>,
    bool,
))
    ensures
        ({
            let active = g.lmb_hold_active && feature_enabled(s.features@, FeatureId::KeepItemClicker)
                && focused && !g.all_macros_disabled;
            r == (if active {
                (Some(true), true)
            } else if was_active {
                (Some(false), false)
            } else {
                (None::<bool>, false)
            })
        }),
{
    let enabled = any_feature_enabled(&s.features, FeatureId::KeepItemClicker);
    let active = g.lmb_hold_active && enabled && focused && !g.all_macros_disabled;
    if active {
        (Some(true), true)
    } else if was_active {
        (Some(false), false)
    } else {
        (None, false)
    }
}


/// While every macro is switched off, a key bound to any feature other than the
/// all-macros toggle does nothing.
pub proof fn lemma_disabled_macros_do_nothing(id: FeatureId, s: AppState, g: GlobalInputState)
    requires
        g.all_macros_disabled,
        id != FeatureId::ToggleAllMacros,
    ensures
        dispatch_result(id, s, g) == (BindOutcome::MacrosDisabled, g),
{
}

/// A feature that only switches something on or off switches it back with a second
/// press: two presses leave the shared state as it was.
pub proof fn lemma_toggle_twice_restores(id: FeatureId, s: AppState, g: GlobalInputState)
    requires
        id == FeatureId::ToggleAllMacros || (!g.all_macros_disabled && (id == FeatureId::AutoClicker || id
            == FeatureId::Bhop || id == FeatureId::KeepItemClicker)),
    ensures
        dispatch_result(id, s, dispatch_result(id, s, g).1).1 == g,
{
}

} // verus!
