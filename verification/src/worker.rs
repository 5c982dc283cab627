use vstd::prelude::*;
use crate::features::{config_key_at, ConfigKey, DoubleClickButton};

verus! {

/// A job for the worker thread: a feature to run, with the screen geometry it needs.
#[derive(Clone, Copy, PartialEq, Eq, Debug, Structural)]
pub enum WorkerMessage {
    ShiftToggle,
    NoFallDamage,
    HackingClickMtd { x: i32, y: i32, w: i32, h: i32, offset_y: i32 },
    HackingJumpMtd { x: i32, y: i32, w: i32, h: i32, offset_y: i32 },
    HackingEscMtd { x: i32, y: i32, w: i32, h: i32, offset_y: i32 },
    TipsSkip { x: i32, w: i32, y: i32 },
    Restart { x: i32, w: i32, y: i32 },
    FastLoadout,
    HoldItemBug,
    GangstaGrip { digit: u32 },
    QuickExit { x: i32, y: i32 },
    DoubleClick(DoubleClickButton),
}

/// Pause between the steps of the hacking methods, in milliseconds.
pub const HACKING_DELAY_MS: u64 = 12;
/// Pause between the wheel turn and the click of Fast Loadout, in milliseconds.
pub const MOUSE_CLICK_PRE_DELAY_MS: u64 = 2;
/// Pause between the taps of the Hold Item Bug, in milliseconds.
pub const HOLD_ITEM_TAP_DELAY_MS: u64 = 1;
/// Pause after the Escape tap of Restart, in milliseconds.
pub const RESTART_KEY_DELAY_MS: u64 = 30;
/// Pause between moving the cursor and clicking in Tips Skip and Restart, in milliseconds.
pub const RESTART_SETTLE_DELAY_MS: u64 = 10;
/// Pause between the Escape taps of No Fall Damage, in milliseconds.
pub const NO_FALL_DAMAGE_DELAY_MS: u64 = 30;
/// Pause between the steps of Quick Exit, in milliseconds.
pub const QUICK_EXIT_DELAY_MS: u64 = 15;
/// Pause between two space taps while bunny hopping, in milliseconds.
pub const BHOP_TAP_INTERVAL_MS: u64 = 3;
/// How often the helper threads look at the input state, in milliseconds.
pub const POLL_INTERVAL_MS: u64 = 5;
/// The smallest auto clicker delay the settings offer, in milliseconds.
pub const AUTO_CLICKER_MIN_DELAY_MS: u32 = 0;
/// The largest auto clicker delay the settings offer, in milliseconds.
pub const AUTO_CLICKER_MAX_DELAY_MS: u32 = 500;

/// How many click pairs the hacking methods post.
pub const HACKING_CLICK_COUNT: u32 = 100;
/// Scan code of the Escape key.
pub const SCAN_ESCAPE: u16 = 0x01;
/// Scan code of the space bar.
pub const SCAN_SPACE: u16 = 0x39;
/// Scan code of the left shift key.
pub const SCAN_SHIFT: u16 = 0x2A;
/// Pause between the two taps of a double click, in milliseconds.
pub const DOUBLE_CLICK_GAP_MS: u64 = 20;
/// Pause between the two Escape taps of the hacking Esc method, in milliseconds.
pub const HACKING_ESC_GAP_MS: u64 = 1;

/// The value of the pair of 16-bit words that window messages carry coordinates in:
/// `y` in the high word, `x` in the low word, each cut to 16 bits.
pub open spec fn lparam_value(x: i32, y: i32) -> u32 {
    (((y as u16) as u32) * 65536 + ((x as u16) as u32)) as u32
}

/// Packs screen coordinates into a message parameter, negative coordinates keeping
/// their 16-bit two's-complement form.
pub fn pack_lparam(x: i32, y: i32) -> (r: isize)
    ensures
        r == lparam_value(x, y) as isize,
{
    let lo: u32 = ((x as i16) as u16) as u32;
    let hi: u32 = (((y as i16) as u16) as u32) << 16;
    let low: isize = lo as isize;
    let high: isize = hi as isize;
    assert(((x as i16) as u16) as u32 == (x as u16) as u32) by (bit_vector);
    assert((((y as i16) as u16) as u32) << 16 == (((y as u16) as u32) * 65536) as u32) by (bit_vector);
    assert(high | low == ((hi + lo) as u32) as isize) by (bit_vector)
        requires
            lo < 65536,
            hi % 65536 == 0,
            low == lo as isize,
            high == hi as isize,
    ;
    high | low
}

/// The packed value gives back both coordinates, cut to 16 bits.
pub proof fn lemma_lparam_words(x: i32, y: i32)
    ensures
        lparam_value(x, y) % 65536 == (x as u16) as u32,
        lparam_value(x, y) / 65536 == (y as u16) as u32,
{
}

/// The scan code of a key, for the keys that have one here.
pub open spec fn scancode_of(key: ConfigKey) -> Option<u16> {
    match key {
        ConfigKey::KeyA => Some(0x1eu16),
        ConfigKey::KeyB => Some(0x30u16),
        ConfigKey::KeyC => Some(0x2eu16),
        ConfigKey::KeyD => Some(0x20u16),
        ConfigKey::KeyE => Some(0x12u16),
        ConfigKey::KeyF => Some(0x21u16),
        ConfigKey::KeyG => Some(0x22u16),
        ConfigKey::KeyH => Some(0x23u16),
        ConfigKey::KeyI => Some(0x17u16),
        ConfigKey::KeyJ => Some(0x24u16),
        ConfigKey::KeyK => Some(0x25u16),
        ConfigKey::KeyL => Some(0x26u16),
        ConfigKey::KeyM => Some(0x32u16),
        ConfigKey::KeyN => Some(0x31u16),
        ConfigKey::KeyO => Some(0x18u16),
        ConfigKey::KeyP => Some(0x19u16),
        ConfigKey::KeyQ => Some(0x10u16),
        ConfigKey::KeyR => Some(0x13u16),
        ConfigKey::KeyS => Some(0x1fu16),
        ConfigKey::KeyT => Some(0x14u16),
        ConfigKey::KeyU => Some(0x16u16),
        ConfigKey::KeyV => Some(0x2fu16),
        ConfigKey::KeyW => Some(0x11u16),
        ConfigKey::KeyX => Some(0x2du16),
        ConfigKey::KeyY => Some(0x15u16),
        ConfigKey::KeyZ => Some(0x2cu16),
        ConfigKey::Num0 => Some(0xbu16),
        ConfigKey::Num1 => Some(0x2u16),
        ConfigKey::Num2 => Some(0x3u16),
        ConfigKey::Num3 => Some(0x4u16),
        ConfigKey::Num4 => Some(0x5u16),
        ConfigKey::Num5 => Some(0x6u16),
        ConfigKey::Num6 => Some(0x7u16),
        ConfigKey::Num7 => Some(0x8u16),
        ConfigKey::Num8 => Some(0x9u16),
        ConfigKey::Num9 => Some(0xau16),
        ConfigKey::F1 => Some(0x3bu16),
        ConfigKey::F2 => Some(0x3cu16),
        ConfigKey::F3 => Some(0x3du16),
        ConfigKey::F4 => Some(0x3eu16),
        ConfigKey::F5 => Some(0x3fu16),
        ConfigKey::F6 => Some(0x40u16),
        ConfigKey::F7 => Some(0x41u16),
        ConfigKey::F8 => Some(0x42u16),
        ConfigKey::F9 => Some(0x43u16),
        ConfigKey::F10 => Some(0x44u16),
        ConfigKey::F11 => Some(0x57u16),
        ConfigKey::F12 => Some(0x58u16),
        ConfigKey::Space => Some(0x39u16),
        ConfigKey::Escape => Some(0x1u16),
        ConfigKey::Tab => Some(0xfu16),
        ConfigKey::Backspace => Some(0xeu16),
        ConfigKey::Insert => Some(0xd2u16),
        ConfigKey::Delete => Some(0xd3u16),
        ConfigKey::Home => Some(0xc7u16),
        ConfigKey::End => Some(0xcfu16),
        ConfigKey::PageUp => Some(0xc9u16),
        ConfigKey::PageDown => Some(0xd1u16),
        ConfigKey::UpArrow => Some(0xc8u16),
        ConfigKey::DownArrow => Some(0xd0u16),
        ConfigKey::LeftArrow => Some(0xcbu16),
        ConfigKey::RightArrow => Some(0xcdu16),
        ConfigKey::Alt => Some(0x38u16),
        ConfigKey::ControlLeft => Some(0x1du16),
        ConfigKey::ControlRight => Some(0x1du16),
        ConfigKey::ShiftLeft => Some(0x2au16),
        ConfigKey::ShiftRight => Some(0x36u16),
        ConfigKey::CapsLock => Some(0x3au16),
        ConfigKey::Minus => Some(0xcu16),
        ConfigKey::Equal => Some(0xdu16),
        _ => None,
    }
}

/// The key that a scan code belongs to (for left and right Control, the left one).
pub open spec fn key_of_scancode(code: u16) -> Option<ConfigKey> {
    match code {
        0x1 => Some(ConfigKey::Escape),
        0x2 => Some(ConfigKey::Num1),
        0x3 => Some(ConfigKey::Num2),
        0x4 => Some(ConfigKey::Num3),
        0x5 => Some(ConfigKey::Num4),
        0x6 => Some(ConfigKey::Num5),
        0x7 => Some(ConfigKey::Num6),
        0x8 => Some(ConfigKey::Num7),
        0x9 => Some(ConfigKey::Num8),
        0xa => Some(ConfigKey::Num9),
        0xb => Some(ConfigKey::Num0),
        0xc => Some(ConfigKey::Minus),
        0xd => Some(ConfigKey::Equal),
        0xe => Some(ConfigKey::Backspace),
        0xf => Some(ConfigKey::Tab),
        0x10 => Some(ConfigKey::KeyQ),
        0x11 => Some(ConfigKey::KeyW),
        0x12 => Some(ConfigKey::KeyE),
        0x13 => Some(ConfigKey::KeyR),
        0x14 => Some(ConfigKey::KeyT),
        0x15 => Some(ConfigKey::KeyY),
        0x16 => Some(ConfigKey::KeyU),
        0x17 => Some(ConfigKey::KeyI),
        0x18 => Some(ConfigKey::KeyO),
        0x19 => Some(ConfigKey::KeyP),
        0x1d => Some(ConfigKey::ControlLeft),
        0x1e => Some(ConfigKey::KeyA),
        0x1f => Some(ConfigKey::KeyS),
        0x20 => Some(ConfigKey::KeyD),
        0x21 => Some(ConfigKey::KeyF),
        0x22 => Some(ConfigKey::KeyG),
        0x23 => Some(ConfigKey::KeyH),
        0x24 => Some(ConfigKey::KeyJ),
        0x25 => Some(ConfigKey::KeyK),
        0x26 => Some(ConfigKey::KeyL),
        0x2a => Some(ConfigKey::ShiftLeft),
        0x2c => Some(ConfigKey::KeyZ),
        0x2d => Some(ConfigKey::KeyX),
        0x2e => Some(ConfigKey::KeyC),
        0x2f => Some(ConfigKey::KeyV),
        0x30 => Some(ConfigKey::KeyB),
        0x31 => Some(ConfigKey::KeyN),
        0x32 => Some(ConfigKey::KeyM),
        0x36 => Some(ConfigKey::ShiftRight),
        0x38 => Some(ConfigKey::Alt),
        0x39 => Some(ConfigKey::Space),
        0x3a => Some(ConfigKey::CapsLock),
        0x3b => Some(ConfigKey::F1),
        0x3c => Some(ConfigKey::F2),
        0x3d => Some(ConfigKey::F3),
        0x3e => Some(ConfigKey::F4),
        0x3f => Some(ConfigKey::F5),
        0x40 => Some(ConfigKey::F6),
        0x41 => Some(ConfigKey::F7),
        0x42 => Some(ConfigKey::F8),
        0x43 => Some(ConfigKey::F9),
        0x44 => Some(ConfigKey::F10),
        0x57 => Some(ConfigKey::F11),
        0x58 => Some(ConfigKey::F12),
        0xc7 => Some(ConfigKey::Home),
        0xc8 => Some(ConfigKey::UpArrow),
        0xc9 => Some(ConfigKey::PageUp),
        0xcb => Some(ConfigKey::LeftArrow),
        0xcd => Some(ConfigKey::RightArrow),
        0xcf => Some(ConfigKey::End),
        0xd0 => Some(ConfigKey::DownArrow),
        0xd1 => Some(ConfigKey::PageDown),
        0xd2 => Some(ConfigKey::Insert),
        0xd3 => Some(ConfigKey::Delete),
        _ => None,
    }
}

/// Every scan code belongs to one key: reading a key's scan code back gives the key,
/// except that both Control keys read back as the left one.
pub proof fn lemma_scancode_reads_back(k: ConfigKey)
    ensures
        scancode_of(k) matches Some(code) ==> key_of_scancode(code) == (if k == ConfigKey::ControlRight {
            Some(ConfigKey::ControlLeft)
        } else {
            Some(k)
        }),
{
}

/// No two keys share a scan code, but for the two Control keys.
pub proof fn lemma_scancodes_distinct(a: ConfigKey, b: ConfigKey)
    requires
        scancode_of(a) is Some,
        scancode_of(a) == scancode_of(b),
        a != b,
    ensures
        (a == ConfigKey::ControlLeft && b == ConfigKey::ControlRight) || (a == ConfigKey::ControlRight && b
            == ConfigKey::ControlLeft),
{
    lemma_scancode_reads_back(a);
    lemma_scancode_reads_back(b);
}

/// The letter keys of the keyboard's three letter rows, left to right.
pub open spec fn letter_row(r: int) -> Seq<ConfigKey> {
    if r == 0 {
        seq![
            ConfigKey::KeyQ, ConfigKey::KeyW, ConfigKey::KeyE, ConfigKey::KeyR, ConfigKey::KeyT,
            ConfigKey::KeyY, ConfigKey::KeyU, ConfigKey::KeyI, ConfigKey::KeyO, ConfigKey::KeyP,
        ]
    } else if r == 1 {
        seq![
            ConfigKey::KeyA, ConfigKey::KeyS, ConfigKey::KeyD, ConfigKey::KeyF, ConfigKey::KeyG,
            ConfigKey::KeyH, ConfigKey::KeyJ, ConfigKey::KeyK, ConfigKey::KeyL,
        ]
    } else {
        seq![
            ConfigKey::KeyZ, ConfigKey::KeyX, ConfigKey::KeyC, ConfigKey::KeyV, ConfigKey::KeyB,
            ConfigKey::KeyN, ConfigKey::KeyM,
        ]
    }
}

/// The scan code of the first letter of each letter row.
pub open spec fn letter_row_start(r: int) -> int {
    if r == 0 {
        0x10
    } else if r == 1 {
        0x1e
    } else {
        0x2c
    }
}

/// Scan codes follow the keyboard: along each letter row they count up from the row's
/// first code; the digits 1 to 9 have 0x02 to 0x0a and 0 comes after them; the function
/// keys F1 to F10 have 0x3b to 0x44.
pub proof fn lemma_scancodes_follow_layout()
    ensures
        forall|r: int, i: int|
            0 <= r < 3 && 0 <= i < letter_row(r).len() ==> scancode_of(#[trigger] letter_row(r)[i]) == Some(
                (letter_row_start(r) + i) as u16,
            ),
        forall|d: int| 1 <= d <= 9 ==> scancode_of(#[trigger] config_key_at(26 + d)) == Some((1 + d) as u16),
        scancode_of(ConfigKey::Num0) == Some(0x0bu16),
        forall|i: int| 0 <= i < 10 ==> scancode_of(#[trigger] config_key_at(36 + i)) == Some((0x3b + i) as u16),
{
    assert forall|r: int, i: int|
        0 <= r < 3 && 0 <= i < letter_row(r).len() implies scancode_of(#[trigger] letter_row(r)[i]) == Some(
            (letter_row_start(r) + i) as u16,
        ) by {
        if r == 0 {
            assert(0 <= i < 10);
        }
    }
}

/// The scan code to send for a key (`None` for keys without one here).
pub fn rdev_key_to_scancode(key: ConfigKey) -> (r: Option<u16>)
    ensures
        r == scancode_of(key),
{
    match key {
        ConfigKey::KeyA => Some(0x1e),
        ConfigKey::KeyB => Some(0x30),
        ConfigKey::KeyC => Some(0x2e),
        ConfigKey::KeyD => Some(0x20),
        ConfigKey::KeyE => Some(0x12),
        ConfigKey::KeyF => Some(0x21),
        ConfigKey::KeyG => Some(0x22),
        ConfigKey::KeyH => Some(0x23),
        ConfigKey::KeyI => Some(0x17),
        ConfigKey::KeyJ => Some(0x24),
        ConfigKey::KeyK => Some(0x25),
        ConfigKey::KeyL => Some(0x26),
        ConfigKey::KeyM => Some(0x32),
        ConfigKey::KeyN => Some(0x31),
        ConfigKey::KeyO => Some(0x18),
        ConfigKey::KeyP => Some(0x19),
        ConfigKey::KeyQ => Some(0x10),
        ConfigKey::KeyR => Some(0x13),
        ConfigKey::KeyS => Some(0x1f),
        ConfigKey::KeyT => Some(0x14),
        ConfigKey::KeyU => Some(0x16),
        ConfigKey::KeyV => Some(0x2f),
        ConfigKey::KeyW => Some(0x11),
        ConfigKey::KeyX => Some(0x2d),
        ConfigKey::KeyY => Some(0x15),
        ConfigKey::KeyZ => Some(0x2c),
        ConfigKey::Num0 => Some(0xb),
        ConfigKey::Num1 => Some(0x2),
        ConfigKey::Num2 => Some(0x3),
        ConfigKey::Num3 => Some(0x4),
        ConfigKey::Num4 => Some(0x5),
        ConfigKey::Num5 => Some(0x6),
        ConfigKey::Num6 => Some(0x7),
        ConfigKey::Num7 => Some(0x8),
        ConfigKey::Num8 => Some(0x9),
        ConfigKey::Num9 => Some(0xa),
        ConfigKey::F1 => Some(0x3b),
        ConfigKey::F2 => Some(0x3c),
        ConfigKey::F3 => Some(0x3d),
        ConfigKey::F4 => Some(0x3e),
        ConfigKey::F5 => Some(0x3f),
        ConfigKey::F6 => Some(0x40),
        ConfigKey::F7 => Some(0x41),
        ConfigKey::F8 => Some(0x42),
        ConfigKey::F9 => Some(0x43),
        ConfigKey::F10 => Some(0x44),
        ConfigKey::F11 => Some(0x57),
        ConfigKey::F12 => Some(0x58),
        ConfigKey::Space => Some(0x39),
        ConfigKey::Escape => Some(0x1),
        ConfigKey::Tab => Some(0xf),
        ConfigKey::Backspace => Some(0xe),
        ConfigKey::Insert => Some(0xd2),
        ConfigKey::Delete => Some(0xd3),
        ConfigKey::Home => Some(0xc7),
        ConfigKey::End => Some(0xcf),
        ConfigKey::PageUp => Some(0xc9),
        ConfigKey::PageDown => Some(0xd1),
        ConfigKey::UpArrow => Some(0xc8),
        ConfigKey::DownArrow => Some(0xd0),
        ConfigKey::LeftArrow => Some(0xcb),
        ConfigKey::RightArrow => Some(0xcd),
        ConfigKey::Alt => Some(0x38),
        ConfigKey::ControlLeft => Some(0x1d),
        ConfigKey::ControlRight => Some(0x1d),
        ConfigKey::ShiftLeft => Some(0x2a),
        ConfigKey::ShiftRight => Some(0x36),
        ConfigKey::CapsLock => Some(0x3a),
        ConfigKey::Minus => Some(0xc),
        ConfigKey::Equal => Some(0xd),
        _ => None,
    }
}


/// Half of `w`, rounded toward zero (Rust's `/` on integers).
pub open spec fn half(w: i32) -> int {
    if w >= 0 {
        w / 2
    } else {
        -((-w) / 2)
    }
}

/// One step of a macro, for the caller to perform.
#[derive(Clone, Copy, PartialEq, Eq, Debug, Structural)]
pub enum InputAction {
    /// Wait this many milliseconds.
    Sleep(u64),
    /// Stop the macro here when no window has the focus; the steps after it go to
    /// that window.
    RequireForegroundWindow,
    /// Put the cursor on this screen point (retrying as `cursor_retry` says).
    MoveCursor { x: i32, y: i32 },
    /// Post this many button-down/button-up pairs at this screen point to the focused
    /// window, yielding after each pair.
    PostClicks { x: i32, y: i32, count: u32 },
    /// One left click.
    MouseClick,
    /// Press (`true`) or release (`false`) the left button.
    MouseHold(bool),
    /// Press and release the key with this scan code.
    KeyTap(u16),
    /// Block (`true`) or unblock (`false`) the user's own input.
    BlockInput(bool),
    /// Turn the mouse wheel one notch up.
    WheelUp,
    /// Press and release the given button.
    ButtonTap(DoubleClickButton),
}

/// The point the hacking methods click: the middle of the screen, moved down by the offset.
pub open spec fn hacking_target_fits(x: i32, y: i32, w: i32, h: i32, offset_y: i32) -> bool {
    &&& i32::MIN <= x + half(w) <= i32::MAX
    &&& i32::MIN <= y + half(h) <= i32::MAX
    &&& i32::MIN <= y + half(h) + offset_y <= i32::MAX
}

/// The steps of a hacking method up to its last click burst.
pub open spec fn hacking_prefix(x: i32, y: i32, w: i32, h: i32, offset_y: i32) -> Seq<InputAction> {
    let cx = (x + half(w)) as i32;
    let ty = (y + half(h) + offset_y) as i32;
    seq![
        InputAction::Sleep(HACKING_DELAY_MS),
        InputAction::RequireForegroundWindow,
        InputAction::MoveCursor { x: cx, y: ty },
        InputAction::PostClicks { x: cx, y: ty, count: HACKING_CLICK_COUNT },
    ]
}

fn hacking_start(x: i32, y: i32, w: i32, h: i32, offset_y: i32) -> (v: Vec<InputAction>)
    requires
        hacking_target_fits(x, y, w, h, offset_y),
    ensures
        v@ == hacking_prefix(x, y, w, h, offset_y),
{
    let center_x: i32 = x + w / 2;
    let center_y: i32 = y + h / 2;
    let target_y: i32 = center_y + offset_y;
    let mut v: Vec<InputAction> = Vec::new();
    v.push(InputAction::Sleep(HACKING_DELAY_MS));
    v.push(InputAction::RequireForegroundWindow);
    v.push(InputAction::MoveCursor { x: center_x, y: target_y });
    v.push(InputAction::PostClicks { x: center_x, y: target_y, count: HACKING_CLICK_COUNT });
    assert(v@ =~= hacking_prefix(x, y, w, h, offset_y));
    v
}


/// A point `dx`, `dy` away from `x`, `y` lies within `i32`.
pub open spec fn offset_fits(x: i32, dx: int, y: i32, dy: int) -> bool {
    &&& i32::MIN <= x + dx <= i32::MAX
    &&& i32::MIN <= y + dy <= i32::MAX
}

/// Runs the features' input macros.
pub struct Worker;

impl Worker {
    /// Hacking device, click method: after a short wait, clicks the hacking target a
    /// hundred times through the focused window's messages, then clicks at the top
    /// middle of the screen.
    pub fn hacking_click_mtd(x: i32, y: i32, w: i32, h: i32, offset_y: i32) -> (v: Vec<InputAction>)
        requires
            hacking_target_fits(x, y, w, h, offset_y),
        ensures
            v@ == hacking_prefix(x, y, w, h, offset_y) + seq![
                InputAction::MoveCursor { x: (x + half(w)) as i32, y: y },
                InputAction::MouseClick,
            ],
    {
        let mut v = hacking_start(x, y, w, h, offset_y);
        v.push(InputAction::MoveCursor { x: x + w / 2, y: y });
        v.push(InputAction::MouseClick);
        v
    }

    /// Hacking device, jump method: the same clicks, then a jump.
    pub fn hacking_jump_mtd(x: i32, y: i32, w: i32, h: i32, offset_y: i32) -> (v: Vec<InputAction>)
        requires
            hacking_target_fits(x, y, w, h, offset_y),
        ensures
            v@ == hacking_prefix(x, y, w, h, offset_y).push(InputAction::KeyTap(SCAN_SPACE)),
    {
        let mut v = hacking_start(x, y, w, h, offset_y);
        v.push(InputAction::KeyTap(SCAN_SPACE));
        v
    }

    /// Hacking device, escape method: the same clicks, then Escape twice.
    pub fn hacking_esc_mtd(x: i32, y: i32, w: i32, h: i32, offset_y: i32) -> (v: Vec<InputAction>)
        requires
            hacking_target_fits(x, y, w, h, offset_y),
        ensures
            v@ == hacking_prefix(x, y, w, h, offset_y) + seq![
                InputAction::KeyTap(SCAN_ESCAPE),
                InputAction::Sleep(HACKING_ESC_GAP_MS),
                InputAction::KeyTap(SCAN_ESCAPE),
            ],
    {
        let mut v = hacking_start(x, y, w, h, offset_y);
        v.push(InputAction::KeyTap(SCAN_ESCAPE));
        v.push(InputAction::Sleep(HACKING_ESC_GAP_MS));
        v.push(InputAction::KeyTap(SCAN_ESCAPE));
        v
    }

    /// Skips the tips: with the user's input blocked, clicks the middle of the screen at
    /// height `y_abs`.
    pub fn tips_skip(x: i32, w: i32, y_abs: i32) -> (v: Vec<InputAction>)
        requires
            i32::MIN <= x + half(w) <= i32::MAX,
        ensures
            v@ == seq![
                InputAction::BlockInput(true),
                InputAction::MoveCursor { x: (x + half(w)) as i32, y: y_abs },
                InputAction::Sleep(RESTART_SETTLE_DELAY_MS),
                InputAction::MouseClick,
                InputAction::BlockInput(false),
            ],
    {
        let mut v: Vec<InputAction> = Vec::new();
        v.push(InputAction::BlockInput(true));
        v.push(InputAction::MoveCursor { x: x + w / 2, y: y_abs });
        v.push(InputAction::Sleep(RESTART_SETTLE_DELAY_MS));
        v.push(InputAction::MouseClick);
        v.push(InputAction::BlockInput(false));
        v
    }

    /// Restarts: with the user's input blocked, opens the menu with Escape and clicks
    /// the middle of the screen at height `y_abs`.
    pub fn restart(x: i32, w: i32, y_abs: i32) -> (v: Vec<InputAction>)
        requires
            i32::MIN <= x + half(w) <= i32::MAX,
        ensures
            v@ == seq![
                InputAction::BlockInput(true),
                InputAction::KeyTap(SCAN_ESCAPE),
                InputAction::Sleep(RESTART_KEY_DELAY_MS),
                InputAction::MoveCursor { x: (x + half(w)) as i32, y: y_abs },
                InputAction::Sleep(RESTART_SETTLE_DELAY_MS),
                InputAction::MouseClick,
                InputAction::BlockInput(false),
            ],
    {
        let mut v: Vec<InputAction> = Vec::new();
        v.push(InputAction::BlockInput(true));
        v.push(InputAction::KeyTap(SCAN_ESCAPE));
        v.push(InputAction::Sleep(RESTART_KEY_DELAY_MS));
        v.push(InputAction::MoveCursor { x: x + w / 2, y: y_abs });
        v.push(InputAction::Sleep(RESTART_SETTLE_DELAY_MS));
        v.push(InputAction::MouseClick);
        v.push(InputAction::BlockInput(false));
        v
    }

    /// No fall damage: Escape, a short wait, Escape.
    pub fn no_fall_damage() -> (v: Vec<InputAction>)
        ensures
            v@ == seq![
                InputAction::KeyTap(SCAN_ESCAPE),
                InputAction::Sleep(NO_FALL_DAMAGE_DELAY_MS),
                InputAction::KeyTap(SCAN_ESCAPE),
            ],
    {
        let mut v: Vec<InputAction> = Vec::new();
        v.push(InputAction::KeyTap(SCAN_ESCAPE));
        v.push(InputAction::Sleep(NO_FALL_DAMAGE_DELAY_MS));
        v.push(InputAction::KeyTap(SCAN_ESCAPE));
        v
    }

    /// Fast loadout: the wheel one notch up, a short wait, a click.
    pub fn fast_loadout() -> (v: Vec<InputAction>)
        ensures
            v@ == seq![
                InputAction::WheelUp,
                InputAction::Sleep(MOUSE_CLICK_PRE_DELAY_MS),
                InputAction::MouseClick,
            ],
    {
        let mut v: Vec<InputAction> = Vec::new();
        v.push(InputAction::WheelUp);
        v.push(InputAction::Sleep(MOUSE_CLICK_PRE_DELAY_MS));
        v.push(InputAction::MouseClick);
        v
    }

    /// Hold item bug: press the button, Escape, release the button, Escape, with
    /// short waits between.
    pub fn hold_item_bug() -> (v: Vec<InputAction>)
        ensures
            v@ == seq![
                InputAction::MouseHold(true),
                InputAction::Sleep(HOLD_ITEM_TAP_DELAY_MS),
                InputAction::KeyTap(SCAN_ESCAPE),
                InputAction::Sleep(HOLD_ITEM_TAP_DELAY_MS),
                InputAction::MouseHold(false),
                InputAction::Sleep(HOLD_ITEM_TAP_DELAY_MS),
                InputAction::KeyTap(SCAN_ESCAPE),
            ],
    {
        let mut v: Vec<InputAction> = Vec::new();
        v.push(InputAction::MouseHold(true));
        v.push(InputAction::Sleep(HOLD_ITEM_TAP_DELAY_MS));
        v.push(InputAction::KeyTap(SCAN_ESCAPE));
        v.push(InputAction::Sleep(HOLD_ITEM_TAP_DELAY_MS));
        v.push(InputAction::MouseHold(false));
        v.push(InputAction::Sleep(HOLD_ITEM_TAP_DELAY_MS));
        v.push(InputAction::KeyTap(SCAN_ESCAPE));
        v
    }

    /// Gangsta grip: press the button, Escape, release, the digit key `digit`
    /// (scan code `digit + 1`), Escape.
    pub fn gangsta_grip(digit: u32) -> (v: Vec<InputAction>)
        requires
            (digit as u16) < 0xFFFF,
        ensures
            v@ == seq![
                InputAction::MouseHold(true),
                InputAction::KeyTap(SCAN_ESCAPE),
                InputAction::MouseHold(false),
                InputAction::KeyTap(((digit as u16) + 1) as u16),
                InputAction::KeyTap(SCAN_ESCAPE),
            ],
    {
        let d: u16 = digit as u16;
        let mut v: Vec<InputAction> = Vec::new();
        v.push(InputAction::MouseHold(true));
        v.push(InputAction::KeyTap(SCAN_ESCAPE));
        v.push(InputAction::MouseHold(false));
        v.push(InputAction::KeyTap(d + 1));
        v.push(InputAction::KeyTap(SCAN_ESCAPE));
        v
    }

    /// Quick exit: Escape, then two clicks at fixed points of the menu, with waits.
    pub fn quick_exit(x_offset: i32, y_offset: i32) -> (v: Vec<InputAction>)
        requires
            offset_fits(x_offset, 722, y_offset, 731),
            offset_fits(x_offset, 719, y_offset, 546),
        ensures
            v@ == seq![
                InputAction::KeyTap(SCAN_ESCAPE),
                InputAction::Sleep(QUICK_EXIT_DELAY_MS),
                InputAction::MoveCursor { x: (x_offset + 722) as i32, y: (y_offset + 731) as i32 },
                InputAction::Sleep(QUICK_EXIT_DELAY_MS),
                InputAction::MouseClick,
                InputAction::Sleep(QUICK_EXIT_DELAY_MS),
                InputAction::MoveCursor { x: (x_offset + 719) as i32, y: (y_offset + 546) as i32 },
                InputAction::Sleep(QUICK_EXIT_DELAY_MS),
                InputAction::MouseClick,
            ],
    {
        let mut v: Vec<InputAction> = Vec::new();
        v.push(InputAction::KeyTap(SCAN_ESCAPE));
        v.push(InputAction::Sleep(QUICK_EXIT_DELAY_MS));
        v.push(InputAction::MoveCursor { x: x_offset + 722, y: y_offset + 731 });
        v.push(InputAction::Sleep(QUICK_EXIT_DELAY_MS));
        v.push(InputAction::MouseClick);
        v.push(InputAction::Sleep(QUICK_EXIT_DELAY_MS));
        v.push(InputAction::MoveCursor { x: x_offset + 719, y: y_offset + 546 });
        v.push(InputAction::Sleep(QUICK_EXIT_DELAY_MS));
        v.push(InputAction::MouseClick);
        v
    }

    /// Double click: two taps of the chosen button, a short wait apart.
    pub fn double_click(btn: DoubleClickButton) -> (v: Vec<InputAction>)
        ensures
            v@ == seq![
                InputAction::ButtonTap(btn),
                InputAction::Sleep(DOUBLE_CLICK_GAP_MS),
                InputAction::ButtonTap(btn),
            ],
    {
        let mut v: Vec<InputAction> = Vec::new();
        v.push(InputAction::ButtonTap(btn));
        v.push(InputAction::Sleep(DOUBLE_CLICK_GAP_MS));
        v.push(InputAction::ButtonTap(btn));
        v
    }
}

/// The geometry of a job lies within `i32` wherever the macro computes a point.
pub open spec fn message_fits(msg: WorkerMessage) -> bool {
    match msg {
        WorkerMessage::HackingClickMtd { x, y, w, h, offset_y } => hacking_target_fits(x, y, w, h, offset_y),
        WorkerMessage::HackingJumpMtd { x, y, w, h, offset_y } => hacking_target_fits(x, y, w, h, offset_y),
        WorkerMessage::HackingEscMtd { x, y, w, h, offset_y } => hacking_target_fits(x, y, w, h, offset_y),
        WorkerMessage::TipsSkip { x, w, y } => i32::MIN <= x + half(w) <= i32::MAX,
        WorkerMessage::Restart { x, w, y } => i32::MIN <= x + half(w) <= i32::MAX,
        WorkerMessage::GangstaGrip { digit } => (digit as u16) < 0xFFFF,
        WorkerMessage::QuickExit { x, y } => offset_fits(x, 722, y, 731) && offset_fits(x, 719, y, 546),
        _ => true,
    }
}

/// The macro that runs a job. The shift toggle has none: it changes the tool's state
/// and holds or releases shift (see `AppState::toggle_shift`).
pub fn message_plan(msg: WorkerMessage) -> (r: Option<Vec<InputAction>>)
    requires
        message_fits(msg),
    ensures
        match msg {
            WorkerMessage::ShiftToggle => r is None,
            _ => r is Some,
        },
        match (msg, r) {
            (WorkerMessage::NoFallDamage, Some(v)) => v@ == seq![
                InputAction::KeyTap(SCAN_ESCAPE),
                InputAction::Sleep(NO_FALL_DAMAGE_DELAY_MS),
                InputAction::KeyTap(SCAN_ESCAPE),
            ],
            (WorkerMessage::HackingClickMtd { x, y, w, h, offset_y }, Some(v)) => v@ == hacking_prefix(
                x,
                y,
                w,
                h,
                offset_y,
            ) + seq![
                InputAction::MoveCursor { x: (x + half(w)) as i32, y: y },
                InputAction::MouseClick,
            ],
            (WorkerMessage::HackingJumpMtd { x, y, w, h, offset_y }, Some(v)) => v@ == hacking_prefix(
                x,
                y,
                w,
                h,
                offset_y,
            ).push(InputAction::KeyTap(SCAN_SPACE)),
            (WorkerMessage::HackingEscMtd { x, y, w, h, offset_y }, Some(v)) => v@ == hacking_prefix(
                x,
                y,
                w,
                h,
                offset_y,
            ) + seq![
                InputAction::KeyTap(SCAN_ESCAPE),
                InputAction::Sleep(HACKING_ESC_GAP_MS),
                InputAction::KeyTap(SCAN_ESCAPE),
            ],
            (WorkerMessage::TipsSkip { x, w, y }, Some(v)) => v@ == seq![
                InputAction::BlockInput(true),
                InputAction::MoveCursor { x: (x + half(w)) as i32, y: y },
                InputAction::Sleep(RESTART_SETTLE_DELAY_MS),
                InputAction::MouseClick,
                InputAction::BlockInput(false),
            ],
            (WorkerMessage::Restart { x, w, y }, Some(v)) => v@ == seq![
                InputAction::BlockInput(true),
                InputAction::KeyTap(SCAN_ESCAPE),
                InputAction::Sleep(RESTART_KEY_DELAY_MS),
                InputAction::MoveCursor { x: (x + half(w)) as i32, y: y },
                InputAction::Sleep(RESTART_SETTLE_DELAY_MS),
                InputAction::MouseClick,
                InputAction::BlockInput(false),
            ],
            (WorkerMessage::FastLoadout, Some(v)) => v@ == seq![
                InputAction::WheelUp,
                InputAction::Sleep(MOUSE_CLICK_PRE_DELAY_MS),
                InputAction::MouseClick,
            ],
            (WorkerMessage::HoldItemBug, Some(v)) => v@ == seq![
                InputAction::MouseHold(true),
                InputAction::Sleep(HOLD_ITEM_TAP_DELAY_MS),
                InputAction::KeyTap(SCAN_ESCAPE),
                InputAction::Sleep(HOLD_ITEM_TAP_DELAY_MS),
                InputAction::MouseHold(false),
                InputAction::Sleep(HOLD_ITEM_TAP_DELAY_MS),
                InputAction::KeyTap(SCAN_ESCAPE),
            ],
            (WorkerMessage::GangstaGrip { digit }, Some(v)) => v@ == seq![
                InputAction::MouseHold(true),
                InputAction::KeyTap(SCAN_ESCAPE),
                InputAction::MouseHold(false),
                InputAction::KeyTap(((digit as u16) + 1) as u16),
                InputAction::KeyTap(SCAN_ESCAPE),
            ],
            (WorkerMessage::QuickExit { x, y }, Some(v)) => v@ == seq![
                InputAction::KeyTap(SCAN_ESCAPE),
                InputAction::Sleep(QUICK_EXIT_DELAY_MS),
                InputAction::MoveCursor { x: (x + 722) as i32, y: (y + 731) as i32 },
                InputAction::Sleep(QUICK_EXIT_DELAY_MS),
                InputAction::MouseClick,
                InputAction::Sleep(QUICK_EXIT_DELAY_MS),
                InputAction::MoveCursor { x: (x + 719) as i32, y: (y + 546) as i32 },
                InputAction::Sleep(QUICK_EXIT_DELAY_MS),
                InputAction::MouseClick,
            ],
            (WorkerMessage::DoubleClick(btn), Some(v)) => v@ == seq![
                InputAction::ButtonTap(btn),
                InputAction::Sleep(DOUBLE_CLICK_GAP_MS),
                InputAction::ButtonTap(btn),
            ],
            _ => true,
        },
{
    match msg {
        WorkerMessage::ShiftToggle => None,
        WorkerMessage::NoFallDamage => Some(Worker::no_fall_damage()),
        WorkerMessage::HackingClickMtd { x, y, w, h, offset_y } => Some(
            Worker::hacking_click_mtd(x, y, w, h, offset_y),
        ),
        WorkerMessage::HackingJumpMtd { x, y, w, h, offset_y } => Some(
            Worker::hacking_jump_mtd(x, y, w, h, offset_y),
        ),
        WorkerMessage::HackingEscMtd { x, y, w, h, offset_y } => Some(
            Worker::hacking_esc_mtd(x, y, w, h, offset_y),
        ),
        WorkerMessage::TipsSkip { x, w, y } => Some(Worker::tips_skip(x, w, y)),
        WorkerMessage::Restart { x, w, y } => Some(Worker::restart(x, w, y)),
        WorkerMessage::FastLoadout => Some(Worker::fast_loadout()),
        WorkerMessage::HoldItemBug => Some(Worker::hold_item_bug()),
        WorkerMessage::GangstaGrip { digit } => Some(Worker::gangsta_grip(digit)),
        WorkerMessage::QuickExit { x, y } => Some(Worker::quick_exit(x, y)),
        WorkerMessage::DoubleClick(btn) => Some(Worker::double_click(btn)),
    }
}

/// How many times the cursor is put in place before giving up.
pub const CURSOR_MAX_ATTEMPTS: u32 = 3;
/// Wait between two tries to put the cursor in place, in milliseconds.
pub const CURSOR_RETRY_DELAY_MS: u64 = 5;

/// What to do after a try to put the cursor in place.
#[derive(Clone, Copy, PartialEq, Eq, Debug, Structural)]
pub enum CursorRetry {
    /// Stop: the cursor is in place (`true`) or every try failed (`false`).
    Done(bool),
    /// Wait this many milliseconds and try again.
    RetryAfter(u64),
}

/// The decision after try number `attempt` (counting from 0) to put the cursor in
/// place: stop on success, retry after a short wait while tries remain, else give up.
pub fn set_cursor_pos_safe(attempt: u32, succeeded: bool) -> (r: CursorRetry)
    ensures
        r == (if succeeded {
            CursorRetry::Done(true)
        } else if attempt + 1 < CURSOR_MAX_ATTEMPTS {
            CursorRetry::RetryAfter(CURSOR_RETRY_DELAY_MS)
        } else {
            CursorRetry::Done(false)
        }),
{
    if succeeded {
        CursorRetry::Done(true)
    } else if attempt < CURSOR_MAX_ATTEMPTS - 1 {
        CursorRetry::RetryAfter(CURSOR_RETRY_DELAY_MS)
    } else {
        CursorRetry::Done(false)
    }
}


fn fits_i32(v: i64) -> (r: bool)
    ensures
        r == (i32::MIN <= v <= i32::MAX),
{
    -2147483648i64 <= v && v <= 2147483647i64
}

/// Whether a job's points lie within `i32` (see `message_fits`).
pub fn message_can_run(msg: WorkerMessage) -> (r: bool)
    ensures
        r == message_fits(msg),
{
    match msg {
        WorkerMessage::HackingClickMtd { x, y, w, h, offset_y }
        | WorkerMessage::HackingJumpMtd { x, y, w, h, offset_y }
        | WorkerMessage::HackingEscMtd { x, y, w, h, offset_y } => {
            let cx: i64 = x as i64 + (w / 2) as i64;
            let cy: i64 = y as i64 + (h / 2) as i64;
            let ty: i64 = cy + offset_y as i64;
            fits_i32(cx) && fits_i32(cy) && fits_i32(ty)
        },
        WorkerMessage::TipsSkip { x, w, y } | WorkerMessage::Restart { x, w, y } => {
            fits_i32(x as i64 + (w / 2) as i64)
        },
        WorkerMessage::GangstaGrip { digit } => (digit as u16) < 0xFFFF,
        WorkerMessage::QuickExit { x, y } => {
            fits_i32(x as i64 + 722) && fits_i32(y as i64 + 731) && fits_i32(x as i64 + 719) && fits_i32(
                y as i64 + 546,
            )
        },
        _ => true,
    }
}

} // verus!
