use vstd::prelude::*;
use crate::features::{BindKey, ConfigKey, Feature, FeatureId};
use crate::state::{clamp_digit, AppState, GlobalInputState};
use crate::text::{
    chars_between, chars_eq_str, chars_of, split_on, string_from_chars, trim_chars, trim_spec,
};

verus! {

/// The key of the configuration that a key of the user interface stands for, by the
/// interface key's English name; none for the keys that cannot be bound this way.
pub open spec fn ui_key_of_name(name: Seq<char>) -> Option<ConfigKey> {
    if name == seq!['A'] {
        Some(ConfigKey::KeyA)
    } else if name == seq!['B'] {
        Some(ConfigKey::KeyB)
    } else if name == seq!['C'] {
        Some(ConfigKey::KeyC)
    } else if name == seq!['D'] {
        Some(ConfigKey::KeyD)
    } else if name == seq!['E'] {
        Some(ConfigKey::KeyE)
    } else if name == seq!['F'] {
        Some(ConfigKey::KeyF)
    } else if name == seq!['G'] {
        Some(ConfigKey::KeyG)
    } else if name == seq!['H'] {
        Some(ConfigKey::KeyH)
    } else if name == seq!['I'] {
        Some(ConfigKey::KeyI)
    } else if name == seq!['J'] {
        Some(ConfigKey::KeyJ)
    } else if name == seq!['K'] {
        Some(ConfigKey::KeyK)
    } else if name == seq!['L'] {
        Some(ConfigKey::KeyL)
    } else if name == seq!['M'] {
        Some(ConfigKey::KeyM)
    } else if name == seq!['N'] {
        Some(ConfigKey::KeyN)
    } else if name == seq!['O'] {
        Some(ConfigKey::KeyO)
    } else if name == seq!['P'] {
        Some(ConfigKey::KeyP)
    } else if name == seq!['Q'] {
        Some(ConfigKey::KeyQ)
    } else if name == seq!['R'] {
        Some(ConfigKey::KeyR)
    } else if name == seq!['S'] {
        Some(ConfigKey::KeyS)
    } else if name == seq!['T'] {
        Some(ConfigKey::KeyT)
    } else if name == seq!['U'] {
        Some(ConfigKey::KeyU)
    } else if name == seq!['V'] {
        Some(ConfigKey::KeyV)
    } else if name == seq!['W'] {
        Some(ConfigKey::KeyW)
    } else if name == seq!['X'] {
        Some(ConfigKey::KeyX)
    } else if name == seq!['Y'] {
        Some(ConfigKey::KeyY)
    } else if name == seq!['Z'] {
        Some(ConfigKey::KeyZ)
    } else if name == seq!['0'] {
        Some(ConfigKey::Num0)
    } else if name == seq!['1'] {
        Some(ConfigKey::Num1)
    } else if name == seq!['2'] {
        Some(ConfigKey::Num2)
    } else if name == seq!['3'] {
        Some(ConfigKey::Num3)
    } else if name == seq!['4'] {
        Some(ConfigKey::Num4)
    } else if name == seq!['5'] {
        Some(ConfigKey::Num5)
    } else if name == seq!['6'] {
        Some(ConfigKey::Num6)
    } else if name == seq!['7'] {
        Some(ConfigKey::Num7)
    } else if name == seq!['8'] {
        Some(ConfigKey::Num8)
    } else if name == seq!['9'] {
        Some(ConfigKey::Num9)
    } else if name == seq!['F', '1'] {
        Some(ConfigKey::F1)
    } else if name == seq!['F', '2'] {
        Some(ConfigKey::F2)
    } else if name == seq!['F', '3'] {
        Some(ConfigKey::F3)
    } else if name == seq!['F', '4'] {
        Some(ConfigKey::F4)
    } else if name == seq!['F', '5'] {
        Some(ConfigKey::F5)
    } else if name == seq!['F', '6'] {
        Some(ConfigKey::F6)
    } else if name == seq!['F', '7'] {
        Some(ConfigKey::F7)
    } else if name == seq!['F', '8'] {
        Some(ConfigKey::F8)
    } else if name == seq!['F', '9'] {
        Some(ConfigKey::F9)
    } else if name == seq!['F', '1', '0'] {
        Some(ConfigKey::F10)
    } else if name == seq!['F', '1', '1'] {
        Some(ConfigKey::F11)
    } else if name == seq!['F', '1', '2'] {
        Some(ConfigKey::F12)
    } else if name == seq!['S', 'p', 'a', 'c', 'e'] {
        Some(ConfigKey::Space)
    } else if name == seq!['E', 'n', 't', 'e', 'r'] {
        Some(ConfigKey::Return)
    } else if name == seq!['E', 's', 'c', 'a', 'p', 'e'] {
        Some(ConfigKey::Escape)
    } else if name == seq!['T', 'a', 'b'] {
        Some(ConfigKey::Tab)
    } else if name == seq!['B', 'a', 'c', 'k', 's', 'p', 'a', 'c', 'e'] {
        Some(ConfigKey::Backspace)
    } else if name == seq!['I', 'n', 's', 'e', 'r', 't'] {
        Some(ConfigKey::Insert)
    } else if name == seq!['D', 'e', 'l', 'e', 't', 'e'] {
        Some(ConfigKey::Delete)
    } else if name == seq!['H', 'o', 'm', 'e'] {
        Some(ConfigKey::Home)
    } else if name == seq!['E', 'n', 'd'] {
        Some(ConfigKey::End)
    } else if name == seq!['P', 'a', 'g', 'e', 'U', 'p'] {
        Some(ConfigKey::PageUp)
    } else if name == seq!['P', 'a', 'g', 'e', 'D', 'o', 'w', 'n'] {
        Some(ConfigKey::PageDown)
    } else if name == seq!['L', 'e', 'f', 't'] {
        Some(ConfigKey::LeftArrow)
    } else if name == seq!['R', 'i', 'g', 'h', 't'] {
        Some(ConfigKey::RightArrow)
    } else if name == seq!['U', 'p'] {
        Some(ConfigKey::UpArrow)
    } else if name == seq!['D', 'o', 'w', 'n'] {
        Some(ConfigKey::DownArrow)
    } else {
        None
    }
}

/// Maps a key of the user interface, given by its English name (`egui::Key::name`), to
/// the key it binds.
pub fn egui_to_rdev_key(name: &str) -> (r: Option<ConfigKey>)
    ensures
        r == ui_key_of_name(name@),
{
    let cs = chars_of(name);
    let c = cs.as_slice();
    proof {
        reveal_strlit("A");
        assert("A"@ =~= seq!['A']);
        reveal_strlit("B");
        assert("B"@ =~= seq!['B']);
        reveal_strlit("C");
        assert("C"@ =~= seq!['C']);
        reveal_strlit("D");
        assert("D"@ =~= seq!['D']);
        reveal_strlit("E");
        assert("E"@ =~= seq!['E']);
        reveal_strlit("F");
        assert("F"@ =~= seq!['F']);
        reveal_strlit("G");
        assert("G"@ =~= seq!['G']);
        reveal_strlit("H");
        assert("H"@ =~= seq!['H']);
        reveal_strlit("I");
        assert("I"@ =~= seq!['I']);
        reveal_strlit("J");
        assert("J"@ =~= seq!['J']);
        reveal_strlit("K");
        assert("K"@ =~= seq!['K']);
        reveal_strlit("L");
        assert("L"@ =~= seq!['L']);
        reveal_strlit("M");
        assert("M"@ =~= seq!['M']);
        reveal_strlit("N");
        assert("N"@ =~= seq!['N']);
        reveal_strlit("O");
        assert("O"@ =~= seq!['O']);
        reveal_strlit("P");
        assert("P"@ =~= seq!['P']);
        reveal_strlit("Q");
        assert("Q"@ =~= seq!['Q']);
        reveal_strlit("R");
        assert("R"@ =~= seq!['R']);
        reveal_strlit("S");
        assert("S"@ =~= seq!['S']);
        reveal_strlit("T");
        assert("T"@ =~= seq!['T']);
        reveal_strlit("U");
        assert("U"@ =~= seq!['U']);
        reveal_strlit("V");
        assert("V"@ =~= seq!['V']);
        reveal_strlit("W");
        assert("W"@ =~= seq!['W']);
        reveal_strlit("X");
        assert("X"@ =~= seq!['X']);
        reveal_strlit("Y");
        assert("Y"@ =~= seq!['Y']);
        reveal_strlit("Z");
        assert("Z"@ =~= seq!['Z']);
        reveal_strlit("0");
        assert("0"@ =~= seq!['0']);
        reveal_strlit("1");
        assert("1"@ =~= seq!['1']);
        reveal_strlit("2");
        assert("2"@ =~= seq!['2']);
        reveal_strlit("3");
        assert("3"@ =~= seq!['3']);
        reveal_strlit("4");
        assert("4"@ =~= seq!['4']);
        reveal_strlit("5");
        assert("5"@ =~= seq!['5']);
        reveal_strlit("6");
        assert("6"@ =~= seq!['6']);
        reveal_strlit("7");
        assert("7"@ =~= seq!['7']);
        reveal_strlit("8");
        assert("8"@ =~= seq!['8']);
        reveal_strlit("9");
        assert("9"@ =~= seq!['9']);
        reveal_strlit("F1");
        assert("F1"@ =~= seq!['F', '1']);
        reveal_strlit("F2");
        assert("F2"@ =~= seq!['F', '2']);
        reveal_strlit("F3");
        assert("F3"@ =~= seq!['F', '3']);
        reveal_strlit("F4");
        assert("F4"@ =~= seq!['F', '4']);
        reveal_strlit("F5");
        assert("F5"@ =~= seq!['F', '5']);
        reveal_strlit("F6");
        assert("F6"@ =~= seq!['F', '6']);
        reveal_strlit("F7");
        assert("F7"@ =~= seq!['F', '7']);
        reveal_strlit("F8");
        assert("F8"@ =~= seq!['F', '8']);
        reveal_strlit("F9");
        assert("F9"@ =~= seq!['F', '9']);
        reveal_strlit("F10");
        assert("F10"@ =~= seq!['F', '1', '0']);
        reveal_strlit("F11");
        assert("F11"@ =~= seq!['F', '1', '1']);
        reveal_strlit("F12");
        assert("F12"@ =~= seq!['F', '1', '2']);
        reveal_strlit("Space");
        assert("Space"@ =~= seq!['S', 'p', 'a', 'c', 'e']);
        reveal_strlit("Enter");
        assert("Enter"@ =~= seq!['E', 'n', 't', 'e', 'r']);
        reveal_strlit("Escape");
        assert("Escape"@ =~= seq!['E', 's', 'c', 'a', 'p', 'e']);
        reveal_strlit("Tab");
        assert("Tab"@ =~= seq!['T', 'a', 'b']);
        reveal_strlit("Backspace");
        assert("Backspace"@ =~= seq!['B', 'a', 'c', 'k', 's', 'p', 'a', 'c', 'e']);
        reveal_strlit("Insert");
        assert("Insert"@ =~= seq!['I', 'n', 's', 'e', 'r', 't']);
        reveal_strlit("Delete");
        assert("Delete"@ =~= seq!['D', 'e', 'l', 'e', 't', 'e']);
        reveal_strlit("Home");
        assert("Home"@ =~= seq!['H', 'o', 'm', 'e']);
        reveal_strlit("End");
        assert("End"@ =~= seq!['E', 'n', 'd']);
        reveal_strlit("PageUp");
        assert("PageUp"@ =~= seq!['P', 'a', 'g', 'e', 'U', 'p']);
        reveal_strlit("PageDown");
        assert("PageDown"@ =~= seq!['P', 'a', 'g', 'e', 'D', 'o', 'w', 'n']);
        reveal_strlit("Left");
        assert("Left"@ =~= seq!['L', 'e', 'f', 't']);
        reveal_strlit("Right");
        assert("Right"@ =~= seq!['R', 'i', 'g', 'h', 't']);
        reveal_strlit("Up");
        assert("Up"@ =~= seq!['U', 'p']);
        reveal_strlit("Down");
        assert("Down"@ =~= seq!['D', 'o', 'w', 'n']);
    }
    if chars_eq_str(c, "A") {
        Some(ConfigKey::KeyA)
    } else if chars_eq_str(c, "B") {
        Some(ConfigKey::KeyB)
    } else if chars_eq_str(c, "C") {
        Some(ConfigKey::KeyC)
    } else if chars_eq_str(c, "D") {
        Some(ConfigKey::KeyD)
    } else if chars_eq_str(c, "E") {
        Some(ConfigKey::KeyE)
    } else if chars_eq_str(c, "F") {
        Some(ConfigKey::KeyF)
    } else if chars_eq_str(c, "G") {
        Some(ConfigKey::KeyG)
    } else if chars_eq_str(c, "H") {
        Some(ConfigKey::KeyH)
    } else if chars_eq_str(c, "I") {
        Some(ConfigKey::KeyI)
    } else if chars_eq_str(c, "J") {
        Some(ConfigKey::KeyJ)
    } else if chars_eq_str(c, "K") {
        Some(ConfigKey::KeyK)
    } else if chars_eq_str(c, "L") {
        Some(ConfigKey::KeyL)
    } else if chars_eq_str(c, "M") {
        Some(ConfigKey::KeyM)
    } else if chars_eq_str(c, "N") {
        Some(ConfigKey::KeyN)
    } else if chars_eq_str(c, "O") {
        Some(ConfigKey::KeyO)
    } else if chars_eq_str(c, "P") {
        Some(ConfigKey::KeyP)
    } else if chars_eq_str(c, "Q") {
        Some(ConfigKey::KeyQ)
    } else if chars_eq_str(c, "R") {
        Some(ConfigKey::KeyR)
    } else if chars_eq_str(c, "S") {
        Some(ConfigKey::KeyS)
    } else if chars_eq_str(c, "T") {
        Some(ConfigKey::KeyT)
    } else if chars_eq_str(c, "U") {
        Some(ConfigKey::KeyU)
    } else if chars_eq_str(c, "V") {
        Some(ConfigKey::KeyV)
    } else if chars_eq_str(c, "W") {
        Some(ConfigKey::KeyW)
    } else if chars_eq_str(c, "X") {
        Some(ConfigKey::KeyX)
    } else if chars_eq_str(c, "Y") {
        Some(ConfigKey::KeyY)
    } else if chars_eq_str(c, "Z") {
        Some(ConfigKey::KeyZ)
    } else if chars_eq_str(c, "0") {
        Some(ConfigKey::Num0)
    } else if chars_eq_str(c, "1") {
        Some(ConfigKey::Num1)
    } else if chars_eq_str(c, "2") {
        Some(ConfigKey::Num2)
    } else if chars_eq_str(c, "3") {
        Some(ConfigKey::Num3)
    } else if chars_eq_str(c, "4") {
        Some(ConfigKey::Num4)
    } else if chars_eq_str(c, "5") {
        Some(ConfigKey::Num5)
    } else if chars_eq_str(c, "6") {
        Some(ConfigKey::Num6)
    } else if chars_eq_str(c, "7") {
        Some(ConfigKey::Num7)
    } else if chars_eq_str(c, "8") {
        Some(ConfigKey::Num8)
    } else if chars_eq_str(c, "9") {
        Some(ConfigKey::Num9)
    } else if chars_eq_str(c, "F1") {
        Some(ConfigKey::F1)
    } else if chars_eq_str(c, "F2") {
        Some(ConfigKey::F2)
    } else if chars_eq_str(c, "F3") {
        Some(ConfigKey::F3)
    } else if chars_eq_str(c, "F4") {
        Some(ConfigKey::F4)
    } else if chars_eq_str(c, "F5") {
        Some(ConfigKey::F5)
    } else if chars_eq_str(c, "F6") {
        Some(ConfigKey::F6)
    } else if chars_eq_str(c, "F7") {
        Some(ConfigKey::F7)
    } else if chars_eq_str(c, "F8") {
        Some(ConfigKey::F8)
    } else if chars_eq_str(c, "F9") {
        Some(ConfigKey::F9)
    } else if chars_eq_str(c, "F10") {
        Some(ConfigKey::F10)
    } else if chars_eq_str(c, "F11") {
        Some(ConfigKey::F11)
    } else if chars_eq_str(c, "F12") {
        Some(ConfigKey::F12)
    } else if chars_eq_str(c, "Space") {
        Some(ConfigKey::Space)
    } else if chars_eq_str(c, "Enter") {
        Some(ConfigKey::Return)
    } else if chars_eq_str(c, "Escape") {
        Some(ConfigKey::Escape)
    } else if chars_eq_str(c, "Tab") {
        Some(ConfigKey::Tab)
    } else if chars_eq_str(c, "Backspace") {
        Some(ConfigKey::Backspace)
    } else if chars_eq_str(c, "Insert") {
        Some(ConfigKey::Insert)
    } else if chars_eq_str(c, "Delete") {
        Some(ConfigKey::Delete)
    } else if chars_eq_str(c, "Home") {
        Some(ConfigKey::Home)
    } else if chars_eq_str(c, "End") {
        Some(ConfigKey::End)
    } else if chars_eq_str(c, "PageUp") {
        Some(ConfigKey::PageUp)
    } else if chars_eq_str(c, "PageDown") {
        Some(ConfigKey::PageDown)
    } else if chars_eq_str(c, "Left") {
        Some(ConfigKey::LeftArrow)
    } else if chars_eq_str(c, "Right") {
        Some(ConfigKey::RightArrow)
    } else if chars_eq_str(c, "Up") {
        Some(ConfigKey::UpArrow)
    } else if chars_eq_str(c, "Down") {
        Some(ConfigKey::DownArrow)
    } else {
        None
    }
}


/// A key event that the user interface reports.
pub struct KeyEvent {
    /// The English name of the key (`egui::Key::name`).
    pub name: String,
    pub pressed: bool,
    pub ctrl: bool,
    pub shift: bool,
    pub alt: bool,
}

/// A key chosen while a binding is being picked.
#[derive(Clone, Copy, PartialEq, Eq, Debug, Structural)]
pub enum KeyChoice {
    /// Escape: stop picking.
    Escape,
    /// A key to bind.
    Key(ConfigKey),
}

/// The choice a key event makes: only presses without ctrl, shift or alt count, and
/// only of Escape or of a key that can be bound.
pub open spec fn key_event_choice(e: KeyEvent) -> Option<KeyChoice> {
    if e.pressed && !e.ctrl && !e.shift && !e.alt {
        if e.name@ == seq!['E', 's', 'c', 'a', 'p', 'e'] {
            Some(KeyChoice::Escape)
        } else {
            match ui_key_of_name(e.name@) {
                Some(k) => Some(KeyChoice::Key(k)),
                None => None,
            }
        }
    } else {
        None
    }
}

/// The choice of the first event that makes one.
pub open spec fn first_key_choice(events: Seq<KeyEvent>) -> Option<KeyChoice>
    decreases events.len(),
{
    if events.len() == 0 {
        None
    } else {
        match key_event_choice(events[0]) {
            Some(c) => Some(c),
            None => first_key_choice(events.skip(1)),
        }
    }
}

/// Some event of the frame is a press of Escape without ctrl, shift or alt.
pub open spec fn has_escape_press(events: Seq<KeyEvent>) -> bool {
    exists|i: int| 0 <= i < events.len() && key_event_choice(#[trigger] events[i]) == Some(KeyChoice::Escape)
}

/// The choice a frame's key events make: Escape first, wherever it stands among them;
/// otherwise the choice of the first event that makes one.
pub open spec fn frame_key_choice(events: Seq<KeyEvent>) -> Option<KeyChoice> {
    if has_escape_press(events) {
        Some(KeyChoice::Escape)
    } else {
        first_key_choice(events)
    }
}

/// The choice one key event makes.
pub fn key_choice(e: &KeyEvent) -> (r: Option<KeyChoice>)
    ensures
        r == key_event_choice(*e),
{
    if e.pressed && !e.ctrl && !e.shift && !e.alt {
        let cs = chars_of(e.name.as_str());
        proof {
            reveal_strlit("Escape");
            assert("Escape"@ =~= seq!['E', 's', 'c', 'a', 'p', 'e']);
        }
        if chars_eq_str(cs.as_slice(), "Escape") {
            Some(KeyChoice::Escape)
        } else {
            match egui_to_rdev_key(e.name.as_str()) {
                Some(k) => Some(KeyChoice::Key(k)),
                None => None,
            }
        }
    } else {
        None
    }
}

/// The choice of a frame's key events (see `frame_key_choice`): a press of Escape
/// cancels even when another key was pressed before it in the same frame.
pub fn pick_key_choice(events: &Vec<KeyEvent>) -> (r: Option<KeyChoice>)
    ensures
        r == frame_key_choice(events@),
{
    let n: usize = events.len();
    for i in 0..n
        invariant
            n == events@.len(),
            forall|j: int| 0 <= j < i ==> key_event_choice(#[trigger] events@[j]) != Some(KeyChoice::Escape),
    {
        if key_choice(&events[i]) == Some(KeyChoice::Escape) {
            assert(key_event_choice(events@[i as int]) == Some(KeyChoice::Escape));
            return Some(KeyChoice::Escape);
        }
    }
    assert(!has_escape_press(events@));
    assert(events@.skip(0) == events@);
    for i in 0..n
        invariant
            n == events@.len(),
            !has_escape_press(events@),
            first_key_choice(events@) == first_key_choice(events@.skip(i as int)),
    {
        assert(events@.skip(i as int)[0] == events@[i as int]);
        assert(events@.skip(i as int).skip(1) == events@.skip(i + 1));
        match key_choice(&events[i]) {
            Some(c) => {
                return Some(c);
            },
            None => {},
        }
    }
    None
}

/// Which modifier keys and extra mouse buttons are held.
#[derive(Clone, Copy, PartialEq, Eq, Debug, Structural)]
pub struct HeldInputs {
    pub ctrl: bool,
    pub shift: bool,
    pub alt: bool,
    pub capslock: bool,
    pub mouse_mid: bool,
    pub mouse4: bool,
    pub mouse5: bool,
}

/// The window of the tool: remembers which modifier keys and extra mouse buttons were
/// held at the last frame, to see them go down.
pub struct KeyBindApp {
    pub prev_ctrl: bool,
    pub prev_shift: bool,
    pub prev_alt: bool,
    pub prev_capslock: bool,
    pub prev_mouse_mid: bool,
    pub prev_mouse4: bool,
    pub prev_mouse5: bool,
}

/// What picking a binding gave in one frame.
#[derive(Clone, Copy, PartialEq, Eq, Debug, Structural)]
pub enum BindSelection {
    /// Nothing yet.
    Nothing,
    /// Picking was cancelled.
    Cancel,
    /// This key or button was picked.
    Bind(BindKey),
}

/// The pick of a frame: a modifier or extra mouse button that has just gone down (in
/// the order ctrl, shift, alt, caps lock, middle, fourth, fifth button), else the key
/// chosen.
pub open spec fn selection_of(app: KeyBindApp, held: HeldInputs, choice: Option<KeyChoice>) -> BindSelection {
    if held.ctrl && !app.prev_ctrl {
        BindSelection::Bind(BindKey::Keyboard(ConfigKey::ControlLeft))
    } else if held.shift && !app.prev_shift {
        BindSelection::Bind(BindKey::Keyboard(ConfigKey::ShiftLeft))
    } else if held.alt && !app.prev_alt {
        BindSelection::Bind(BindKey::Keyboard(ConfigKey::Alt))
    } else if held.capslock && !app.prev_capslock {
        BindSelection::Bind(BindKey::Keyboard(ConfigKey::CapsLock))
    } else if held.mouse_mid && !app.prev_mouse_mid {
        BindSelection::Bind(BindKey::MouseMiddle)
    } else if held.mouse4 && !app.prev_mouse4 {
        BindSelection::Bind(BindKey::Mouse4)
    } else if held.mouse5 && !app.prev_mouse5 {
        BindSelection::Bind(BindKey::Mouse5)
    } else {
        match choice {
            Some(KeyChoice::Escape) => BindSelection::Cancel,
            Some(KeyChoice::Key(k)) => BindSelection::Bind(BindKey::Keyboard(k)),
            None => BindSelection::Nothing,
        }
    }
}

/// Input `b` has just gone down: it is held now and was not at the last frame. Only left
/// control, left shift, alt, caps lock and the middle, fourth and fifth mouse buttons
/// are watched this way.
pub open spec fn freshly_pressed(app: KeyBindApp, held: HeldInputs, b: BindKey) -> bool {
    match b {
        BindKey::Keyboard(ConfigKey::ControlLeft) => held.ctrl && !app.prev_ctrl,
        BindKey::Keyboard(ConfigKey::ShiftLeft) => held.shift && !app.prev_shift,
        BindKey::Keyboard(ConfigKey::Alt) => held.alt && !app.prev_alt,
        BindKey::Keyboard(ConfigKey::CapsLock) => held.capslock && !app.prev_capslock,
        BindKey::Keyboard(_) => false,
        BindKey::MouseMiddle => held.mouse_mid && !app.prev_mouse_mid,
        BindKey::Mouse4 => held.mouse4 && !app.prev_mouse4,
        BindKey::Mouse5 => held.mouse5 && !app.prev_mouse5,
    }
}

/// What picking a binding gives, in terms of what was pressed:
/// - a binding is only ever something that has just gone down, or the key chosen;
/// - when exactly one watched input has just gone down, it is bound, whatever key was
///   chosen;
/// - when none has, Escape cancels, a chosen key is bound, and otherwise nothing happens.
pub proof fn lemma_selection_binds_what_was_pressed(app: KeyBindApp, held: HeldInputs, choice: Option<KeyChoice>)
    ensures
        selection_of(app, held, choice) matches BindSelection::Bind(b) ==> freshly_pressed(app, held, b) || choice
            == Some(KeyChoice::Key(b->Keyboard_0)) && b is Keyboard,
        forall|b: BindKey|
            #![trigger freshly_pressed(app, held, b)]
            freshly_pressed(app, held, b) && (forall|c: BindKey| #[trigger] freshly_pressed(app, held, c) ==> c == b)
                ==> selection_of(app, held, choice) == BindSelection::Bind(b),
        (forall|c: BindKey| !#[trigger] freshly_pressed(app, held, c)) ==> selection_of(app, held, choice) == (
        match choice {
            Some(KeyChoice::Escape) => BindSelection::Cancel,
            Some(KeyChoice::Key(k)) => BindSelection::Bind(BindKey::Keyboard(k)),
            None => BindSelection::Nothing,
        }),
{
    let ctrl = BindKey::Keyboard(ConfigKey::ControlLeft);
    let shift = BindKey::Keyboard(ConfigKey::ShiftLeft);
    let alt = BindKey::Keyboard(ConfigKey::Alt);
    let caps = BindKey::Keyboard(ConfigKey::CapsLock);
    assert(freshly_pressed(app, held, ctrl) == (held.ctrl && !app.prev_ctrl));
    assert(freshly_pressed(app, held, shift) == (held.shift && !app.prev_shift));
    assert(freshly_pressed(app, held, alt) == (held.alt && !app.prev_alt));
    assert(freshly_pressed(app, held, caps) == (held.capslock && !app.prev_capslock));
    assert(freshly_pressed(app, held, BindKey::MouseMiddle) == (held.mouse_mid && !app.prev_mouse_mid));
    assert(freshly_pressed(app, held, BindKey::Mouse4) == (held.mouse4 && !app.prev_mouse4));
    assert(freshly_pressed(app, held, BindKey::Mouse5) == (held.mouse5 && !app.prev_mouse5));
}

impl KeyBindApp {
    /// A window that has seen nothing held yet.
    pub fn new() -> (app: KeyBindApp)
        ensures
            !app.prev_ctrl && !app.prev_shift && !app.prev_alt && !app.prev_capslock,
            !app.prev_mouse_mid && !app.prev_mouse4 && !app.prev_mouse5,
    {
        KeyBindApp {
            prev_ctrl: false,
            prev_shift: false,
            prev_alt: false,
            prev_capslock: false,
            prev_mouse_mid: false,
            prev_mouse4: false,
            prev_mouse5: false,
        }
    }

    /// One frame of picking a binding (see `selection_of`); remembers what is held now.
    pub fn select_bind(&mut self, held: HeldInputs, choice: Option<KeyChoice>) -> (r: BindSelection)
        ensures
            r == selection_of(*old(self), held, choice),
            final(self).prev_ctrl == held.ctrl,
            final(self).prev_shift == held.shift,
            final(self).prev_alt == held.alt,
            final(self).prev_capslock == held.capslock,
            final(self).prev_mouse_mid == held.mouse_mid,
            final(self).prev_mouse4 == held.mouse4,
            final(self).prev_mouse5 == held.mouse5,
    {
        let r = if held.ctrl && !self.prev_ctrl {
            BindSelection::Bind(BindKey::Keyboard(ConfigKey::ControlLeft))
        } else if held.shift && !self.prev_shift {
            BindSelection::Bind(BindKey::Keyboard(ConfigKey::ShiftLeft))
        } else if held.alt && !self.prev_alt {
            BindSelection::Bind(BindKey::Keyboard(ConfigKey::Alt))
        } else if held.capslock && !self.prev_capslock {
            BindSelection::Bind(BindKey::Keyboard(ConfigKey::CapsLock))
        } else if held.mouse_mid && !self.prev_mouse_mid {
            BindSelection::Bind(BindKey::MouseMiddle)
        } else if held.mouse4 && !self.prev_mouse4 {
            BindSelection::Bind(BindKey::Mouse4)
        } else if held.mouse5 && !self.prev_mouse5 {
            BindSelection::Bind(BindKey::Mouse5)
        } else {
            match choice {
                Some(KeyChoice::Escape) => BindSelection::Cancel,
                Some(KeyChoice::Key(k)) => BindSelection::Bind(BindKey::Keyboard(k)),
                None => BindSelection::Nothing,
            }
        };
        self.prev_ctrl = held.ctrl;
        self.prev_shift = held.shift;
        self.prev_alt = held.alt;
        self.prev_capslock = held.capslock;
        self.prev_mouse_mid = held.mouse_mid;
        self.prev_mouse4 = held.mouse4;
        self.prev_mouse5 = held.mouse5;
        r
    }

    /// Closing the window: tells the input listener to stop, and gives the hook
    /// threads that are running (to be told to quit).
    pub fn shutdown(g: &mut GlobalInputState) -> (r: (Option<u32>, Option<u32>))
        ensures
            *final(g) == (GlobalInputState { rdev_shutdown: true, ..*old(g) }),
            r.0 == (if old(g).mouse_hook_thread_id != 0 { Some(old(g).mouse_hook_thread_id) } else { None::<u32> }),
            r.1 == (if old(g).keyboard_hook_thread_id != 0 {
                Some(old(g).keyboard_hook_thread_id)
            } else {
                None::<u32>
            }),
    {
        g.rdev_shutdown = true;
        let m = if g.mouse_hook_thread_id != 0 { Some(g.mouse_hook_thread_id) } else { None };
        let k = if g.keyboard_hook_thread_id != 0 { Some(g.keyboard_hook_thread_id) } else { None };
        (m, k)
    }
}

/// A copy of a feature with another binding, on/off state and picking state.
fn feature_with(f: &Feature, bind_key: Option<BindKey>, enabled: bool, selecting: bool) -> (r: Feature)
    ensures
        r == (Feature { id: f.id, name: f.name, bind_key, enabled, selecting }),
{
    Feature { id: f.id, name: f.name.clone(), bind_key, enabled, selecting }
}

/// `k` is the first feature whose binding is being picked.
pub open spec fn is_first_selecting(fs: Seq<Feature>, k: int) -> bool {
    &&& 0 <= k < fs.len()
    &&& fs[k].selecting
    &&& forall|j: int| 0 <= j < k ==> !fs[j].selecting
}

/// What the caller still has to do after a feature's row changed.
#[derive(Clone, Copy, PartialEq, Eq, Debug, Structural)]
pub struct RowEffects {
    /// Release the shift key that the shift toggle held.
    pub release_shift: bool,
    /// Release the left mouse button that was being held.
    pub release_mouse: bool,
}

/// The colour of a feature's on/off button.
#[derive(Clone, Copy, PartialEq, Eq, Debug, Structural)]
pub enum RowColor {
    Green,
    Red,
    Blue,
}

/// On shows green and off red; a feature that is on and currently active (shift held,
/// button held, or every macro switched off) shows blue.
pub open spec fn row_color(f: Feature, shift_held: bool, g: GlobalInputState) -> RowColor {
    if f.enabled && ((f.id == FeatureId::ShiftToggle && shift_held) || (f.id == FeatureId::KeepItemClicker
        && g.lmb_hold_active) || (f.id == FeatureId::ToggleAllMacros && g.all_macros_disabled)) {
        RowColor::Blue
    } else if f.enabled {
        RowColor::Green
    } else {
        RowColor::Red
    }
}

/// The text on a feature's key button.
pub open spec fn key_button_text(f: Feature) -> Seq<char> {
    if f.selecting {
        "Waiting..."@
    } else {
        match f.bind_key {
            Some(b) => crate::features::bind_key_label(b),
            None => "Select Key"@,
        }
    }
}

/// The text on a feature's key button: the binding, or what to do.
pub fn feature_key_text(f: &Feature) -> (r: String)
    ensures
        r@ == key_button_text(*f),
{
    if f.selecting {
        "Waiting...".to_owned()
    } else {
        match &f.bind_key {
            Some(b) => b.to_string(),
            None => "Select Key".to_owned(),
        }
    }
}

impl AppState {
    /// The first feature whose binding is being picked.
    pub fn selecting_feature(&self) -> (r: Option<usize>)
        ensures
            match r {
                Some(k) => is_first_selecting(self.features@, k as int),
                None => forall|k: int| 0 <= k < self.features@.len() ==> !self.features@[k].selecting,
            },
    {
        let n: usize = self.features.len();
        for i in 0..n
            invariant
                n == self.features@.len(),
                forall|j: int| 0 <= j < i ==> !self.features@[j].selecting,
        {
            if self.features[i].selecting {
                return Some(i);
            }
        }
        None
    }

    /// Starts picking a binding for feature `i`.
    pub fn start_selecting(&mut self, i: usize)
        requires
            i < old(self).features@.len(),
        ensures
            final(self).features@ == old(self).features@.update(
                i as int,
                Feature { selecting: true, ..old(self).features@[i as int] },
            ),
    {
        let f = feature_with(&self.features[i], self.features[i].bind_key, self.features[i].enabled, true);
        self.features.set(i, f);
    }

    /// Takes the result of a frame of picking for feature `i`: a cancel stops picking,
    /// a pick binds the key and stops picking. Gives whether to save.
    pub fn apply_selection(&mut self, i: usize, sel: BindSelection) -> (save: bool)
        requires
            i < old(self).features@.len(),
        ensures
            save == (sel is Bind),
            final(self).features@ == (match sel {
                BindSelection::Nothing => old(self).features@,
                BindSelection::Cancel => old(self).features@.update(
                    i as int,
                    Feature { selecting: false, ..old(self).features@[i as int] },
                ),
                BindSelection::Bind(b) => old(self).features@.update(
                    i as int,
                    Feature { bind_key: Some(b), selecting: false, ..old(self).features@[i as int] },
                ),
            }),
    {
        match sel {
            BindSelection::Nothing => false,
            BindSelection::Cancel => {
                let f = feature_with(&self.features[i], self.features[i].bind_key, self.features[i].enabled, false);
                self.features.set(i, f);
                false
            },
            BindSelection::Bind(b) => {
                let f = feature_with(&self.features[i], Some(b), self.features[i].enabled, false);
                self.features.set(i, f);
                true
            },
        }
    }

    /// The "Reset" button of feature `i`: unbinds it and switches it off; the shift
    /// toggle lets go of shift and the left-button hold stops. Gives what is left to do.
    pub fn reset_feature(&mut self, g: &mut GlobalInputState, i: usize) -> (r: RowEffects)
        requires
            i < old(self).features@.len(),
        ensures
            ({
                let f = old(self).features@[i as int];
                &&& final(self).features@ == old(self).features@.update(
                    i as int,
                    Feature { bind_key: None, enabled: false, selecting: false, ..f },
                )
                &&& r.release_shift == (f.id == FeatureId::ShiftToggle && old(self).shift_held)
                &&& final(self).shift_held == (old(self).shift_held && f.id != FeatureId::ShiftToggle)
                &&& r.release_mouse == (f.id == FeatureId::KeepItemClicker)
                &&& *final(g) == (if f.id == FeatureId::KeepItemClicker {
                    GlobalInputState { lmb_hold_active: false, ..*old(g) }
                } else {
                    *old(g)
                })
            }),
    {
        let id = self.features[i].id;
        let mut fx = RowEffects { release_shift: false, release_mouse: false };
        if id == FeatureId::ShiftToggle {
            fx.release_shift = self.release_shift();
        }
        if id == FeatureId::KeepItemClicker {
            g.lmb_hold_active = false;
            fx.release_mouse = true;
        }
        let f = feature_with(&self.features[i], None, false, false);
        self.features.set(i, f);
        fx
    }

    /// The on/off button of feature `i`: only a bound feature switches. Switching off
    /// the shift toggle lets go of shift, switching off the left-button hold stops it,
    /// and switching off the all-macros toggle switches the macros back on. Gives what
    /// is left to do, or nothing when the feature is unbound.
    pub fn toggle_feature_enabled(&mut self, g: &mut GlobalInputState, i: usize) -> (r: Option<RowEffects>)
        requires
            i < old(self).features@.len(),
        ensures
            ({
                let f = old(self).features@[i as int];
                let off = f.enabled;
                if f.bind_key is None {
                    r is None && final(self).features@ == old(self).features@ && final(self).shift_held
                        == old(self).shift_held && *final(g) == *old(g)
                } else {
                    &&& final(self).features@ == old(self).features@.update(
                        i as int,
                        Feature { enabled: !f.enabled, ..f },
                    )
                    &&& r == Some(
                        RowEffects {
                            release_shift: off && f.id == FeatureId::ShiftToggle && old(self).shift_held,
                            release_mouse: off && f.id == FeatureId::KeepItemClicker,
                        },
                    )
                    &&& final(self).shift_held == (old(self).shift_held && !(off && f.id
                        == FeatureId::ShiftToggle))
                    &&& *final(g) == (if off && f.id == FeatureId::KeepItemClicker {
                        GlobalInputState { lmb_hold_active: false, ..*old(g) }
                    } else if off && f.id == FeatureId::ToggleAllMacros {
                        GlobalInputState { all_macros_disabled: false, ..*old(g) }
                    } else {
                        *old(g)
                    })
                }
            }),
    {
        if self.features[i].bind_key.is_none() {
            return None;
        }
        let id = self.features[i].id;
        let now_enabled = !self.features[i].enabled;
        let f = feature_with(&self.features[i], self.features[i].bind_key, now_enabled, self.features[i].selecting);
        self.features.set(i, f);
        let mut fx = RowEffects { release_shift: false, release_mouse: false };
        if !now_enabled {
            if id == FeatureId::ShiftToggle {
                fx.release_shift = self.release_shift();
            }
            if id == FeatureId::KeepItemClicker {
                g.lmb_hold_active = false;
                fx.release_mouse = true;
            }
            if id == FeatureId::ToggleAllMacros {
                g.all_macros_disabled = false;
            }
        }
        Some(fx)
    }

    /// The colour of feature `i`'s on/off button (see `row_color`).
    pub fn feature_row_color(&self, g: &GlobalInputState, i: usize) -> (r: RowColor)
        requires
            i < self.features@.len(),
        ensures
            r == row_color(self.features@[i as int], self.shift_held, *g),
    {
        let f = &self.features[i];
        let mut color = if f.enabled { RowColor::Green } else { RowColor::Red };
        if f.id == FeatureId::ShiftToggle && self.shift_held && f.enabled {
            color = RowColor::Blue;
        }
        if f.id == FeatureId::KeepItemClicker && g.lmb_hold_active && f.enabled {
            color = RowColor::Blue;
        }
        if f.id == FeatureId::ToggleAllMacros && g.all_macros_disabled && f.enabled {
            color = RowColor::Blue;
        }
        color
    }

    /// Takes a new Gangsta Grip digit from the user: 6969 opens the developer tools
    /// (and sets the digit to 3); any other value is kept between 1 and 3.
    pub fn set_gun_tool_digit(&mut self, val: u32)
        ensures
            final(self).gun_tool_digit == (if val == 6969 { 3 } else { clamp_digit(val) }),
            final(self).dev_mode == (old(self).dev_mode || val == 6969),
            final(self).features == old(self).features,
    {
        if val == 6969 {
            self.dev_mode = true;
            self.gun_tool_digit = 3;
        } else {
            self.gun_tool_digit = if val < 1 {
                1
            } else if val > 3 {
                3
            } else {
                val
            };
        }
    }
}


/// The lines of a text, as `str::lines` splits it: the pieces between its line feeds,
/// a final line feed ending the last line rather than starting an empty one. (A line
/// here keeps the carriage return of a CR LF ending; the lines are trimmed before use,
/// which removes it as `str::lines` would.)
pub open spec fn text_lines(s: Seq<char>) -> Seq<Seq<char>> {
    if s.len() == 0 {
        Seq::empty()
    } else if s.last() == '\n' {
        split_on(s, '\n').drop_last()
    } else {
        split_on(s, '\n')
    }
}

/// A line of release notes, as it is shown.
#[derive(PartialEq, Eq)]
pub enum MarkdownLine {
    /// An empty line: some space.
    Blank,
    /// A `# ` line: a heading.
    Heading(String),
    /// A `## ` line: a smaller heading.
    Heading2(String),
    /// A `### ` line: the smallest heading.
    Heading3(String),
    /// Any other line: text with inline styles, after a bullet for `* ` and `- ` lines.
    Item { bullet: bool, text: String },
}

/// What a line of release notes is shown as.
pub enum MarkdownLineView {
    Blank,
    Heading(Seq<char>),
    Heading2(Seq<char>),
    Heading3(Seq<char>),
    Item(bool, Seq<char>),
}

impl View for MarkdownLine {
    type V = MarkdownLineView;

    open spec fn view(&self) -> MarkdownLineView {
        match self {
            MarkdownLine::Blank => MarkdownLineView::Blank,
            MarkdownLine::Heading(t) => MarkdownLineView::Heading(t@),
            MarkdownLine::Heading2(t) => MarkdownLineView::Heading2(t@),
            MarkdownLine::Heading3(t) => MarkdownLineView::Heading3(t@),
            MarkdownLine::Item { bullet, text } => MarkdownLineView::Item(*bullet, text@),
        }
    }
}

/// What a trimmed line is shown as.
pub open spec fn classify_line(t: Seq<char>) -> MarkdownLineView {
    if t.len() == 0 {
        MarkdownLineView::Blank
    } else if t.len() >= 2 && t.take(2) == seq!['#', ' '] {
        MarkdownLineView::Heading(t.skip(2))
    } else if t.len() >= 3 && t.take(3) == seq!['#', '#', ' '] {
        MarkdownLineView::Heading2(t.skip(3))
    } else if t.len() >= 4 && t.take(4) == seq!['#', '#', '#', ' '] {
        MarkdownLineView::Heading3(t.skip(4))
    } else if t.len() >= 2 && (t.take(2) == seq!['*', ' '] || t.take(2) == seq!['-', ' ']) {
        MarkdownLineView::Item(true, t.skip(2))
    } else {
        MarkdownLineView::Item(false, t)
    }
}

/// What a text of release notes is shown as, line by line.
pub open spec fn markdown_view(s: Seq<char>) -> Seq<MarkdownLineView> {
    text_lines(s).map_values(|l: Seq<char>| classify_line(trim_spec(l)))
}

/// The characters of `t` from position `k` on, as a string.
fn string_from(t: &Vec<char>, k: usize) -> (r: String)
    requires
        k <= t@.len(),
    ensures
        r@ == t@.skip(k as int),
{
    let rest = chars_between(t.as_slice(), k, t.len());
    assert(t@.subrange(k as int, t@.len() as int) == t@.skip(k as int));
    string_from_chars(rest.as_slice())
}

/// How one line is shown.
fn classify(line: &[char]) -> (r: MarkdownLine)
    ensures
        r@ == classify_line(trim_spec(line@)),
{
    let t = trim_chars(line);
    let n: usize = t.len();
    if n == 0 {
        return MarkdownLine::Blank;
    }
    if n >= 2 && t[0] == '#' && t[1] == ' ' {
        assert(t@.take(2) =~= seq!['#', ' ']);
        return MarkdownLine::Heading(string_from(&t, 2));
    }
    assert(!(n >= 2 && t@.take(2) == seq!['#', ' '])) by {
        if n >= 2 && t@.take(2) == seq!['#', ' '] {
            assert(t@[0] == t@.take(2)[0] && t@[1] == t@.take(2)[1]);
        }
    }
    if n >= 3 && t[0] == '#' && t[1] == '#' && t[2] == ' ' {
        assert(t@.take(3) =~= seq!['#', '#', ' ']);
        return MarkdownLine::Heading2(string_from(&t, 3));
    }
    assert(!(n >= 3 && t@.take(3) == seq!['#', '#', ' '])) by {
        if n >= 3 && t@.take(3) == seq!['#', '#', ' '] {
            assert(t@[0] == t@.take(3)[0] && t@[1] == t@.take(3)[1] && t@[2] == t@.take(3)[2]);
        }
    }
    if n >= 4 && t[0] == '#' && t[1] == '#' && t[2] == '#' && t[3] == ' ' {
        assert(t@.take(4) =~= seq!['#', '#', '#', ' ']);
        return MarkdownLine::Heading3(string_from(&t, 4));
    }
    assert(!(n >= 4 && t@.take(4) == seq!['#', '#', '#', ' '])) by {
        if n >= 4 && t@.take(4) == seq!['#', '#', '#', ' '] {
            assert(t@[0] == t@.take(4)[0] && t@[1] == t@.take(4)[1] && t@[2] == t@.take(4)[2] && t@[3]
                == t@.take(4)[3]);
        }
    }
    if n >= 2 && (t[0] == '*' || t[0] == '-') && t[1] == ' ' {
        assert(t@.take(2) =~= seq![t@[0], ' ']);
        return MarkdownLine::Item { bullet: true, text: string_from(&t, 2) };
    }
    assert(!(n >= 2 && (t@.take(2) == seq!['*', ' '] || t@.take(2) == seq!['-', ' ']))) by {
        if n >= 2 && (t@.take(2) == seq!['*', ' '] || t@.take(2) == seq!['-', ' ']) {
            assert(t@[0] == t@.take(2)[0] && t@[1] == t@.take(2)[1]);
        }
    }
    MarkdownLine::Item { bullet: false, text: string_from_chars(t.as_slice()) }
}

/// Lays out release notes line by line: each line is trimmed; an empty line is
/// space, `# `, `## ` and `### ` start headings, `* ` and `- ` start bulleted text,
/// and any other line is plain text.
pub fn render_markdown(text: &str) -> (r: Vec<MarkdownLine>)
    ensures
        r@.map_values(|l: MarkdownLine| l@) == markdown_view(text@),
{
    let cs = chars_of(text);
    let n: usize = cs.len();
    let mut out: Vec<MarkdownLine> = Vec::new();
    let mut start: usize = 0;
    let ghost mut done: Seq<Seq<char>> = Seq::empty();
    assert(cs@.take(0) =~= Seq::<char>::empty());
    assert(cs@.subrange(0, 0) =~= Seq::<char>::empty());
    assert(split_on(Seq::<char>::empty(), '\n') =~= seq![Seq::<char>::empty()]);
    for i in 0..n
        invariant
            n == cs@.len(),
            cs@ == text@,
            start <= i,
            split_on(cs@.take(i as int), '\n') == done.push(cs@.subrange(start as int, i as int)),
            out@.len() == done.len(),
            forall|j: int| 0 <= j < done.len() ==> #[trigger] out@[j]@ == classify_line(trim_spec(done[j])),
            i > 0 ==> (cs@[i - 1] == '\n' <==> start == i),
    {
        assert(cs@.take(i + 1).drop_last() == cs@.take(i as int));
        assert(cs@.take(i + 1).last() == cs@[i as int]);
        if cs[i] == '\n' {
            let piece = chars_between(cs.as_slice(), start, i);
            out.push(classify(piece.as_slice()));
            proof {
                done = done.push(cs@.subrange(start as int, i as int));
            }
            start = i + 1;
            assert(cs@.subrange(start as int, i + 1) =~= Seq::<char>::empty());
        } else {
            assert(cs@.subrange(start as int, i + 1) == cs@.subrange(start as int, i as int).push(cs@[i as int]));
        }
    }
    assert(cs@.take(n as int) == cs@);
    let ghost lines: Seq<Seq<char>> = if start < n {
        done.push(cs@.subrange(start as int, n as int))
    } else {
        done
    };
    if start < n {
        let piece = chars_between(cs.as_slice(), start, n);
        out.push(classify(piece.as_slice()));
    } else {
        proof {
            if n > 0 {
                assert(split_on(cs@, '\n').drop_last() == done);
            }
        }
    }
    assert(text_lines(text@) == lines);
    assert(out@.map_values(|l: MarkdownLine| l@) =~= markdown_view(text@));
    out
}


/// The first position at or after `i` where `ch` appears twice in a row (-1 if none).
pub open spec fn find_pair_from(s: Seq<char>, i: int, ch: char) -> int
    decreases s.len() - i,
{
    if i < 0 || i + 1 >= s.len() {
        -1
    } else if s[i] == ch && s[i + 1] == ch {
        i
    } else {
        find_pair_from(s, i + 1, ch)
    }
}

/// The first position at or after `i` where `ch` appears (-1 if none).
pub open spec fn find_char_from(s: Seq<char>, i: int, ch: char) -> int
    decreases s.len() - i,
{
    if i < 0 || i >= s.len() {
        -1
    } else if s[i] == ch {
        i
    } else {
        find_char_from(s, i + 1, ch)
    }
}

/// A doubled character found from `i` on lies at or after `i`, inside the text, and is
/// that character twice.
pub proof fn lemma_find_pair_from(s: Seq<char>, i: int, ch: char)
    ensures
        find_pair_from(s, i, ch) == -1 || (i <= find_pair_from(s, i, ch) && find_pair_from(s, i, ch) + 1
            < s.len()),
        find_pair_from(s, i, ch) >= 0 ==> s[find_pair_from(s, i, ch)] == ch && s[find_pair_from(s, i, ch) + 1]
            == ch,
    decreases s.len() - i,
{
    if !(i < 0 || i + 1 >= s.len()) && !(s[i] == ch && s[i + 1] == ch) {
        lemma_find_pair_from(s, i + 1, ch);
    }
}

/// A character found from `i` on lies at or after `i`, inside the text, and is that
/// character.
pub proof fn lemma_find_char_from(s: Seq<char>, i: int, ch: char)
    ensures
        find_char_from(s, i, ch) == -1 || (i <= find_char_from(s, i, ch) && find_char_from(s, i, ch)
            < s.len()),
        find_char_from(s, i, ch) >= 0 ==> s[find_char_from(s, i, ch)] == ch,
    decreases s.len() - i,
{
    if !(i < 0 || i >= s.len()) && s[i] != ch {
        lemma_find_char_from(s, i + 1, ch);
    }
}

/// How a piece of inline text is shown.
#[derive(Clone, Copy, PartialEq, Eq, Debug, Structural)]
pub enum SegmentKind {
    Plain,
    Bold,
    Code,
}

/// A piece of inline text with its style.
pub struct StyledSegment {
    pub kind: SegmentKind,
    pub text: String,
}

/// The styled pieces of a text from position `i` on: `**bold**` and `` `code` `` spans
/// (whichever opens first), the plain text between them, and an opening mark without
/// its closing mark shown plainly with the rest of the text.
pub open spec fn styled_from(s: Seq<char>, i: int) -> Seq<(SegmentKind, Seq<char>)>
    decreases s.len() - i,
{
    if i < 0 || i >= s.len() {
        Seq::empty()
    } else {
        let b = find_pair_from(s, i, '*');
        let c = find_char_from(s, i, '`');
        if b >= 0 && (c < 0 || b < c) {
            let pre = if b > i { seq![(SegmentKind::Plain, s.subrange(i, b))] } else { Seq::empty() };
            let e = find_pair_from(s, b + 2, '*');
            if e >= 0 {
                proof {
                    lemma_find_pair_from(s, i, '*');
                    lemma_find_pair_from(s, b + 2, '*');
                }
                pre + seq![(SegmentKind::Bold, s.subrange(b + 2, e))] + styled_from(s, e + 2)
            } else {
                pre + seq![(SegmentKind::Plain, s.subrange(b, s.len() as int))]
            }
        } else if c >= 0 {
            let pre = if c > i { seq![(SegmentKind::Plain, s.subrange(i, c))] } else { Seq::empty() };
            let e = find_char_from(s, c + 1, '`');
            if e >= 0 {
                proof {
                    lemma_find_char_from(s, i, '`');
                    lemma_find_char_from(s, c + 1, '`');
                }
                pre + seq![(SegmentKind::Code, s.subrange(c + 1, e))] + styled_from(s, e + 1)
            } else {
                pre + seq![(SegmentKind::Plain, s.subrange(c, s.len() as int))]
            }
        } else {
            seq![(SegmentKind::Plain, s.subrange(i, s.len() as int))]
        }
    }
}

/// The styled pieces of a line.
pub open spec fn styled_segments(s: Seq<char>) -> Seq<(SegmentKind, Seq<char>)> {
    styled_from(s, 0)
}

/// The style and text of each piece.
pub open spec fn segment_views(v: Seq<StyledSegment>) -> Seq<(SegmentKind, Seq<char>)> {
    v.map_values(|g: StyledSegment| (g.kind, g.text@))
}

fn find_pair(cs: &[char], i: usize, ch: char) -> (r: Option<usize>)
    requires
        i <= cs@.len(),
    ensures
        match r {
            Some(k) => k as int == find_pair_from(cs@, i as int, ch),
            None => find_pair_from(cs@, i as int, ch) == -1,
        },
{
    let n: usize = cs.len();
    let mut k: usize = i;
    while n > 0 && k < n - 1
        invariant
            i <= k <= n,
            n == cs@.len(),
            find_pair_from(cs@, i as int, ch) == find_pair_from(cs@, k as int, ch),
        decreases n - k,
    {
        if cs[k] == ch && cs[k + 1] == ch {
            return Some(k);
        }
        k = k + 1;
    }
    None
}

fn find_char(cs: &[char], i: usize, ch: char) -> (r: Option<usize>)
    requires
        i <= cs@.len(),
    ensures
        match r {
            Some(k) => k as int == find_char_from(cs@, i as int, ch),
            None => find_char_from(cs@, i as int, ch) == -1,
        },
{
    let n: usize = cs.len();
    let mut k: usize = i;
    while k < n
        invariant
            i <= k <= n,
            n == cs@.len(),
            find_char_from(cs@, i as int, ch) == find_char_from(cs@, k as int, ch),
        decreases n - k,
    {
        if cs[k] == ch {
            return Some(k);
        }
        k = k + 1;
    }
    None
}

fn segment(kind: SegmentKind, cs: &[char], from: usize, to: usize) -> (g: StyledSegment)
    requires
        from <= to <= cs@.len(),
    ensures
        g.kind == kind,
        g.text@ == cs@.subrange(from as int, to as int),
{
    let piece = chars_between(cs, from, to);
    StyledSegment { kind, text: string_from_chars(piece.as_slice()) }
}

/// Splits a line of release notes into plain, bold and code pieces (see `styled_from`).
pub fn render_inline_styled_text(text: &str) -> (r: Vec<StyledSegment>)
    ensures
        segment_views(r@) == styled_segments(text@),
{
    let cs = chars_of(text);
    let n: usize = cs.len();
    let mut out: Vec<StyledSegment> = Vec::new();
    let mut i: usize = 0;
    while i < n
        invariant
            i <= n,
            n == cs@.len(),
            cs@ == text@,
            segment_views(out@) + styled_from(cs@, i as int) == styled_segments(cs@),
        decreases n - i,
    {
        let ghost before = segment_views(out@);
        let ghost s = cs@;
        let b = find_pair(cs.as_slice(), i, '*');
        let c = find_char(cs.as_slice(), i, '`');
        proof {
            lemma_find_pair_from(s, i as int, '*');
            lemma_find_char_from(s, i as int, '`');
        }
        let bold_first = match (b, c) {
            (Some(bi), Some(ci)) => bi < ci,
            (Some(_), None) => true,
            _ => false,
        };
        if bold_first {
            let bi = b.unwrap();
            if bi > i {
                out.push(segment(SegmentKind::Plain, cs.as_slice(), i, bi));
            }
            let e = find_pair(cs.as_slice(), bi + 2, '*');
            proof {
                lemma_find_pair_from(s, bi + 2, '*');
            }
            match e {
                Some(ei) => {
                    out.push(segment(SegmentKind::Bold, cs.as_slice(), bi + 2, ei));
                    assert(segment_views(out@) + styled_from(s, ei + 2) =~= before + styled_from(s, i as int));
                    i = ei + 2;
                },
                None => {
                    out.push(segment(SegmentKind::Plain, cs.as_slice(), bi, n));
                    assert(segment_views(out@) =~= before + styled_from(s, i as int));
                    assert(styled_from(s, n as int) =~= Seq::<(SegmentKind, Seq<char>)>::empty());
                    i = n;
                },
            }
        } else {
            match c {
                Some(ci) => {
                    if ci > i {
                        out.push(segment(SegmentKind::Plain, cs.as_slice(), i, ci));
                    }
                    let e = find_char(cs.as_slice(), ci + 1, '`');
                    proof {
                        lemma_find_char_from(s, ci + 1, '`');
                    }
                    match e {
                        Some(ei) => {
                            out.push(segment(SegmentKind::Code, cs.as_slice(), ci + 1, ei));
                            assert(segment_views(out@) + styled_from(s, ei + 1) =~= before + styled_from(
                                s,
                                i as int,
                            ));
                            i = ei + 1;
                        },
                        None => {
                            out.push(segment(SegmentKind::Plain, cs.as_slice(), ci, n));
                            assert(segment_views(out@) =~= before + styled_from(s, i as int));
                            assert(styled_from(s, n as int) =~= Seq::<(SegmentKind, Seq<char>)>::empty());
                            i = n;
                        },
                    }
                },
                None => {
                    out.push(segment(SegmentKind::Plain, cs.as_slice(), i, n));
                    assert(segment_views(out@) =~= before + styled_from(s, i as int));
                    assert(styled_from(s, n as int) =~= Seq::<(SegmentKind, Seq<char>)>::empty());
                    i = n;
                },
            }
        }
    }
    assert(styled_from(cs@, n as int) =~= Seq::<(SegmentKind, Seq<char>)>::empty());
    assert(segment_views(out@) =~= segment_views(out@) + styled_from(cs@, n as int));
    out
}


/// A styled piece with its marks put back: `**` round bold text, a backquote round
/// code, nothing round plain text.
pub open spec fn with_marks(g: (SegmentKind, Seq<char>)) -> Seq<char> {
    match g.0 {
        SegmentKind::Plain => g.1,
        SegmentKind::Bold => seq!['*', '*'] + g.1 + seq!['*', '*'],
        SegmentKind::Code => seq!['`'] + g.1 + seq!['`'],
    }
}

/// The text that styled pieces, with their marks put back, spell in turn.
pub open spec fn rebuild_styled(segs: Seq<(SegmentKind, Seq<char>)>) -> Seq<char>
    decreases segs.len(),
{
    if segs.len() == 0 {
        Seq::empty()
    } else {
        rebuild_styled(segs.drop_last()) + with_marks(segs.last())
    }
}

/// No plain piece is empty.
pub open spec fn plain_pieces_nonempty(segs: Seq<(SegmentKind, Seq<char>)>) -> bool {
    forall|k: int| 0 <= k < segs.len() && (#[trigger] segs[k]).0 == SegmentKind::Plain ==> segs[k].1.len() > 0
}

proof fn lemma_rebuild_styled_concat(a: Seq<(SegmentKind, Seq<char>)>, b: Seq<(SegmentKind, Seq<char>)>)
    ensures
        rebuild_styled(a + b) == rebuild_styled(a) + rebuild_styled(b),
    decreases b.len(),
{
    if b.len() == 0 {
        assert(a + b == a);
        assert(rebuild_styled(a) + Seq::<char>::empty() == rebuild_styled(a));
    } else {
        lemma_rebuild_styled_concat(a, b.drop_last());
        assert((a + b).drop_last() == a + b.drop_last());
        assert((a + b).last() == b.last());
        assert(rebuild_styled(a) + rebuild_styled(b.drop_last()) + with_marks(b.last()) == rebuild_styled(a)
            + (rebuild_styled(b.drop_last()) + with_marks(b.last())));
    }
}

proof fn lemma_rebuild_styled_one(g: (SegmentKind, Seq<char>))
    ensures
        rebuild_styled(seq![g]) == with_marks(g),
{
    let one = seq![g];
    assert(one.drop_last() =~= Seq::<(SegmentKind, Seq<char>)>::empty());
    assert(one.last() == g);
    assert(rebuild_styled(Seq::<(SegmentKind, Seq<char>)>::empty()) == Seq::<char>::empty());
    assert(Seq::<char>::empty() + with_marks(g) =~= with_marks(g));
}

proof fn lemma_plain_nonempty_concat(a: Seq<(SegmentKind, Seq<char>)>, b: Seq<(SegmentKind, Seq<char>)>)
    requires
        plain_pieces_nonempty(a),
        plain_pieces_nonempty(b),
    ensures
        plain_pieces_nonempty(a + b),
{
    assert forall|k: int| 0 <= k < (a + b).len() && (#[trigger] (a + b)[k]).0 == SegmentKind::Plain implies (a
        + b)[k].1.len() > 0 by {
        if k < a.len() {
            assert((a + b)[k] == a[k]);
        } else {
            assert((a + b)[k] == b[k - a.len()]);
        }
    }
}

/// The plain text between `i` and `p`, as a piece list: one piece, or none when empty.
proof fn lemma_plain_before(s: Seq<char>, i: int, p: int, pre: Seq<(SegmentKind, Seq<char>)>)
    requires
        0 <= i <= p <= s.len(),
        pre == (if p > i {
            seq![(SegmentKind::Plain, s.subrange(i, p))]
        } else {
            Seq::<(SegmentKind, Seq<char>)>::empty()
        }),
    ensures
        rebuild_styled(pre) == s.subrange(i, p),
        plain_pieces_nonempty(pre),
{
    if p > i {
        lemma_rebuild_styled_one((SegmentKind::Plain, s.subrange(i, p)));
    } else {
        assert(s.subrange(i, p) =~= Seq::<char>::empty());
        assert(rebuild_styled(pre) == Seq::<char>::empty());
    }
}

/// Pieces that spell `s[i..p]`, one piece that spells `s[p..q]` and pieces that spell
/// `s[q..]` together spell `s[i..]`.
proof fn lemma_join_pieces(
    s: Seq<char>,
    i: int,
    p: int,
    q: int,
    pre: Seq<(SegmentKind, Seq<char>)>,
    g: (SegmentKind, Seq<char>),
    rest: Seq<(SegmentKind, Seq<char>)>,
)
    requires
        0 <= i <= p <= q <= s.len(),
        rebuild_styled(pre) == s.subrange(i, p),
        with_marks(g) == s.subrange(p, q),
        rebuild_styled(rest) == s.skip(q),
        plain_pieces_nonempty(pre),
        g.0 == SegmentKind::Plain ==> g.1.len() > 0,
        plain_pieces_nonempty(rest),
    ensures
        rebuild_styled(pre + seq![g] + rest) == s.skip(i),
        plain_pieces_nonempty(pre + seq![g] + rest),
{
    let mid = seq![g];
    lemma_rebuild_styled_one(g);
    lemma_rebuild_styled_concat(pre, mid);
    lemma_rebuild_styled_concat(pre + mid, rest);
    assert(s.subrange(i, p) + s.subrange(p, q) + s.skip(q) =~= s.skip(i));
    assert(plain_pieces_nonempty(mid)) by {
        assert forall|k: int| 0 <= k < mid.len() && (#[trigger] mid[k]).0 == SegmentKind::Plain implies mid[k].1.len()
            > 0 by {
            assert(mid[k] == g);
        }
    }
    lemma_plain_nonempty_concat(pre, mid);
    lemma_plain_nonempty_concat(pre + mid, rest);
}

proof fn lemma_styled_from_rebuild(s: Seq<char>, i: int)
    requires
        0 <= i <= s.len(),
    ensures
        rebuild_styled(styled_from(s, i)) == s.skip(i),
        plain_pieces_nonempty(styled_from(s, i)),
    decreases s.len() - i,
{
    let empty = Seq::<(SegmentKind, Seq<char>)>::empty();
    let n = s.len() as int;
    if i >= n {
        assert(s.skip(i) =~= Seq::<char>::empty());
        return;
    }
    assert(rebuild_styled(empty) == s.skip(n)) by {
        assert(s.skip(n) =~= Seq::<char>::empty());
    }
    let b = find_pair_from(s, i, '*');
    let c = find_char_from(s, i, '`');
    lemma_find_pair_from(s, i, '*');
    lemma_find_char_from(s, i, '`');
    if b >= 0 && (c < 0 || b < c) {
        let pre = if b > i { seq![(SegmentKind::Plain, s.subrange(i, b))] } else { empty };
        lemma_plain_before(s, i, b, pre);
        let e = find_pair_from(s, b + 2, '*');
        lemma_find_pair_from(s, b + 2, '*');
        if e >= 0 {
            let g = (SegmentKind::Bold, s.subrange(b + 2, e));
            lemma_styled_from_rebuild(s, e + 2);
            assert(with_marks(g) =~= s.subrange(b, e + 2));
            lemma_join_pieces(s, i, b, e + 2, pre, g, styled_from(s, e + 2));
            assert(styled_from(s, i) == pre + seq![g] + styled_from(s, e + 2));
        } else {
            let g = (SegmentKind::Plain, s.subrange(b, n));
            lemma_join_pieces(s, i, b, n, pre, g, empty);
            assert(pre + seq![g] + empty =~= pre + seq![g]);
            assert(styled_from(s, i) == pre + seq![g]);
        }
    } else if c >= 0 {
        let pre = if c > i { seq![(SegmentKind::Plain, s.subrange(i, c))] } else { empty };
        lemma_plain_before(s, i, c, pre);
        let e = find_char_from(s, c + 1, '`');
        lemma_find_char_from(s, c + 1, '`');
        if e >= 0 {
            let g = (SegmentKind::Code, s.subrange(c + 1, e));
            lemma_styled_from_rebuild(s, e + 1);
            assert(with_marks(g) =~= s.subrange(c, e + 1));
            lemma_join_pieces(s, i, c, e + 1, pre, g, styled_from(s, e + 1));
            assert(styled_from(s, i) == pre + seq![g] + styled_from(s, e + 1));
        } else {
            let g = (SegmentKind::Plain, s.subrange(c, n));
            lemma_join_pieces(s, i, c, n, pre, g, empty);
            assert(pre + seq![g] + empty =~= pre + seq![g]);
            assert(styled_from(s, i) == pre + seq![g]);
        }
    } else {
        let g = (SegmentKind::Plain, s.subrange(i, n));
        lemma_plain_before(s, i, i, empty);
        lemma_join_pieces(s, i, i, n, empty, g, empty);
        assert(empty + seq![g] + empty =~= seq![g]);
        assert(styled_from(s, i) == seq![g]);
    }
}

/// The styled pieces of a line, each with its marks put back (`**` round bold text, a
/// backquote round code), spell the line again; no plain piece is empty, so an empty
/// line gives no pieces at all.
pub proof fn lemma_styled_segments_rebuild(s: Seq<char>)
    ensures
        rebuild_styled(styled_segments(s)) == s,
        plain_pieces_nonempty(styled_segments(s)),
        s.len() == 0 ==> styled_segments(s).len() == 0,
{
    lemma_styled_from_rebuild(s, 0);
    assert(s.skip(0) == s);
}


/// The name of the preset to create from what the user typed: the text without its
/// surrounding white space, when anything is left.
pub fn preset_name_to_create(input: &str) -> (r: Option<String>)
    ensures
        match r {
            Some(name) => name@ == trim_spec(input@) && name@.len() > 0,
            None => trim_spec(input@).len() == 0,
        },
{
    let cs = chars_of(input);
    let t = trim_chars(cs.as_slice());
    if t.len() == 0 {
        None
    } else {
        Some(string_from_chars(t.as_slice()))
    }
}

} // verus!
