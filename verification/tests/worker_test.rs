use nztool_oar::features::{ConfigKey, DoubleClickButton};
use nztool_oar::worker::{
    message_can_run, message_plan, pack_lparam, rdev_key_to_scancode, set_cursor_pos_safe, CursorRetry,
    InputAction, Worker, WorkerMessage,
};

#[test]
fn lparam_packs_low_and_high_words() {
    assert_eq!(pack_lparam(0, 0), 0);
    assert_eq!(pack_lparam(10, 20), (20 << 16) | 10);
    assert_eq!(pack_lparam(-1, 0), 0xFFFF);
    assert_eq!(pack_lparam(0, 1), 0x10000);
    assert_eq!(pack_lparam(70000, 3), (3 << 16) | (70000 & 0xFFFF));
    let v = pack_lparam(-5, -7);
    assert_eq!((v & 0xFFFF) as u16 as i16, -5);
    assert_eq!(((v >> 16) & 0xFFFF) as u16 as i16, -7);
}

#[test]
fn scancodes_follow_the_table() {
    assert_eq!(rdev_key_to_scancode(ConfigKey::Escape), Some(0x01));
    assert_eq!(rdev_key_to_scancode(ConfigKey::KeyE), Some(0x12));
    assert_eq!(rdev_key_to_scancode(ConfigKey::ControlRight), Some(0x1D));
    assert_eq!(rdev_key_to_scancode(ConfigKey::PageDown), Some(0xD1));
    assert_eq!(rdev_key_to_scancode(ConfigKey::Return), None);
    assert_eq!(rdev_key_to_scancode(ConfigKey::Comma), None);
}

#[test]
fn hacking_click_method_steps() {
    let plan = Worker::hacking_click_mtd(100, 200, 1920, 1080, -140);
    assert_eq!(
        plan,
        vec![
            InputAction::Sleep(12),
            InputAction::RequireForegroundWindow,
            InputAction::MoveCursor { x: 1060, y: 600 },
            InputAction::PostClicks { x: 1060, y: 600, count: 100 },
            InputAction::MoveCursor { x: 1060, y: 200 },
            InputAction::MouseClick,
        ]
    );
    let plan = Worker::hacking_esc_mtd(0, 0, -3, -3, 1);
    assert_eq!(plan[2], InputAction::MoveCursor { x: -1, y: 0 });
}

#[test]
fn simple_macros() {
    assert_eq!(
        Worker::no_fall_damage(),
        vec![InputAction::KeyTap(1), InputAction::Sleep(30), InputAction::KeyTap(1)]
    );
    assert_eq!(Worker::gangsta_grip(2)[3], InputAction::KeyTap(3));
    assert_eq!(Worker::quick_exit(10, 20)[2], InputAction::MoveCursor { x: 732, y: 751 });
    assert_eq!(Worker::quick_exit(10, 20)[6], InputAction::MoveCursor { x: 729, y: 566 });
    assert_eq!(
        Worker::double_click(DoubleClickButton::Right),
        vec![
            InputAction::ButtonTap(DoubleClickButton::Right),
            InputAction::Sleep(20),
            InputAction::ButtonTap(DoubleClickButton::Right),
        ]
    );
    assert_eq!(
        Worker::tips_skip(0, 1000, 830),
        vec![
            InputAction::BlockInput(true),
            InputAction::MoveCursor { x: 500, y: 830 },
            InputAction::Sleep(10),
            InputAction::MouseClick,
            InputAction::BlockInput(false),
        ]
    );
    assert_eq!(Worker::restart(0, 1000, 486).len(), 7);
    assert_eq!(Worker::fast_loadout()[0], InputAction::WheelUp);
    assert_eq!(Worker::hold_item_bug().len(), 7);
    assert_eq!(Worker::hacking_jump_mtd(0, 0, 2, 2, 0).last(), Some(&InputAction::KeyTap(0x39)));
}

#[test]
fn messages_map_to_their_macros() {
    assert!(message_plan(WorkerMessage::ShiftToggle).is_none());
    assert_eq!(message_plan(WorkerMessage::FastLoadout), Some(Worker::fast_loadout()));
    assert_eq!(
        message_plan(WorkerMessage::QuickExit { x: 1, y: 2 }),
        Some(Worker::quick_exit(1, 2))
    );
    assert!(message_can_run(WorkerMessage::QuickExit { x: 0, y: 0 }));
    assert!(!message_can_run(WorkerMessage::QuickExit { x: i32::MAX, y: 0 }));
    assert!(!message_can_run(WorkerMessage::GangstaGrip { digit: 0xFFFF }));
    assert!(!message_can_run(WorkerMessage::HackingClickMtd { x: 0, y: i32::MAX, w: 0, h: 0, offset_y: 1 }));
}

#[test]
fn cursor_is_tried_three_times() {
    assert_eq!(set_cursor_pos_safe(0, true), CursorRetry::Done(true));
    assert_eq!(set_cursor_pos_safe(0, false), CursorRetry::RetryAfter(5));
    assert_eq!(set_cursor_pos_safe(1, false), CursorRetry::RetryAfter(5));
    assert_eq!(set_cursor_pos_safe(2, false), CursorRetry::Done(false));
}
