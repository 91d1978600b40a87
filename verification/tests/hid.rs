use webds::hid::{
    get_mouse_button, input_global, keyname_to_keycode, HidAction, HidCommand, InputGlobal,
    OutputSize,
};

fn action(text: &str) -> Option<HidAction> {
    HidCommand::new(text).execute()
}

#[test]
fn keycodes_of_letters_digits_and_names() {
    assert_eq!(keyname_to_keycode("a"), 30);
    assert_eq!(keyname_to_keycode("z"), 44);
    assert_eq!(keyname_to_keycode("1"), 2);
    assert_eq!(keyname_to_keycode("0"), 11);
    assert_eq!(keyname_to_keycode("numpad0"), 82);
    assert_eq!(keyname_to_keycode("numpadenter"), 96);
    assert_eq!(keyname_to_keycode("enter"), 28);
    assert_eq!(keyname_to_keycode("escape"), 1);
    assert_eq!(keyname_to_keycode("f11"), 87);
    assert_eq!(keyname_to_keycode("f12"), 88);
    assert_eq!(keyname_to_keycode("arrowleft"), 105);
    assert_eq!(keyname_to_keycode("metaright"), 126);
    assert_eq!(keyname_to_keycode("\\"), 43);
    assert_eq!(keyname_to_keycode("\""), 40);
    assert_eq!(keyname_to_keycode("pause"), 119);
}

#[test]
fn keycode_aliases_share_a_code() {
    assert_eq!(keyname_to_keycode("shift"), 42);
    assert_eq!(keyname_to_keycode("shiftleft"), 42);
    assert_eq!(keyname_to_keycode("control"), keyname_to_keycode("controlleft"));
    assert_eq!(keyname_to_keycode("alt"), keyname_to_keycode("altleft"));
    assert_eq!(keyname_to_keycode("meta"), 125);
    assert_eq!(keyname_to_keycode(" "), 57);
    assert_eq!(keyname_to_keycode("space"), 57);
}

#[test]
fn shifted_symbols_share_the_code_of_their_key() {
    let pairs = [
        ("!", "1"), ("@", "2"), ("#", "3"), ("$", "4"), ("%", "5"), ("^", "6"), ("&", "7"),
        ("*", "8"), ("(", "9"), (")", "0"), ("_", "-"), ("+", "="), ("{", "["), ("}", "]"),
        ("|", "\\"), (":", ";"), ("\"", "'"), ("~", "`"), ("<", ","), (">", "."), ("?", "/"),
    ];
    for (shifted, plain) in pairs {
        assert_eq!(keyname_to_keycode(shifted), keyname_to_keycode(plain), "{shifted}");
        assert_ne!(keyname_to_keycode(shifted), 0);
    }
}

#[test]
fn keycodes_ignore_ascii_case() {
    assert_eq!(keyname_to_keycode("A"), 30);
    assert_eq!(keyname_to_keycode("Shift"), 42);
    assert_eq!(keyname_to_keycode("NumpadEnter"), 96);
    assert_eq!(keyname_to_keycode("ARROWUP"), 103);
    assert_eq!(keyname_to_keycode("CapsLock"), keyname_to_keycode("capslock"));
}

#[test]
fn unknown_keys_have_code_zero() {
    assert_eq!(keyname_to_keycode(""), 0);
    assert_eq!(keyname_to_keycode("aa"), 0);
    assert_eq!(keyname_to_keycode("f13"), 0);
    assert_eq!(keyname_to_keycode(" a"), 0);
    assert_eq!(keyname_to_keycode("É"), 0);
}

#[test]
fn mouse_button_codes() {
    assert_eq!(get_mouse_button(0), 0x110);
    assert_eq!(get_mouse_button(1), 0x111);
    assert_eq!(get_mouse_button(2), 0x112);
    assert_eq!(get_mouse_button(3), 0);
    assert_eq!(get_mouse_button(255), 0);
}

#[test]
fn move_command_splits_at_the_first_space() {
    assert_eq!(
        action("mma 0.5 0.25"),
        Some(HidAction::MouseMove { x: "0.5".to_string(), y: "0.25".to_string() })
    );
    assert_eq!(
        action("mma   0.5 0.25  "),
        Some(HidAction::MouseMove { x: "0.5".to_string(), y: "0.25".to_string() })
    );
    assert_eq!(
        action("mma 1 2 3"),
        Some(HidAction::MouseMove { x: "1".to_string(), y: "2 3".to_string() })
    );
    assert_eq!(
        action("mma1 x"),
        Some(HidAction::MouseMove { x: "1".to_string(), y: "x".to_string() })
    );
    assert_eq!(action("mma 0.5"), None);
    assert_eq!(action("mma"), None);
    assert_eq!(action("mma    "), None);
}

#[test]
fn button_commands() {
    assert_eq!(action("pm 0"), Some(HidAction::MousePress { button: 0x110 }));
    assert_eq!(action("pm  2 "), Some(HidAction::MousePress { button: 0x112 }));
    assert_eq!(action("pm +1"), Some(HidAction::MousePress { button: 0x111 }));
    assert_eq!(action("pm 007"), Some(HidAction::MousePress { button: 0 }));
    assert_eq!(action("pm 255"), Some(HidAction::MousePress { button: 0 }));
    assert_eq!(action("rm 1"), Some(HidAction::MouseRelease { button: 0x111 }));
    assert_eq!(action("pm 256"), None);
    assert_eq!(action("pm -1"), None);
    assert_eq!(action("pm +"), None);
    assert_eq!(action("pm"), None);
    assert_eq!(action("pm 1 2"), None);
    assert_eq!(action("rm x"), None);
}

#[test]
fn key_commands() {
    assert_eq!(action("pk a"), Some(HidAction::KeyPress { keycode: 30 }));
    assert_eq!(action("pk  A "), Some(HidAction::KeyPress { keycode: 30 }));
    assert_eq!(action("rk Enter"), Some(HidAction::KeyRelease { keycode: 28 }));
    assert_eq!(action("pk\u{3000}Tab\u{a0}"), Some(HidAction::KeyPress { keycode: 15 }));
    assert_eq!(action("pk"), Some(HidAction::KeyPress { keycode: 0 }));
    assert_eq!(action("pk nosuchkey"), Some(HidAction::KeyPress { keycode: 0 }));
    assert_eq!(action("pk  "), Some(HidAction::KeyPress { keycode: 0 }));
}

#[test]
fn press_and_release_name_the_same_key_and_button() {
    for arg in ["a", " Shift ", "F5", "?", "", "xyz"] {
        let pressed = action(&format!("pk{arg}"));
        let released = action(&format!("rk{arg}"));
        match (pressed, released) {
            (
                Some(HidAction::KeyPress { keycode: p }),
                Some(HidAction::KeyRelease { keycode: r }),
            ) => assert_eq!(p, r),
            other => panic!("unexpected {other:?}"),
        }
    }
    for arg in [" 0", "1", "2 ", "9", "x", "300"] {
        let pressed = action(&format!("pm{arg}"));
        let released = action(&format!("rm{arg}"));
        match (pressed, released) {
            (
                Some(HidAction::MousePress { button: p }),
                Some(HidAction::MouseRelease { button: r }),
            ) => assert_eq!(p, r),
            (None, None) => {}
            other => panic!("unexpected {other:?}"),
        }
    }
}

#[test]
fn unknown_commands_ask_for_nothing() {
    assert_eq!(action(""), None);
    assert_eq!(action("hello"), None);
    assert_eq!(action(" pk a"), None);
    assert_eq!(action("PK a"), None);
    assert_eq!(action("ma 1 2"), None);
}

#[test]
fn input_globals() {
    assert_eq!(
        input_global("zwp_virtual_keyboard_manager_v1"),
        Some(InputGlobal::KeyboardManager)
    );
    assert_eq!(
        input_global("zwlr_virtual_pointer_manager_v1"),
        Some(InputGlobal::PointerManager)
    );
    assert_eq!(input_global("wl_seat"), Some(InputGlobal::Seat));
    assert_eq!(input_global("wl_output"), Some(InputGlobal::Output));
    assert_eq!(input_global("wl_shm"), None);
    assert_eq!(input_global("wl_seat2"), None);
}

#[test]
fn output_size_is_usable_once_known_and_nonzero() {
    let mut size = OutputSize::unknown();
    assert!(!size.is_usable());
    size.on_mode(1920, 0);
    assert!(!size.is_usable());
    size.on_mode(1920, 1080);
    assert!(size.is_usable());
    assert_eq!(size, OutputSize { width: Some(1920), height: Some(1080) });
    size.on_mode(-2, 3);
    assert!(size.is_usable());
    assert!(!OutputSize { width: Some(5), height: None }.is_usable());
}
