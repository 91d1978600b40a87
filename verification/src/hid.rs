//! Input replay: the commands that the browser sends over the `/hid` socket, the
//! Linux input codes that they stand for, and the choices made while setting up
//! a virtual keyboard and pointer on the Wayland compositor.

use vstd::prelude::*;
use vstd::string::{StrSliceExecFns, StringExecFns};
use crate::text::{
    all_white_space, ascii_lower, chars_of, eq_str, find_char, first_index_of, has_prefix,
    is_white_space, trim_start,
    lemma_trim_surrounding_white_space, parse_u8, parse_u8_spec, to_ascii_lowercase, trim,
    trim_bounds,
};

verus! {

/// The Linux input code (`KEY_*`) for a key name that has already been
/// made lower-case, or 0 for a name that names no key. Shifted symbols share
/// the code of the key that carries them (`"!"` is the `1` key).
#[verifier::opaque]
pub open spec fn key_table(name: Seq<char>) -> u32 {
    if name == "a"@ {
        30
    } else if name == "b"@ {
        48
    } else if name == "c"@ {
        46
    } else if name == "d"@ {
        32
    } else if name == "e"@ {
        18
    } else if name == "f"@ {
        33
    } else if name == "g"@ {
        34
    } else if name == "h"@ {
        35
    } else if name == "i"@ {
        23
    } else if name == "j"@ {
        36
    } else if name == "k"@ {
        37
    } else if name == "l"@ {
        38
    } else if name == "m"@ {
        50
    } else if name == "n"@ {
        49
    } else if name == "o"@ {
        24
    } else if name == "p"@ {
        25
    } else if name == "q"@ {
        16
    } else if name == "r"@ {
        19
    } else if name == "s"@ {
        31
    } else if name == "t"@ {
        20
    } else if name == "u"@ {
        22
    } else if name == "v"@ {
        47
    } else if name == "w"@ {
        17
    } else if name == "x"@ {
        45
    } else if name == "y"@ {
        21
    } else if name == "z"@ {
        44
    } else if name == "1"@ {
        2
    } else if name == "2"@ {
        3
    } else if name == "3"@ {
        4
    } else if name == "4"@ {
        5
    } else if name == "5"@ {
        6
    } else if name == "6"@ {
        7
    } else if name == "7"@ {
        8
    } else if name == "8"@ {
        9
    } else if name == "9"@ {
        10
    } else if name == "0"@ {
        11
    } else if name == "numpad0"@ {
        82
    } else if name == "numpad1"@ {
        79
    } else if name == "numpad2"@ {
        80
    } else if name == "numpad3"@ {
        81
    } else if name == "numpad4"@ {
        75
    } else if name == "numpad5"@ {
        76
    } else if name == "numpad6"@ {
        77
    } else if name == "numpad7"@ {
        71
    } else if name == "numpad8"@ {
        72
    } else if name == "numpad9"@ {
        73
    } else if name == "numpadenter"@ {
        96
    } else if name == "numpadadd"@ {
        78
    } else if name == "numpadsubtract"@ {
        74
    } else if name == "numpadmultiply"@ {
        55
    } else if name == "numpaddivide"@ {
        98
    } else if name == "numpaddecimal"@ {
        83
    } else if name == "-"@ {
        12
    } else if name == "="@ {
        13
    } else if name == "["@ {
        26
    } else if name == "]"@ {
        27
    } else if name == "\\"@ {
        43
    } else if name == ";"@ {
        39
    } else if name == "'"@ {
        40
    } else if name == "`"@ {
        41
    } else if name == ","@ {
        51
    } else if name == "."@ {
        52
    } else if name == "/"@ {
        53
    } else if name == "!"@ {
        2
    } else if name == "@"@ {
        3
    } else if name == "#"@ {
        4
    } else if name == "$"@ {
        5
    } else if name == "%"@ {
        6
    } else if name == "^"@ {
        7
    } else if name == "&"@ {
        8
    } else if name == "*"@ {
        9
    } else if name == "("@ {
        10
    } else if name == ")"@ {
        11
    } else if name == "_"@ {
        12
    } else if name == "+"@ {
        13
    } else if name == "{"@ {
        26
    } else if name == "}"@ {
        27
    } else if name == "|"@ {
        43
    } else if name == ":"@ {
        39
    } else if name == "\""@ {
        40
    } else if name == "~"@ {
        41
    } else if name == "<"@ {
        51
    } else if name == ">"@ {
        52
    } else if name == "?"@ {
        53
    } else if name == "shift"@ {
        42
    } else if name == "shiftleft"@ {
        42
    } else if name == "shiftright"@ {
        54
    } else if name == "control"@ {
        29
    } else if name == "controlleft"@ {
        29
    } else if name == "controlright"@ {
        97
    } else if name == "alt"@ {
        56
    } else if name == "altleft"@ {
        56
    } else if name == "altright"@ {
        100
    } else if name == "meta"@ {
        125
    } else if name == "metaleft"@ {
        125
    } else if name == "metaright"@ {
        126
    } else if name == "capslock"@ {
        58
    } else if name == "insert"@ {
        110
    } else if name == "delete"@ {
        111
    } else if name == "home"@ {
        102
    } else if name == "end"@ {
        107
    } else if name == "pageup"@ {
        104
    } else if name == "pagedown"@ {
        109
    } else if name == "arrowdown"@ {
        108
    } else if name == "arrowup"@ {
        103
    } else if name == "arrowleft"@ {
        105
    } else if name == "arrowright"@ {
        106
    } else if name == "f1"@ {
        59
    } else if name == "f2"@ {
        60
    } else if name == "f3"@ {
        61
    } else if name == "f4"@ {
        62
    } else if name == "f5"@ {
        63
    } else if name == "f6"@ {
        64
    } else if name == "f7"@ {
        65
    } else if name == "f8"@ {
        66
    } else if name == "f9"@ {
        67
    } else if name == "f10"@ {
        68
    } else if name == "f11"@ {
        87
    } else if name == "f12"@ {
        88
    } else if name == "printscreen"@ {
        99
    } else if name == "scrolllock"@ {
        70
    } else if name == "pause"@ {
        119
    } else if name == " "@ {
        57
    } else if name == "space"@ {
        57
    } else if name == "enter"@ {
        28
    } else if name == "tab"@ {
        15
    } else if name == "backspace"@ {
        14
    } else if name == "escape"@ {
        1
    } else {
        0
    }
}

/// The Linux input code for a key name as the browser reports it; names are
/// matched without regard to ASCII case.
pub open spec fn keycode_of(name: Seq<char>) -> u32 {
    key_table(ascii_lower(name))
}

/// The Linux input code for a browser mouse button number: 0x110
/// (`BTN_LEFT`), 0x111 (`BTN_RIGHT`) and 0x112 (`BTN_MIDDLE`) for 0, 1 and 2,
/// and 0 for any other number.
pub open spec fn mouse_button_code(button: u8) -> u32 {
    if button == 0 {
        0x110
    } else if button == 1 {
        0x111
    } else if button == 2 {
        0x112
    } else {
        0
    }
}

/// The Linux input code for a browser mouse button number (see [`mouse_button_code`]).
pub fn get_mouse_button(button: u8) -> (r: u32)
    ensures
        r == mouse_button_code(button),
{
    match button {
        0 => 0x110,
        1 => 0x111,
        2 => 0x112,
        _ => 0,
    }
}

fn key_table_code(name: &Vec<char>) -> (r: u32)
    ensures
        r == key_table(name@),
{
    let n = name.len();
    assert(name@.subrange(0, n as int) =~= name@);
    reveal(key_table);
    if eq_str(name, 0, n, "a") {
        30
    } else if eq_str(name, 0, n, "b") {
        48
    } else if eq_str(name, 0, n, "c") {
        46
    } else if eq_str(name, 0, n, "d") {
        32
    } else if eq_str(name, 0, n, "e") {
        18
    } else if eq_str(name, 0, n, "f") {
        33
    } else if eq_str(name, 0, n, "g") {
        34
    } else if eq_str(name, 0, n, "h") {
        35
    } else if eq_str(name, 0, n, "i") {
        23
    } else if eq_str(name, 0, n, "j") {
        36
    } else if eq_str(name, 0, n, "k") {
        37
    } else if eq_str(name, 0, n, "l") {
        38
    } else if eq_str(name, 0, n, "m") {
        50
    } else if eq_str(name, 0, n, "n") {
        49
    } else if eq_str(name, 0, n, "o") {
        24
    } else if eq_str(name, 0, n, "p") {
        25
    } else if eq_str(name, 0, n, "q") {
        16
    } else if eq_str(name, 0, n, "r") {
        19
    } else if eq_str(name, 0, n, "s") {
        31
    } else if eq_str(name, 0, n, "t") {
        20
    } else if eq_str(name, 0, n, "u") {
        22
    } else if eq_str(name, 0, n, "v") {
        47
    } else if eq_str(name, 0, n, "w") {
        17
    } else if eq_str(name, 0, n, "x") {
        45
    } else if eq_str(name, 0, n, "y") {
        21
    } else if eq_str(name, 0, n, "z") {
        44
    } else if eq_str(name, 0, n, "1") {
        2
    } else if eq_str(name, 0, n, "2") {
        3
    } else if eq_str(name, 0, n, "3") {
        4
    } else if eq_str(name, 0, n, "4") {
        5
    } else if eq_str(name, 0, n, "5") {
        6
    } else if eq_str(name, 0, n, "6") {
        7
    } else if eq_str(name, 0, n, "7") {
        8
    } else if eq_str(name, 0, n, "8") {
        9
    } else if eq_str(name, 0, n, "9") {
        10
    } else if eq_str(name, 0, n, "0") {
        11
    } else if eq_str(name, 0, n, "numpad0") {
        82
    } else if eq_str(name, 0, n, "numpad1") {
        79
    } else if eq_str(name, 0, n, "numpad2") {
        80
    } else if eq_str(name, 0, n, "numpad3") {
        81
    } else if eq_str(name, 0, n, "numpad4") {
        75
    } else if eq_str(name, 0, n, "numpad5") {
        76
    } else if eq_str(name, 0, n, "numpad6") {
        77
    } else if eq_str(name, 0, n, "numpad7") {
        71
    } else if eq_str(name, 0, n, "numpad8") {
        72
    } else if eq_str(name, 0, n, "numpad9") {
        73
    } else if eq_str(name, 0, n, "numpadenter") {
        96
    } else if eq_str(name, 0, n, "numpadadd") {
        78
    } else if eq_str(name, 0, n, "numpadsubtract") {
        74
    } else if eq_str(name, 0, n, "numpadmultiply") {
        55
    } else if eq_str(name, 0, n, "numpaddivide") {
        98
    } else if eq_str(name, 0, n, "numpaddecimal") {
        83
    } else if eq_str(name, 0, n, "-") {
        12
    } else if eq_str(name, 0, n, "=") {
        13
    } else if eq_str(name, 0, n, "[") {
        26
    } else if eq_str(name, 0, n, "]") {
        27
    } else if eq_str(name, 0, n, "\\") {
        43
    } else if eq_str(name, 0, n, ";") {
        39
    } else if eq_str(name, 0, n, "'") {
        40
    } else if eq_str(name, 0, n, "`") {
        41
    } else if eq_str(name, 0, n, ",") {
        51
    } else if eq_str(name, 0, n, ".") {
        52
    } else if eq_str(name, 0, n, "/") {
        53
    } else if eq_str(name, 0, n, "!") {
        2
    } else if eq_str(name, 0, n, "@") {
        3
    } else if eq_str(name, 0, n, "#") {
        4
    } else if eq_str(name, 0, n, "$") {
        5
    } else if eq_str(name, 0, n, "%") {
        6
    } else if eq_str(name, 0, n, "^") {
        7
    } else if eq_str(name, 0, n, "&") {
        8
    } else if eq_str(name, 0, n, "*") {
        9
    } else if eq_str(name, 0, n, "(") {
        10
    } else if eq_str(name, 0, n, ")") {
        11
    } else if eq_str(name, 0, n, "_") {
        12
    } else if eq_str(name, 0, n, "+") {
        13
    } else if eq_str(name, 0, n, "{") {
        26
    } else if eq_str(name, 0, n, "}") {
        27
    } else if eq_str(name, 0, n, "|") {
        43
    } else if eq_str(name, 0, n, ":") {
        39
    } else if eq_str(name, 0, n, "\"") {
        40
    } else if eq_str(name, 0, n, "~") {
        41
    } else if eq_str(name, 0, n, "<") {
        51
    } else if eq_str(name, 0, n, ">") {
        52
    } else if eq_str(name, 0, n, "?") {
        53
    } else if eq_str(name, 0, n, "shift") {
        42
    } else if eq_str(name, 0, n, "shiftleft") {
        42
    } else if eq_str(name, 0, n, "shiftright") {
        54
    } else if eq_str(name, 0, n, "control") {
        29
    } else if eq_str(name, 0, n, "controlleft") {
        29
    } else if eq_str(name, 0, n, "controlright") {
        97
    } else if eq_str(name, 0, n, "alt") {
        56
    } else if eq_str(name, 0, n, "altleft") {
        56
    } else if eq_str(name, 0, n, "altright") {
        100
    } else if eq_str(name, 0, n, "meta") {
        125
    } else if eq_str(name, 0, n, "metaleft") {
        125
    } else if eq_str(name, 0, n, "metaright") {
        126
    } else if eq_str(name, 0, n, "capslock") {
        58
    } else if eq_str(name, 0, n, "insert") {
        110
    } else if eq_str(name, 0, n, "delete") {
        111
    } else if eq_str(name, 0, n, "home") {
        102
    } else if eq_str(name, 0, n, "end") {
        107
    } else if eq_str(name, 0, n, "pageup") {
        104
    } else if eq_str(name, 0, n, "pagedown") {
        109
    } else if eq_str(name, 0, n, "arrowdown") {
        108
    } else if eq_str(name, 0, n, "arrowup") {
        103
    } else if eq_str(name, 0, n, "arrowleft") {
        105
    } else if eq_str(name, 0, n, "arrowright") {
        106
    } else if eq_str(name, 0, n, "f1") {
        59
    } else if eq_str(name, 0, n, "f2") {
        60
    } else if eq_str(name, 0, n, "f3") {
        61
    } else if eq_str(name, 0, n, "f4") {
        62
    } else if eq_str(name, 0, n, "f5") {
        63
    } else if eq_str(name, 0, n, "f6") {
        64
    } else if eq_str(name, 0, n, "f7") {
        65
    } else if eq_str(name, 0, n, "f8") {
        66
    } else if eq_str(name, 0, n, "f9") {
        67
    } else if eq_str(name, 0, n, "f10") {
        68
    } else if eq_str(name, 0, n, "f11") {
        87
    } else if eq_str(name, 0, n, "f12") {
        88
    } else if eq_str(name, 0, n, "printscreen") {
        99
    } else if eq_str(name, 0, n, "scrolllock") {
        70
    } else if eq_str(name, 0, n, "pause") {
        119
    } else if eq_str(name, 0, n, " ") {
        57
    } else if eq_str(name, 0, n, "space") {
        57
    } else if eq_str(name, 0, n, "enter") {
        28
    } else if eq_str(name, 0, n, "tab") {
        15
    } else if eq_str(name, 0, n, "backspace") {
        14
    } else if eq_str(name, 0, n, "escape") {
        1
    } else {
        0
    }
}

/// The Linux input code for a key name (see [`keycode_of`]).
pub fn keyname_to_keycode(key_name: &str) -> (r: u32)
    ensures
        r == keycode_of(key_name@),
{
    let chars = chars_of(key_name);
    let lower = to_ascii_lowercase(&chars, 0, chars.len());
    assert(chars@.subrange(0, chars@.len() as int) =~= chars@);
    key_table_code(&lower)
}

/// A text command received from the browser, such as `pk a` or `mma 0.5 0.25`.
pub struct HidCommand(String);

impl View for HidCommand {
    type V = Seq<char>;

    closed spec fn view(&self) -> Seq<char> {
        self.0@
    }
}

/// What a command asks of the virtual input devices.
#[derive(PartialEq, Eq, Debug)]
pub enum HidAction {
    /// Move the pointer to the point whose coordinates, as fractions of the
    /// output's width and height, the decimal texts `x` and `y` give.
    MouseMove { x: String, y: String },
    /// Press the mouse button with this Linux input code.
    MousePress { button: u32 },
    /// Release the mouse button with this Linux input code.
    MouseRelease { button: u32 },
    /// Press the key with this Linux input code.
    KeyPress { keycode: u32 },
    /// Release the key with this Linux input code.
    KeyRelease { keycode: u32 },
}

/// [`HidAction`] with its texts as character sequences.
pub enum HidActionView {
    MouseMove { x: Seq<char>, y: Seq<char> },
    MousePress { button: u32 },
    MouseRelease { button: u32 },
    KeyPress { keycode: u32 },
    KeyRelease { keycode: u32 },
}

impl View for HidAction {
    type V = HidActionView;

    open spec fn view(&self) -> HidActionView {
        match self {
            HidAction::MouseMove { x, y } => HidActionView::MouseMove { x: x@, y: y@ },
            HidAction::MousePress { button } => HidActionView::MousePress { button: *button },
            HidAction::MouseRelease { button } => HidActionView::MouseRelease { button: *button },
            HidAction::KeyPress { keycode } => HidActionView::KeyPress { keycode: *keycode },
            HidAction::KeyRelease { keycode } => HidActionView::KeyRelease { keycode: *keycode },
        }
    }
}

/// The view of an optional action.
pub open spec fn action_view(a: Option<HidAction>) -> Option<HidActionView> {
    match a {
        Some(a) => Some(a@),
        None => None,
    }
}

/// The pointer motion that the argument of an `mma` command asks for: the
/// argument, trimmed, is split at its first space into the two coordinates.
pub open spec fn move_action(arg: Seq<char>) -> Option<HidActionView> {
    let coords = trim(arg);
    match first_index_of(coords, ' ') {
        Some(k) => Some(HidActionView::MouseMove { x: coords.take(k), y: coords.skip(k + 1) }),
        None => None,
    }
}

/// The button that the argument of a `pm` or `rm` command names, as a Linux
/// input code: the argument, trimmed, must be a decimal byte.
pub open spec fn button_arg(arg: Seq<char>) -> Option<u32> {
    match parse_u8_spec(trim(arg)) {
        Some(b) => Some(mouse_button_code(b)),
        None => None,
    }
}

/// The action that a command asks for, if any.
///
/// A command is a two- or three-letter verb followed by its argument, read
/// with surrounding whitespace trimmed:
/// - `mma X Y`: move the pointer (see [`move_action`]);
/// - `pm B` / `rm B`: press / release mouse button `B` (see [`button_arg`]);
/// - `pk K` / `rk K`: press / release the key named `K` (see [`keycode_of`]).
///
/// No text begins with two of these verbs, so a command asks for one action at most.
pub open spec fn command_action(cmd: Seq<char>) -> Option<HidActionView> {
    if has_prefix(cmd, seq!['m', 'm', 'a']) {
        move_action(cmd.skip(3))
    } else if has_prefix(cmd, seq!['p', 'm']) {
        match button_arg(cmd.skip(2)) {
            Some(b) => Some(HidActionView::MousePress { button: b }),
            None => None,
        }
    } else if has_prefix(cmd, seq!['r', 'm']) {
        match button_arg(cmd.skip(2)) {
            Some(b) => Some(HidActionView::MouseRelease { button: b }),
            None => None,
        }
    } else if has_prefix(cmd, seq!['p', 'k']) {
        Some(HidActionView::KeyPress { keycode: keycode_of(trim(cmd.skip(2))) })
    } else if has_prefix(cmd, seq!['r', 'k']) {
        Some(HidActionView::KeyRelease { keycode: keycode_of(trim(cmd.skip(2))) })
    } else {
        None
    }
}

/// Whether `s` begins with the two characters `a`, `b`.
fn starts_with2(s: &Vec<char>, a: char, b: char) -> (r: bool)
    ensures
        r == has_prefix(s@, seq![a, b]),
{
    if s.len() >= 2 && s[0] == a && s[1] == b {
        assert(s@.subrange(0, 2) =~= seq![a, b]);
        true
    } else {
        proof {
            if has_prefix(s@, seq![a, b]) {
                assert(s@.subrange(0, 2)[0] == s@[0]);
                assert(s@.subrange(0, 2)[1] == s@[1]);
            }
        }
        false
    }
}

impl HidCommand {
    /// A command holding the text `data`.
    pub fn new(data: &str) -> (r: Self)
        ensures
            r@ == data@,
    {
        HidCommand(String::from_str(data))
    }

    /// The action that this command asks of the input devices
    /// (see [`command_action`]).
    pub fn execute(&self) -> (r: Option<HidAction>)
        ensures
            action_view(r) == command_action(self@),
    {
        let text = self.0.as_str();
        let s = chars_of(text);
        let n = s.len();
        let is_move = n >= 3 && s[0] == 'm' && s[1] == 'm' && s[2] == 'a';
        proof {
            if is_move {
                assert(s@.subrange(0, 3) =~= seq!['m', 'm', 'a']);
            } else if has_prefix(s@, seq!['m', 'm', 'a']) {
                assert(s@.subrange(0, 3)[0] == s@[0]);
                assert(s@.subrange(0, 3)[1] == s@[1]);
                assert(s@.subrange(0, 3)[2] == s@[2]);
            }
        }
        if is_move {
            return move_command(text, &s);
        }
        if starts_with2(&s, 'p', 'm') {
            return match button_command(&s) {
                Some(button) => Some(HidAction::MousePress { button }),
                None => None,
            };
        }
        if starts_with2(&s, 'r', 'm') {
            return match button_command(&s) {
                Some(button) => Some(HidAction::MouseRelease { button }),
                None => None,
            };
        }
        if starts_with2(&s, 'p', 'k') {
            return Some(HidAction::KeyPress { keycode: key_command(text, &s) });
        }
        if starts_with2(&s, 'r', 'k') {
            return Some(HidAction::KeyRelease { keycode: key_command(text, &s) });
        }
        None
    }
}

/// The motion that an `mma` command, whose characters are `s`, asks for.
fn move_command(text: &str, s: &Vec<char>) -> (r: Option<HidAction>)
    requires
        s@ == text@,
        s@.len() >= 3,
    ensures
        action_view(r) == move_action(s@.skip(3)),
{
    let n = s.len();
    assert(s@.skip(3) =~= s@.subrange(3, n as int));
    let (a, b) = trim_bounds(s, 3, n);
    let ghost coords = s@.subrange(a as int, b as int);
    match find_char(s, a, b, ' ') {
        Some(k) => {
            assert(coords.take(k as int) =~= s@.subrange(a as int, a + k));
            assert(coords.skip(k + 1) =~= s@.subrange(a + k + 1, b as int));
            let x = String::from_str(text.substring_char(a, a + k));
            let y = String::from_str(text.substring_char(a + k + 1, b));
            Some(HidAction::MouseMove { x, y })
        },
        None => None,
    }
}

/// The button that a `pm` or `rm` command, whose characters are `s`, names.
fn button_command(s: &Vec<char>) -> (r: Option<u32>)
    requires
        s@.len() >= 2,
    ensures
        r == button_arg(s@.skip(2)),
{
    let n = s.len();
    assert(s@.skip(2) =~= s@.subrange(2, n as int));
    let (a, b) = trim_bounds(s, 2, n);
    match parse_u8(s, a, b) {
        Some(btn) => Some(get_mouse_button(btn)),
        None => None,
    }
}

/// The key code that a `pk` or `rk` command, whose characters are `s`, names.
fn key_command(text: &str, s: &Vec<char>) -> (r: u32)
    requires
        s@ == text@,
        s@.len() >= 2,
    ensures
        r == keycode_of(trim(s@.skip(2))),
{
    let n = s.len();
    assert(s@.skip(2) =~= s@.subrange(2, n as int));
    let (a, b) = trim_bounds(s, 2, n);
    keyname_to_keycode(text.substring_char(a, b))
}

/// A compositor global that input replay binds.
#[derive(PartialEq, Eq, Structural, Debug)]
pub enum InputGlobal {
    /// `zwp_virtual_keyboard_manager_v1`
    KeyboardManager,
    /// `zwlr_virtual_pointer_manager_v1`
    PointerManager,
    /// `wl_seat`
    Seat,
    /// `wl_output`
    Output,
}

/// Which global input replay binds, at the version announced, for an
/// interface that the compositor announces.
pub open spec fn input_global_spec(interface: Seq<char>) -> Option<InputGlobal> {
    if interface == "zwp_virtual_keyboard_manager_v1"@ {
        Some(InputGlobal::KeyboardManager)
    } else if interface == "zwlr_virtual_pointer_manager_v1"@ {
        Some(InputGlobal::PointerManager)
    } else if interface == "wl_seat"@ {
        Some(InputGlobal::Seat)
    } else if interface == "wl_output"@ {
        Some(InputGlobal::Output)
    } else {
        None
    }
}

/// Which global input replay binds for an announced interface (see [`input_global_spec`]).
pub fn input_global(interface: &str) -> (r: Option<InputGlobal>)
    ensures
        r == input_global_spec(interface@),
{
    let s = chars_of(interface);
    let n = s.len();
    assert(s@.subrange(0, n as int) =~= s@);
    if eq_str(&s, 0, n, "zwp_virtual_keyboard_manager_v1") {
        Some(InputGlobal::KeyboardManager)
    } else if eq_str(&s, 0, n, "zwlr_virtual_pointer_manager_v1") {
        Some(InputGlobal::PointerManager)
    } else if eq_str(&s, 0, n, "wl_seat") {
        Some(InputGlobal::Seat)
    } else if eq_str(&s, 0, n, "wl_output") {
        Some(InputGlobal::Output)
    } else {
        None
    }
}

/// The size of the output in pixels, as the compositor's mode events report
/// it; unknown until the first one.
#[derive(PartialEq, Eq, Structural, Clone, Copy, Debug)]
pub struct OutputSize {
    pub width: Option<i32>,
    pub height: Option<i32>,
}

impl OutputSize {
    /// The size before any mode event.
    pub fn unknown() -> (r: Self)
        ensures
            r == (OutputSize { width: None, height: None }),
    {
        OutputSize { width: None, height: None }
    }

    /// Takes in a mode event: the latest mode gives the size.
    pub fn on_mode(&mut self, width: i32, height: i32)
        ensures
            *final(self) == (OutputSize { width: Some(width), height: Some(height) }),
    {
        self.width = Some(width);
        self.height = Some(height);
    }

    /// Whether pointer motion can be scaled to this size: both dimensions
    /// known and nonzero (as floating-point numbers, normal ones).
    pub fn is_usable(&self) -> (r: bool)
        ensures
            r == (self.width is Some && self.width->0 != 0 && self.height is Some && self.height->0
                != 0),
    {
        match (self.width, self.height) {
            (Some(w), Some(h)) => w != 0 && h != 0,
            _ => false,
        }
    }
}

/// Key names are read without regard to ASCII case: two names that are equal
/// once lower-cased name the same key.
pub proof fn lemma_keycode_ignores_case(a: Seq<char>, b: Seq<char>)
    requires
        ascii_lower(a) == ascii_lower(b),
    ensures
        keycode_of(a) == keycode_of(b),
{
}

/// Lower-casing a key name does not change the key it names.
pub proof fn lemma_keycode_of_lowered(name: Seq<char>)
    ensures
        keycode_of(ascii_lower(name)) == keycode_of(name),
{
    assert(ascii_lower(ascii_lower(name)) =~= ascii_lower(name));
}

/// `pk` and `rk` with the same argument press and release the same key.
pub proof fn lemma_key_press_release(arg: Seq<char>)
    ensures
        command_action(seq!['p', 'k'] + arg) == Some(
            HidActionView::KeyPress { keycode: keycode_of(trim(arg)) },
        ),
        command_action(seq!['r', 'k'] + arg) == Some(
            HidActionView::KeyRelease { keycode: keycode_of(trim(arg)) },
        ),
{
    let p = seq!['p', 'k'] + arg;
    let r = seq!['r', 'k'] + arg;
    assert(p.subrange(0, 2) =~= seq!['p', 'k']);
    assert(r.subrange(0, 2) =~= seq!['r', 'k']);
    assert(p.skip(2) =~= arg);
    assert(r.skip(2) =~= arg);
    if p.len() >= 3 {
        assert(p.subrange(0, 3)[0] == 'p');
    }
    if r.len() >= 3 {
        assert(r.subrange(0, 3)[0] == 'r');
    }
    assert(p.subrange(0, 2)[0] == 'p');
    assert(r.subrange(0, 2)[0] == 'r');
    assert(r.subrange(0, 2)[1] == 'k');
}

/// `pm` and `rm` with the same argument press and release the same mouse
/// button, and either both ask for something or neither does.
pub proof fn lemma_button_press_release(arg: Seq<char>)
    ensures
        command_action(seq!['p', 'm'] + arg) == match button_arg(arg) {
            Some(b) => Some(HidActionView::MousePress { button: b }),
            None => None,
        },
        command_action(seq!['r', 'm'] + arg) == match button_arg(arg) {
            Some(b) => Some(HidActionView::MouseRelease { button: b }),
            None => None,
        },
{
    let p = seq!['p', 'm'] + arg;
    let r = seq!['r', 'm'] + arg;
    assert(p.subrange(0, 2) =~= seq!['p', 'm']);
    assert(r.subrange(0, 2) =~= seq!['r', 'm']);
    assert(p.skip(2) =~= arg);
    assert(r.skip(2) =~= arg);
    if p.len() >= 3 {
        assert(p.subrange(0, 3)[0] == 'p');
    }
    if r.len() >= 3 {
        assert(r.subrange(0, 3)[0] == 'r');
    }
    assert(r.subrange(0, 2)[0] == 'r');
}

/// A text that begins with none of the five verbs asks for nothing.
pub proof fn lemma_unknown_verb(cmd: Seq<char>)
    requires
        !has_prefix(cmd, seq!['m', 'm', 'a']),
        !has_prefix(cmd, seq!['p', 'm']),
        !has_prefix(cmd, seq!['r', 'm']),
        !has_prefix(cmd, seq!['p', 'k']),
        !has_prefix(cmd, seq!['r', 'k']),
    ensures
        command_action(cmd) is None,
{
}

/// No text begins with two of the five verbs, so a reading of a command that
/// tries every verb in turn performs one action at most.
pub proof fn lemma_verbs_exclusive(cmd: Seq<char>)
    ensures
        has_prefix(cmd, seq!['m', 'm', 'a']) ==> !has_prefix(cmd, seq!['p', 'm'])
            && !has_prefix(cmd, seq!['r', 'm']) && !has_prefix(cmd, seq!['p', 'k'])
            && !has_prefix(cmd, seq!['r', 'k']),
        has_prefix(cmd, seq!['p', 'm']) ==> !has_prefix(cmd, seq!['r', 'm'])
            && !has_prefix(cmd, seq!['p', 'k']) && !has_prefix(cmd, seq!['r', 'k']),
        has_prefix(cmd, seq!['r', 'm']) ==> !has_prefix(cmd, seq!['p', 'k'])
            && !has_prefix(cmd, seq!['r', 'k']),
        has_prefix(cmd, seq!['p', 'k']) ==> !has_prefix(cmd, seq!['r', 'k']),
{
    if cmd.len() >= 2 {
        let two = cmd.subrange(0, 2);
        assert(two[0] == cmd[0] && two[1] == cmd[1]);
        if cmd.len() >= 3 {
            let three = cmd.subrange(0, 3);
            assert(three[0] == cmd[0] && three[1] == cmd[1]);
        }
    }
}

/// Whitespace around the key name of a `pk` command does not change the key.
pub proof fn lemma_key_name_whitespace(before: Seq<char>, name: Seq<char>, after: Seq<char>)
    requires
        all_white_space(before),
        all_white_space(after),
    ensures
        command_action(seq!['p', 'k'] + before + name + after) == command_action(
            seq!['p', 'k'] + name,
        ),
{
    assert(seq!['p', 'k'] + before + name + after =~= seq!['p', 'k'] + (before + name + after));
    lemma_key_press_release(before + name + after);
    lemma_key_press_release(name);
    lemma_trim_surrounding_white_space(before, name, after);
}

/// An `mma` command moves the pointer to the coordinates it names: for a
/// first coordinate `x` without whitespace and a second `y` that does not end
/// in whitespace, `mma x y` asks to move to `x`, `y`, in that order.
pub proof fn lemma_move_coordinates(x: Seq<char>, y: Seq<char>)
    requires
        x.len() > 0,
        forall|i: int| 0 <= i < x.len() ==> !is_white_space(#[trigger] x[i]),
        y.len() > 0,
        !is_white_space(y.last()),
    ensures
        command_action(seq!['m', 'm', 'a', ' '] + x + seq![' '] + y) == Some(
            HidActionView::MouseMove { x, y },
        ),
{
    let cmd = seq!['m', 'm', 'a', ' '] + x + seq![' '] + y;
    let a = x + seq![' '] + y;
    assert(cmd.subrange(0, 3) =~= seq!['m', 'm', 'a']);
    assert(cmd.skip(3) =~= seq![' '] + a);
    assert((seq![' '] + a).drop_first() =~= a);
    assert(is_white_space(' '));
    assert(a[0] == x[0]);
    assert(!is_white_space(a[0]));
    assert(trim_start(a) == a);
    assert(trim_start(seq![' '] + a) == trim_start(a));
    assert(a.last() == y.last());
    assert(trim(cmd.skip(3)) == a);
    let k = x.len() as int;
    assert(a[k] == ' ');
    assert forall|j: int| 0 <= j < k implies a[j] != ' ' by {
        assert(a[j] == x[j]);
        if a[j] == ' ' {
            assert(is_white_space(x[j]));
        }
    }
    let i = choose|i: int| 0 <= i < a.len() && a[i] == ' ' && forall|j: int| 0 <= j < i ==> a[j] != ' ';
    assert(i == k);
    assert(first_index_of(a, ' ') == Some(k));
    assert(a.take(k) =~= x);
    assert(a.skip(k + 1) =~= y);
}

/// The browser's name of the key whose Linux input code is `code`, following
/// the `KEY_*` codes of `linux/input-event-codes.h`; empty for a code that no
/// key name maps to.
pub open spec fn linux_key_name(code: u32) -> Seq<char> {
    if code == 1 {
        // KEY_ESC
        "escape"@
    } else if code == 2 {
        // KEY_1
        "1"@
    } else if code == 3 {
        // KEY_2
        "2"@
    } else if code == 4 {
        // KEY_3
        "3"@
    } else if code == 5 {
        // KEY_4
        "4"@
    } else if code == 6 {
        // KEY_5
        "5"@
    } else if code == 7 {
        // KEY_6
        "6"@
    } else if code == 8 {
        // KEY_7
        "7"@
    } else if code == 9 {
        // KEY_8
        "8"@
    } else if code == 10 {
        // KEY_9
        "9"@
    } else if code == 11 {
        // KEY_0
        "0"@
    } else if code == 12 {
        // KEY_MINUS
        "-"@
    } else if code == 13 {
        // KEY_EQUAL
        "="@
    } else if code == 14 {
        // KEY_BACKSPACE
        "backspace"@
    } else if code == 15 {
        // KEY_TAB
        "tab"@
    } else if code == 16 {
        // KEY_Q
        "q"@
    } else if code == 17 {
        // KEY_W
        "w"@
    } else if code == 18 {
        // KEY_E
        "e"@
    } else if code == 19 {
        // KEY_R
        "r"@
    } else if code == 20 {
        // KEY_T
        "t"@
    } else if code == 21 {
        // KEY_Y
        "y"@
    } else if code == 22 {
        // KEY_U
        "u"@
    } else if code == 23 {
        // KEY_I
        "i"@
    } else if code == 24 {
        // KEY_O
        "o"@
    } else if code == 25 {
        // KEY_P
        "p"@
    } else if code == 26 {
        // KEY_LEFTBRACE
        "["@
    } else if code == 27 {
        // KEY_RIGHTBRACE
        "]"@
    } else if code == 28 {
        // KEY_ENTER
        "enter"@
    } else if code == 29 {
        // KEY_LEFTCTRL
        "controlleft"@
    } else if code == 30 {
        // KEY_A
        "a"@
    } else if code == 31 {
        // KEY_S
        "s"@
    } else if code == 32 {
        // KEY_D
        "d"@
    } else if code == 33 {
        // KEY_F
        "f"@
    } else if code == 34 {
        // KEY_G
        "g"@
    } else if code == 35 {
        // KEY_H
        "h"@
    } else if code == 36 {
        // KEY_J
        "j"@
    } else if code == 37 {
        // KEY_K
        "k"@
    } else if code == 38 {
        // KEY_L
        "l"@
    } else if code == 39 {
        // KEY_SEMICOLON
        ";"@
    } else if code == 40 {
        // KEY_APOSTROPHE
        "'"@
    } else if code == 41 {
        // KEY_GRAVE
        "`"@
    } else if code == 42 {
        // KEY_LEFTSHIFT
        "shiftleft"@
    } else if code == 43 {
        // KEY_BACKSLASH
        "\\"@
    } else if code == 44 {
        // KEY_Z
        "z"@
    } else if code == 45 {
        // KEY_X
        "x"@
    } else if code == 46 {
        // KEY_C
        "c"@
    } else if code == 47 {
        // KEY_V
        "v"@
    } else if code == 48 {
        // KEY_B
        "b"@
    } else if code == 49 {
        // KEY_N
        "n"@
    } else if code == 50 {
        // KEY_M
        "m"@
    } else if code == 51 {
        // KEY_COMMA
        ","@
    } else if code == 52 {
        // KEY_DOT
        "."@
    } else if code == 53 {
        // KEY_SLASH
        "/"@
    } else if code == 54 {
        // KEY_RIGHTSHIFT
        "shiftright"@
    } else if code == 55 {
        // KEY_KPASTERISK
        "numpadmultiply"@
    } else if code == 56 {
        // KEY_LEFTALT
        "altleft"@
    } else if code == 57 {
        // KEY_SPACE
        "space"@
    } else if code == 58 {
        // KEY_CAPSLOCK
        "capslock"@
    } else if code == 59 {
        // KEY_F1
        "f1"@
    } else if code == 60 {
        // KEY_F2
        "f2"@
    } else if code == 61 {
        // KEY_F3
        "f3"@
    } else if code == 62 {
        // KEY_F4
        "f4"@
    } else if code == 63 {
        // KEY_F5
        "f5"@
    } else if code == 64 {
        // KEY_F6
        "f6"@
    } else if code == 65 {
        // KEY_F7
        "f7"@
    } else if code == 66 {
        // KEY_F8
        "f8"@
    } else if code == 67 {
        // KEY_F9
        "f9"@
    } else if code == 68 {
        // KEY_F10
        "f10"@
    } else if code == 70 {
        // KEY_SCROLLLOCK
        "scrolllock"@
    } else if code == 71 {
        // KEY_KP7
        "numpad7"@
    } else if code == 72 {
        // KEY_KP8
        "numpad8"@
    } else if code == 73 {
        // KEY_KP9
        "numpad9"@
    } else if code == 74 {
        // KEY_KPMINUS
        "numpadsubtract"@
    } else if code == 75 {
        // KEY_KP4
        "numpad4"@
    } else if code == 76 {
        // KEY_KP5
        "numpad5"@
    } else if code == 77 {
        // KEY_KP6
        "numpad6"@
    } else if code == 78 {
        // KEY_KPPLUS
        "numpadadd"@
    } else if code == 79 {
        // KEY_KP1
        "numpad1"@
    } else if code == 80 {
        // KEY_KP2
        "numpad2"@
    } else if code == 81 {
        // KEY_KP3
        "numpad3"@
    } else if code == 82 {
        // KEY_KP0
        "numpad0"@
    } else if code == 83 {
        // KEY_KPDOT
        "numpaddecimal"@
    } else if code == 87 {
        // KEY_F11
        "f11"@
    } else if code == 88 {
        // KEY_F12
        "f12"@
    } else if code == 96 {
        // KEY_KPENTER
        "numpadenter"@
    } else if code == 97 {
        // KEY_RIGHTCTRL
        "controlright"@
    } else if code == 98 {
        // KEY_KPSLASH
        "numpaddivide"@
    } else if code == 99 {
        // KEY_SYSRQ
        "printscreen"@
    } else if code == 100 {
        // KEY_RIGHTALT
        "altright"@
    } else if code == 102 {
        // KEY_HOME
        "home"@
    } else if code == 103 {
        // KEY_UP
        "arrowup"@
    } else if code == 104 {
        // KEY_PAGEUP
        "pageup"@
    } else if code == 105 {
        // KEY_LEFT
        "arrowleft"@
    } else if code == 106 {
        // KEY_RIGHT
        "arrowright"@
    } else if code == 107 {
        // KEY_END
        "end"@
    } else if code == 108 {
        // KEY_DOWN
        "arrowdown"@
    } else if code == 109 {
        // KEY_PAGEDOWN
        "pagedown"@
    } else if code == 110 {
        // KEY_INSERT
        "insert"@
    } else if code == 111 {
        // KEY_DELETE
        "delete"@
    } else if code == 119 {
        // KEY_PAUSE
        "pause"@
    } else if code == 125 {
        // KEY_LEFTMETA
        "metaleft"@
    } else if code == 126 {
        // KEY_RIGHTMETA
        "metaright"@
    } else {
        Seq::empty()
    }
}

/// The character on the same key as `c` without Shift on a US keyboard, for
/// the shifted symbols; every other character stays as it is.
pub open spec fn unshifted(c: char) -> char {
    match c {
        '!' => '1',
        '@' => '2',
        '#' => '3',
        '$' => '4',
        '%' => '5',
        '^' => '6',
        '&' => '7',
        '*' => '8',
        '(' => '9',
        ')' => '0',
        '_' => '-',
        '+' => '=',
        '{' => '[',
        '}' => ']',
        '|' => '\\',
        ':' => ';',
        '"' => '\'',
        '~' => '`',
        '<' => ',',
        '>' => '.',
        '?' => '/',
        _ => c,
    }
}

/// The name of the key that a lower-case key name stands for: a shifted
/// symbol stands for the key that carries it, `" "` for `space`, and the
/// names `shift`, `control`, `alt` and `meta` for the left-hand key.
pub open spec fn base_key(name: Seq<char>) -> Seq<char> {
    if name.len() == 1 {
        if name[0] == ' ' {
            "space"@
        } else {
            seq![unshifted(name[0])]
        }
    } else if name == "shift"@ {
        "shiftleft"@
    } else if name == "control"@ {
        "controlleft"@
    } else if name == "alt"@ {
        "altleft"@
    } else if name == "meta"@ {
        "metaleft"@
    } else {
        name
    }
}

/// Every key name that the table knows is given the Linux input code of the
/// key it names: the key that [`linux_key_name`] names for the code is the
/// one that [`base_key`] reads the name as.
#[verifier::rlimit(100)]
pub proof fn lemma_key_table_linux_codes(name: Seq<char>)
    ensures
        key_table(name) != 0 ==> linux_key_name(key_table(name)) == base_key(name),
{
    reveal(key_table);
    reveal_strlit("shift");
    reveal_strlit("control");
    reveal_strlit("alt");
    reveal_strlit("meta");
    reveal_strlit("space");
    reveal_strlit("shiftleft");
    reveal_strlit("controlleft");
    reveal_strlit("altleft");
    reveal_strlit("metaleft");
    if name == "a"@ {
        reveal_strlit("a");
        assert(linux_key_name(key_table(name)) == base_key(name));
    } else if name == "b"@ {
        reveal_strlit("b");
        assert(linux_key_name(key_table(name)) == base_key(name));
    } else if name == "c"@ {
        reveal_strlit("c");
        assert(linux_key_name(key_table(name)) == base_key(name));
    } else if name == "d"@ {
        reveal_strlit("d");
        assert(linux_key_name(key_table(name)) == base_key(name));
    } else if name == "e"@ {
        reveal_strlit("e");
        assert(linux_key_name(key_table(name)) == base_key(name));
    } else if name == "f"@ {
        reveal_strlit("f");
        assert(linux_key_name(key_table(name)) == base_key(name));
    } else if name == "g"@ {
        reveal_strlit("g");
        assert(linux_key_name(key_table(name)) == base_key(name));
    } else if name == "h"@ {
        reveal_strlit("h");
        assert(linux_key_name(key_table(name)) == base_key(name));
    } else if name == "i"@ {
        reveal_strlit("i");
        assert(linux_key_name(key_table(name)) == base_key(name));
    } else if name == "j"@ {
        reveal_strlit("j");
        assert(linux_key_name(key_table(name)) == base_key(name));
    } else if name == "k"@ {
        reveal_strlit("k");
        assert(linux_key_name(key_table(name)) == base_key(name));
    } else if name == "l"@ {
        reveal_strlit("l");
        assert(linux_key_name(key_table(name)) == base_key(name));
    } else if name == "m"@ {
        reveal_strlit("m");
        assert(linux_key_name(key_table(name)) == base_key(name));
    } else if name == "n"@ {
        reveal_strlit("n");
        assert(linux_key_name(key_table(name)) == base_key(name));
    } else if name == "o"@ {
        reveal_strlit("o");
        assert(linux_key_name(key_table(name)) == base_key(name));
    } else if name == "p"@ {
        reveal_strlit("p");
        assert(linux_key_name(key_table(name)) == base_key(name));
    } else if name == "q"@ {
        reveal_strlit("q");
        assert(linux_key_name(key_table(name)) == base_key(name));
    } else if name == "r"@ {
        reveal_strlit("r");
        assert(linux_key_name(key_table(name)) == base_key(name));
    } else if name == "s"@ {
        reveal_strlit("s");
        assert(linux_key_name(key_table(name)) == base_key(name));
    } else if name == "t"@ {
        reveal_strlit("t");
        assert(linux_key_name(key_table(name)) == base_key(name));
    } else if name == "u"@ {
        reveal_strlit("u");
        assert(linux_key_name(key_table(name)) == base_key(name));
    } else if name == "v"@ {
        reveal_strlit("v");
        assert(linux_key_name(key_table(name)) == base_key(name));
    } else if name == "w"@ {
        reveal_strlit("w");
        assert(linux_key_name(key_table(name)) == base_key(name));
    } else if name == "x"@ {
        reveal_strlit("x");
        assert(linux_key_name(key_table(name)) == base_key(name));
    } else if name == "y"@ {
        reveal_strlit("y");
        assert(linux_key_name(key_table(name)) == base_key(name));
    } else if name == "z"@ {
        reveal_strlit("z");
        assert(linux_key_name(key_table(name)) == base_key(name));
    } else if name == "1"@ {
        reveal_strlit("1");
        assert(linux_key_name(key_table(name)) == base_key(name));
    } else if name == "2"@ {
        reveal_strlit("2");
        assert(linux_key_name(key_table(name)) == base_key(name));
    } else if name == "3"@ {
        reveal_strlit("3");
        assert(linux_key_name(key_table(name)) == base_key(name));
    } else if name == "4"@ {
        reveal_strlit("4");
        assert(linux_key_name(key_table(name)) == base_key(name));
    } else if name == "5"@ {
        reveal_strlit("5");
        assert(linux_key_name(key_table(name)) == base_key(name));
    } else if name == "6"@ {
        reveal_strlit("6");
        assert(linux_key_name(key_table(name)) == base_key(name));
    } else if name == "7"@ {
        reveal_strlit("7");
        assert(linux_key_name(key_table(name)) == base_key(name));
    } else if name == "8"@ {
        reveal_strlit("8");
        assert(linux_key_name(key_table(name)) == base_key(name));
    } else if name == "9"@ {
        reveal_strlit("9");
        assert(linux_key_name(key_table(name)) == base_key(name));
    } else if name == "0"@ {
        reveal_strlit("0");
        assert(linux_key_name(key_table(name)) == base_key(name));
    } else if name == "numpad0"@ {
        reveal_strlit("numpad0");
        assert("numpad0"@[0] != "control"@[0]);
        assert(linux_key_name(key_table(name)) == base_key(name));
    } else if name == "numpad1"@ {
        reveal_strlit("numpad1");
        assert("numpad1"@[0] != "control"@[0]);
        assert(linux_key_name(key_table(name)) == base_key(name));
    } else if name == "numpad2"@ {
        reveal_strlit("numpad2");
        assert("numpad2"@[0] != "control"@[0]);
        assert(linux_key_name(key_table(name)) == base_key(name));
    } else if name == "numpad3"@ {
        reveal_strlit("numpad3");
        assert("numpad3"@[0] != "control"@[0]);
        assert(linux_key_name(key_table(name)) == base_key(name));
    } else if name == "numpad4"@ {
        reveal_strlit("numpad4");
        assert("numpad4"@[0] != "control"@[0]);
        assert(linux_key_name(key_table(name)) == base_key(name));
    } else if name == "numpad5"@ {
        reveal_strlit("numpad5");
        assert("numpad5"@[0] != "control"@[0]);
        assert(linux_key_name(key_table(name)) == base_key(name));
    } else if name == "numpad6"@ {
        reveal_strlit("numpad6");
        assert("numpad6"@[0] != "control"@[0]);
        assert(linux_key_name(key_table(name)) == base_key(name));
    } else if name == "numpad7"@ {
        reveal_strlit("numpad7");
        assert("numpad7"@[0] != "control"@[0]);
        assert(linux_key_name(key_table(name)) == base_key(name));
    } else if name == "numpad8"@ {
        reveal_strlit("numpad8");
        assert("numpad8"@[0] != "control"@[0]);
        assert(linux_key_name(key_table(name)) == base_key(name));
    } else if name == "numpad9"@ {
        reveal_strlit("numpad9");
        assert("numpad9"@[0] != "control"@[0]);
        assert(linux_key_name(key_table(name)) == base_key(name));
    } else if name == "numpadenter"@ {
        reveal_strlit("numpadenter");
        assert(linux_key_name(key_table(name)) == base_key(name));
    } else if name == "numpadadd"@ {
        reveal_strlit("numpadadd");
        assert(linux_key_name(key_table(name)) == base_key(name));
    } else if name == "numpadsubtract"@ {
        reveal_strlit("numpadsubtract");
        assert(linux_key_name(key_table(name)) == base_key(name));
    } else if name == "numpadmultiply"@ {
        reveal_strlit("numpadmultiply");
        assert(linux_key_name(key_table(name)) == base_key(name));
    } else if name == "numpaddivide"@ {
        reveal_strlit("numpaddivide");
        assert(linux_key_name(key_table(name)) == base_key(name));
    } else if name == "numpaddecimal"@ {
        reveal_strlit("numpaddecimal");
        assert(linux_key_name(key_table(name)) == base_key(name));
    } else if name == "-"@ {
        reveal_strlit("-");
        assert(linux_key_name(key_table(name)) == base_key(name));
    } else if name == "="@ {
        reveal_strlit("=");
        assert(linux_key_name(key_table(name)) == base_key(name));
    } else if name == "["@ {
        reveal_strlit("[");
        assert(linux_key_name(key_table(name)) == base_key(name));
    } else if name == "]"@ {
        reveal_strlit("]");
        assert(linux_key_name(key_table(name)) == base_key(name));
    } else if name == "\\"@ {
        reveal_strlit("\\");
        assert(linux_key_name(key_table(name)) == base_key(name));
    } else if name == ";"@ {
        reveal_strlit(";");
        assert(linux_key_name(key_table(name)) == base_key(name));
    } else if name == "'"@ {
        reveal_strlit("'");
        assert(linux_key_name(key_table(name)) == base_key(name));
    } else if name == "`"@ {
        reveal_strlit("`");
        assert(linux_key_name(key_table(name)) == base_key(name));
    } else if name == ","@ {
        reveal_strlit(",");
        assert(linux_key_name(key_table(name)) == base_key(name));
    } else if name == "."@ {
        reveal_strlit(".");
        assert(linux_key_name(key_table(name)) == base_key(name));
    } else if name == "/"@ {
        reveal_strlit("/");
        assert(linux_key_name(key_table(name)) == base_key(name));
    } else if name == "!"@ {
        reveal_strlit("!");
        reveal_strlit("1");
        assert(seq![unshifted(name[0])] =~= "1"@);
        assert(linux_key_name(key_table(name)) == base_key(name));
    } else if name == "@"@ {
        reveal_strlit("@");
        reveal_strlit("2");
        assert(seq![unshifted(name[0])] =~= "2"@);
        assert(linux_key_name(key_table(name)) == base_key(name));
    } else if name == "#"@ {
        reveal_strlit("#");
        reveal_strlit("3");
        assert(seq![unshifted(name[0])] =~= "3"@);
        assert(linux_key_name(key_table(name)) == base_key(name));
    } else if name == "$"@ {
        reveal_strlit("$");
        reveal_strlit("4");
        assert(seq![unshifted(name[0])] =~= "4"@);
        assert(linux_key_name(key_table(name)) == base_key(name));
    } else if name == "%"@ {
        reveal_strlit("%");
        reveal_strlit("5");
        assert(seq![unshifted(name[0])] =~= "5"@);
        assert(linux_key_name(key_table(name)) == base_key(name));
    } else if name == "^"@ {
        reveal_strlit("^");
        reveal_strlit("6");
        assert(seq![unshifted(name[0])] =~= "6"@);
        assert(linux_key_name(key_table(name)) == base_key(name));
    } else if name == "&"@ {
        reveal_strlit("&");
        reveal_strlit("7");
        assert(seq![unshifted(name[0])] =~= "7"@);
        assert(linux_key_name(key_table(name)) == base_key(name));
    } else if name == "*"@ {
        reveal_strlit("*");
        reveal_strlit("8");
        assert(seq![unshifted(name[0])] =~= "8"@);
        assert(linux_key_name(key_table(name)) == base_key(name));
    } else if name == "("@ {
        reveal_strlit("(");
        reveal_strlit("9");
        assert(seq![unshifted(name[0])] =~= "9"@);
        assert(linux_key_name(key_table(name)) == base_key(name));
    } else if name == ")"@ {
        reveal_strlit(")");
        reveal_strlit("0");
        assert(seq![unshifted(name[0])] =~= "0"@);
        assert(linux_key_name(key_table(name)) == base_key(name));
    } else if name == "_"@ {
        reveal_strlit("_");
        reveal_strlit("-");
        assert(seq![unshifted(name[0])] =~= "-"@);
        assert(linux_key_name(key_table(name)) == base_key(name));
    } else if name == "+"@ {
        reveal_strlit("+");
        reveal_strlit("=");
        assert(seq![unshifted(name[0])] =~= "="@);
        assert(linux_key_name(key_table(name)) == base_key(name));
    } else if name == "{"@ {
        reveal_strlit("{");
        reveal_strlit("[");
        assert(seq![unshifted(name[0])] =~= "["@);
        assert(linux_key_name(key_table(name)) == base_key(name));
    } else if name == "}"@ {
        reveal_strlit("}");
        reveal_strlit("]");
        assert(seq![unshifted(name[0])] =~= "]"@);
        assert(linux_key_name(key_table(name)) == base_key(name));
    } else if name == "|"@ {
        reveal_strlit("|");
        reveal_strlit("\\");
        assert(seq![unshifted(name[0])] =~= "\\"@);
        assert(linux_key_name(key_table(name)) == base_key(name));
    } else if name == ":"@ {
        reveal_strlit(":");
        reveal_strlit(";");
        assert(seq![unshifted(name[0])] =~= ";"@);
        assert(linux_key_name(key_table(name)) == base_key(name));
    } else if name == "\""@ {
        reveal_strlit("\"");
        reveal_strlit("'");
        assert(seq![unshifted(name[0])] =~= "'"@);
        assert(linux_key_name(key_table(name)) == base_key(name));
    } else if name == "~"@ {
        reveal_strlit("~");
        reveal_strlit("`");
        assert(seq![unshifted(name[0])] =~= "`"@);
        assert(linux_key_name(key_table(name)) == base_key(name));
    } else if name == "<"@ {
        reveal_strlit("<");
        reveal_strlit(",");
        assert(seq![unshifted(name[0])] =~= ","@);
        assert(linux_key_name(key_table(name)) == base_key(name));
    } else if name == ">"@ {
        reveal_strlit(">");
        reveal_strlit(".");
        assert(seq![unshifted(name[0])] =~= "."@);
        assert(linux_key_name(key_table(name)) == base_key(name));
    } else if name == "?"@ {
        reveal_strlit("?");
        reveal_strlit("/");
        assert(seq![unshifted(name[0])] =~= "/"@);
        assert(linux_key_name(key_table(name)) == base_key(name));
    } else if name == "shift"@ {
        reveal_strlit("shift");
        assert(linux_key_name(key_table(name)) == base_key(name));
    } else if name == "shiftleft"@ {
        reveal_strlit("shiftleft");
        assert(linux_key_name(key_table(name)) == base_key(name));
    } else if name == "shiftright"@ {
        reveal_strlit("shiftright");
        assert(linux_key_name(key_table(name)) == base_key(name));
    } else if name == "control"@ {
        reveal_strlit("control");
        assert(linux_key_name(key_table(name)) == base_key(name));
    } else if name == "controlleft"@ {
        reveal_strlit("controlleft");
        assert(linux_key_name(key_table(name)) == base_key(name));
    } else if name == "controlright"@ {
        reveal_strlit("controlright");
        assert(linux_key_name(key_table(name)) == base_key(name));
    } else if name == "alt"@ {
        reveal_strlit("alt");
        assert(linux_key_name(key_table(name)) == base_key(name));
    } else if name == "altleft"@ {
        reveal_strlit("altleft");
        assert("altleft"@[0] != "control"@[0]);
        assert(linux_key_name(key_table(name)) == base_key(name));
    } else if name == "altright"@ {
        reveal_strlit("altright");
        assert(linux_key_name(key_table(name)) == base_key(name));
    } else if name == "meta"@ {
        reveal_strlit("meta");
        assert(linux_key_name(key_table(name)) == base_key(name));
    } else if name == "metaleft"@ {
        reveal_strlit("metaleft");
        assert(linux_key_name(key_table(name)) == base_key(name));
    } else if name == "metaright"@ {
        reveal_strlit("metaright");
        assert(linux_key_name(key_table(name)) == base_key(name));
    } else if name == "capslock"@ {
        reveal_strlit("capslock");
        assert(linux_key_name(key_table(name)) == base_key(name));
    } else if name == "insert"@ {
        reveal_strlit("insert");
        assert(linux_key_name(key_table(name)) == base_key(name));
    } else if name == "delete"@ {
        reveal_strlit("delete");
        assert(linux_key_name(key_table(name)) == base_key(name));
    } else if name == "home"@ {
        reveal_strlit("home");
        assert("home"@[0] != "meta"@[0]);
        assert(linux_key_name(key_table(name)) == base_key(name));
    } else if name == "end"@ {
        reveal_strlit("end");
        assert("end"@[0] != "alt"@[0]);
        assert(linux_key_name(key_table(name)) == base_key(name));
    } else if name == "pageup"@ {
        reveal_strlit("pageup");
        assert(linux_key_name(key_table(name)) == base_key(name));
    } else if name == "pagedown"@ {
        reveal_strlit("pagedown");
        assert(linux_key_name(key_table(name)) == base_key(name));
    } else if name == "arrowdown"@ {
        reveal_strlit("arrowdown");
        assert(linux_key_name(key_table(name)) == base_key(name));
    } else if name == "arrowup"@ {
        reveal_strlit("arrowup");
        assert("arrowup"@[0] != "control"@[0]);
        assert(linux_key_name(key_table(name)) == base_key(name));
    } else if name == "arrowleft"@ {
        reveal_strlit("arrowleft");
        assert(linux_key_name(key_table(name)) == base_key(name));
    } else if name == "arrowright"@ {
        reveal_strlit("arrowright");
        assert(linux_key_name(key_table(name)) == base_key(name));
    } else if name == "f1"@ {
        reveal_strlit("f1");
        assert(linux_key_name(key_table(name)) == base_key(name));
    } else if name == "f2"@ {
        reveal_strlit("f2");
        assert(linux_key_name(key_table(name)) == base_key(name));
    } else if name == "f3"@ {
        reveal_strlit("f3");
        assert(linux_key_name(key_table(name)) == base_key(name));
    } else if name == "f4"@ {
        reveal_strlit("f4");
        assert(linux_key_name(key_table(name)) == base_key(name));
    } else if name == "f5"@ {
        reveal_strlit("f5");
        assert(linux_key_name(key_table(name)) == base_key(name));
    } else if name == "f6"@ {
        reveal_strlit("f6");
        assert(linux_key_name(key_table(name)) == base_key(name));
    } else if name == "f7"@ {
        reveal_strlit("f7");
        assert(linux_key_name(key_table(name)) == base_key(name));
    } else if name == "f8"@ {
        reveal_strlit("f8");
        assert(linux_key_name(key_table(name)) == base_key(name));
    } else if name == "f9"@ {
        reveal_strlit("f9");
        assert(linux_key_name(key_table(name)) == base_key(name));
    } else if name == "f10"@ {
        reveal_strlit("f10");
        assert("f10"@[0] != "alt"@[0]);
        assert(linux_key_name(key_table(name)) == base_key(name));
    } else if name == "f11"@ {
        reveal_strlit("f11");
        assert("f11"@[0] != "alt"@[0]);
        assert(linux_key_name(key_table(name)) == base_key(name));
    } else if name == "f12"@ {
        reveal_strlit("f12");
        assert("f12"@[0] != "alt"@[0]);
        assert(linux_key_name(key_table(name)) == base_key(name));
    } else if name == "printscreen"@ {
        reveal_strlit("printscreen");
        assert(linux_key_name(key_table(name)) == base_key(name));
    } else if name == "scrolllock"@ {
        reveal_strlit("scrolllock");
        assert(linux_key_name(key_table(name)) == base_key(name));
    } else if name == "pause"@ {
        reveal_strlit("pause");
        assert("pause"@[0] != "shift"@[0]);
        assert(linux_key_name(key_table(name)) == base_key(name));
    } else if name == " "@ {
        reveal_strlit(" ");
        assert(linux_key_name(key_table(name)) == base_key(name));
    } else if name == "space"@ {
        reveal_strlit("space");
        assert("space"@[1] != "shift"@[1]);
        assert(linux_key_name(key_table(name)) == base_key(name));
    } else if name == "enter"@ {
        reveal_strlit("enter");
        assert("enter"@[0] != "shift"@[0]);
        assert(linux_key_name(key_table(name)) == base_key(name));
    } else if name == "tab"@ {
        reveal_strlit("tab");
        assert("tab"@[0] != "alt"@[0]);
        assert(linux_key_name(key_table(name)) == base_key(name));
    } else if name == "backspace"@ {
        reveal_strlit("backspace");
        assert(linux_key_name(key_table(name)) == base_key(name));
    } else if name == "escape"@ {
        reveal_strlit("escape");
        assert(linux_key_name(key_table(name)) == base_key(name));
    }
}

/// Every key name is pressed as the key it names, whatever its case: where a
/// name maps to a key, the Linux code it gets is that of the key that
/// [`base_key`] reads the lower-cased name as.
pub proof fn lemma_keycode_is_linux_code(name: Seq<char>)
    ensures
        keycode_of(name) != 0 ==> linux_key_name(keycode_of(name)) == base_key(ascii_lower(name)),
{
    lemma_key_table_linux_codes(ascii_lower(name));
}

/// Two key names that stand for different keys never share a code, so no key
/// is pressed in place of another.
pub proof fn lemma_distinct_keys_distinct_codes(a: Seq<char>, b: Seq<char>)
    requires
        keycode_of(a) != 0,
        base_key(ascii_lower(a)) != base_key(ascii_lower(b)),
    ensures
        keycode_of(a) != keycode_of(b),
{
    lemma_keycode_is_linux_code(a);
    lemma_keycode_is_linux_code(b);
}

} // verus!
