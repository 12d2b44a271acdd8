//! The buttons of a gamepad report.
use crate::wire::copy_range;
use vstd::prelude::*;

verus! {

/// The `u32` stored big-endian at position `i` of `s`.
pub open spec fn get_u32_be(s: Seq<u8>, i: int) -> u32 {
    (s[i] * 16777216 + s[i + 1] * 65536 + s[i + 2] * 256 + s[i + 3]) as u32
}

/// Calls `byteorder::BigEndian::read_i32`: the first four bytes of `buf`, big-endian, as an
/// `i32` (two's complement). Its source reads `u32::from_be_bytes(buf[..4])` and casts; it
/// panics on fewer than four bytes, which `requires` rules out.
#[verifier::external_body]
fn read_i32_be(buf: &[u8]) -> (r: i32)
    requires
        buf@.len() >= 4,
    ensures
        r == get_u32_be(buf@, 0) as i32,
{
    <byteorder::BigEndian as byteorder::ByteOrder>::read_i32(buf)
}

/// Where the button word starts in a report: after eighteen header bytes and six floats.
pub const BUTTONS_OFFSET: usize = 42;

/// The button word of a report is the four bytes from byte 42 on, most significant first.
pub proof fn lemma_button_word_position(s: Seq<u8>)
    requires
        s.len() >= 46,
    ensures
        BUTTONS_OFFSET == 42,
        get_u32_be(s, BUTTONS_OFFSET as int) as int == s[42] * 16777216 + s[43] * 65536 + s[44] * 256
            + s[45],
{
    assert(s[42] * 16777216 + s[43] * 65536 + s[44] * 256 + s[45] <= 0xFFFF_FFFF) by (nonlinear_arith)
        requires
            s[42] <= 255,
            s[43] <= 255,
            s[44] <= 255,
            s[45] <= 255,
    ;
}

/// The buttons of a gamepad, one flag each.
#[derive(Debug, Clone, Copy, PartialEq, Eq, Structural)]
pub struct GamepadButtons {
    pub touchpad_finger_1: bool,
    pub touchpad_finger_2: bool,
    pub touchpad: bool,
    pub left_stick_button: bool,
    pub right_stick_button: bool,
    pub dpad_up: bool,
    pub dpad_down: bool,
    pub dpad_left: bool,
    pub dpad_right: bool,
    pub a: bool,
    pub b: bool,
    pub x: bool,
    pub y: bool,
    pub guide: bool,
    pub start: bool,
    pub back: bool,
    pub left_bumper: bool,
    pub right_bumper: bool,
}

/// Whether bit mask `m` is set in the button word.
pub open spec fn bit_set(buttons: i32, m: i32) -> bool {
    buttons & m != 0
}

/// The buttons a button word stands for, one bit each (bit 17 down to bit 0).
pub open spec fn spec_decode_buttons(buttons: i32) -> GamepadButtons {
    GamepadButtons {
        touchpad_finger_1: bit_set(buttons, 0x20000),
        touchpad_finger_2: bit_set(buttons, 0x10000),
        touchpad: bit_set(buttons, 0x08000),
        left_stick_button: bit_set(buttons, 0x04000),
        right_stick_button: bit_set(buttons, 0x02000),
        dpad_up: bit_set(buttons, 0x01000),
        dpad_down: bit_set(buttons, 0x00800),
        dpad_left: bit_set(buttons, 0x00400),
        dpad_right: bit_set(buttons, 0x00200),
        a: bit_set(buttons, 0x00100),
        b: bit_set(buttons, 0x00080),
        x: bit_set(buttons, 0x00040),
        y: bit_set(buttons, 0x00020),
        guide: bit_set(buttons, 0x00010),
        start: bit_set(buttons, 0x00008),
        back: bit_set(buttons, 0x00004),
        left_bumper: bit_set(buttons, 0x00002),
        right_bumper: bit_set(buttons, 0x00001),
    }
}

/// A mask test of the button word is a test of one bit.
proof fn lemma_button_bits(w: i32)
    by (bit_vector)
    ensures
        (w & 0x20000i32 != 0) == ((w >> 17i32) & 1i32 == 1i32),
        (w & 0x10000i32 != 0) == ((w >> 16i32) & 1i32 == 1i32),
        (w & 0x8000i32 != 0) == ((w >> 15i32) & 1i32 == 1i32),
        (w & 0x4000i32 != 0) == ((w >> 14i32) & 1i32 == 1i32),
        (w & 0x2000i32 != 0) == ((w >> 13i32) & 1i32 == 1i32),
        (w & 0x1000i32 != 0) == ((w >> 12i32) & 1i32 == 1i32),
        (w & 0x800i32 != 0) == ((w >> 11i32) & 1i32 == 1i32),
        (w & 0x400i32 != 0) == ((w >> 10i32) & 1i32 == 1i32),
        (w & 0x200i32 != 0) == ((w >> 9i32) & 1i32 == 1i32),
        (w & 0x100i32 != 0) == ((w >> 8i32) & 1i32 == 1i32),
        (w & 0x80i32 != 0) == ((w >> 7i32) & 1i32 == 1i32),
        (w & 0x40i32 != 0) == ((w >> 6i32) & 1i32 == 1i32),
        (w & 0x20i32 != 0) == ((w >> 5i32) & 1i32 == 1i32),
        (w & 0x10i32 != 0) == ((w >> 4i32) & 1i32 == 1i32),
        (w & 0x8i32 != 0) == ((w >> 3i32) & 1i32 == 1i32),
        (w & 0x4i32 != 0) == ((w >> 2i32) & 1i32 == 1i32),
        (w & 0x2i32 != 0) == ((w >> 1i32) & 1i32 == 1i32),
        (w & 0x1i32 != 0) == ((w >> 0i32) & 1i32 == 1i32),
{
}

/// Each button is its own bit of the button word, in the layout of the controller reports:
/// right bumper bit 0, left bumper 1, back 2, start 3, guide 4, y 5, x 6, b 7, a 8, dpad right 9,
/// left 10, down 11, up 12, right stick button 13, left stick button 14, touchpad 15, second and
/// first touchpad finger 16 and 17.
pub proof fn lemma_buttons_are_bits(w: i32)
    ensures
        spec_decode_buttons(w).touchpad_finger_1 == ((w >> 17i32) & 1i32 == 1i32),
        spec_decode_buttons(w).touchpad_finger_2 == ((w >> 16i32) & 1i32 == 1i32),
        spec_decode_buttons(w).touchpad == ((w >> 15i32) & 1i32 == 1i32),
        spec_decode_buttons(w).left_stick_button == ((w >> 14i32) & 1i32 == 1i32),
        spec_decode_buttons(w).right_stick_button == ((w >> 13i32) & 1i32 == 1i32),
        spec_decode_buttons(w).dpad_up == ((w >> 12i32) & 1i32 == 1i32),
        spec_decode_buttons(w).dpad_down == ((w >> 11i32) & 1i32 == 1i32),
        spec_decode_buttons(w).dpad_left == ((w >> 10i32) & 1i32 == 1i32),
        spec_decode_buttons(w).dpad_right == ((w >> 9i32) & 1i32 == 1i32),
        spec_decode_buttons(w).a == ((w >> 8i32) & 1i32 == 1i32),
        spec_decode_buttons(w).b == ((w >> 7i32) & 1i32 == 1i32),
        spec_decode_buttons(w).x == ((w >> 6i32) & 1i32 == 1i32),
        spec_decode_buttons(w).y == ((w >> 5i32) & 1i32 == 1i32),
        spec_decode_buttons(w).guide == ((w >> 4i32) & 1i32 == 1i32),
        spec_decode_buttons(w).start == ((w >> 3i32) & 1i32 == 1i32),
        spec_decode_buttons(w).back == ((w >> 2i32) & 1i32 == 1i32),
        spec_decode_buttons(w).left_bumper == ((w >> 1i32) & 1i32 == 1i32),
        spec_decode_buttons(w).right_bumper == ((w >> 0i32) & 1i32 == 1i32),
{
    lemma_button_bits(w);
}

impl GamepadButtons {
    /// No button pressed.
    pub fn new() -> (r: GamepadButtons)
        ensures
            r == spec_decode_buttons(0),
    {
        assert(spec_decode_buttons(0) == GamepadButtons {
            touchpad_finger_1: false,
            touchpad_finger_2: false,
            touchpad: false,
            left_stick_button: false,
            right_stick_button: false,
            dpad_up: false,
            dpad_down: false,
            dpad_left: false,
            dpad_right: false,
            a: false,
            b: false,
            x: false,
            y: false,
            guide: false,
            start: false,
            back: false,
            left_bumper: false,
            right_bumper: false,
        }) by (bit_vector);
        GamepadButtons {
            touchpad_finger_1: false,
            touchpad_finger_2: false,
            touchpad: false,
            left_stick_button: false,
            right_stick_button: false,
            dpad_up: false,
            dpad_down: false,
            dpad_left: false,
            dpad_right: false,
            a: false,
            b: false,
            x: false,
            y: false,
            guide: false,
            start: false,
            back: false,
            left_bumper: false,
            right_bumper: false,
        }
    }
}

/// The buttons a button word stands for.
pub fn decode_buttons(buttons: i32) -> (r: GamepadButtons)
    ensures
        r == spec_decode_buttons(buttons),
{
    GamepadButtons {
        touchpad_finger_1: (buttons & 0x20000) != 0,
        touchpad_finger_2: (buttons & 0x10000) != 0,
        touchpad: (buttons & 0x08000) != 0,
        left_stick_button: (buttons & 0x04000) != 0,
        right_stick_button: (buttons & 0x02000) != 0,
        dpad_up: (buttons & 0x01000) != 0,
        dpad_down: (buttons & 0x00800) != 0,
        dpad_left: (buttons & 0x00400) != 0,
        dpad_right: (buttons & 0x00200) != 0,
        a: (buttons & 0x00100) != 0,
        b: (buttons & 0x00080) != 0,
        x: (buttons & 0x00040) != 0,
        y: (buttons & 0x00020) != 0,
        guide: (buttons & 0x00010) != 0,
        start: (buttons & 0x00008) != 0,
        back: (buttons & 0x00004) != 0,
        left_bumper: (buttons & 0x00002) != 0,
        right_bumper: (buttons & 0x00001) != 0,
    }
}

/// The buttons of a gamepad report: the big-endian word after the header and the axes.
pub fn read_buttons(buf: &[u8]) -> (r: GamepadButtons)
    requires
        buf@.len() >= BUTTONS_OFFSET + 4,
    ensures
        r == spec_decode_buttons(get_u32_be(buf@, BUTTONS_OFFSET as int) as i32),
{
    let word = copy_range(buf, BUTTONS_OFFSET, BUTTONS_OFFSET + 4);
    let buttons = read_i32_be(word.as_slice());
    decode_buttons(buttons)
}

} // verus!
