//! The PS/2 keyboard: scan codes, shift state and lock LEDs.
use vstd::prelude::*;
use crate::port::{PortWrite, out};

verus! {

/// Interrupt line of the keyboard.
pub const KEYBOARD_IRQ: usize = 1;

/// Port that takes keyboard commands and yields scan codes.
pub const KEYBOARD_CMD: u16 = 0x60;

/// Port that yields the controller's status byte.
pub const KEYBOARD_DATA: u16 = 0x64;

/// Largest scan code that has a character.
pub const MAX_SCANCODE: usize = 0x58;

/// Command byte that sets the keyboard LEDs from the next byte.
pub const SET_LEDS: u8 = 0xED;

/// Command byte that selects the scan code set from the next byte.
pub const SET_SCANCODE_SET: u8 = 0xF0;

/// Characters of scan code set 1, indexed by scan code.
pub open spec fn plain_map() -> Seq<char> {
    "\x00\x1B1234567890-=\x08\tqwertyuiop[]\n?asdfghjkl;'`?\\zxcvbnm,./?*? ?????????????789-456+1230.?????"@
}

/// Characters of scan code set 1 with shift held, indexed by scan code.
pub open spec fn shifted_map() -> Seq<char> {
    "\x00\x1B!@#$%^&*()_+\x08\tQWERTYUIOP{}\n?ASDFGHJKL:\"~?|ZXCVBNM<>??*? ?????????????789-456+1230.?????"@
}

/// The character of `scancode`, if it has one.
pub open spec fn key_char(shifted: bool, scancode: int) -> Option<char> {
    if scancode > MAX_SCANCODE {
        None
    } else if shifted {
        Some(shifted_map()[scancode])
    } else {
        Some(plain_map()[scancode])
    }
}

/// The two bytes that set the LEDs to `state`.
pub open spec fn led_writes(state: u8) -> Seq<PortWrite> {
    seq![out(KEYBOARD_CMD, SET_LEDS), out(KEYBOARD_CMD, state)]
}

/// What a keyboard interrupt produced.
#[derive(Clone, PartialEq, Eq, Debug)]
pub enum KeyEvent {
    /// Nothing to report: no byte was waiting, a shift key moved, or the
    /// key has no character.
    Nothing,
    /// A key with this character was released.
    Key(char),
    /// A lock key toggled its LED: the bytes to send, each once the
    /// controller is ready for a command.
    Leds(Vec<PortWrite>),
}

/// A PS/2 keyboard: whether shift is held, and the LEDs that are lit.
#[derive(Clone, Copy, PartialEq, Eq, Structural, Debug)]
pub struct PS2Keyboard {
    pub shifted: bool,
    pub ledstate: u8,
}

impl PS2Keyboard {
    /// No shift, no LEDs.
    pub fn new() -> (r: PS2Keyboard)
        ensures
            !r.shifted,
            r.ledstate == 0,
    {
        PS2Keyboard { shifted: false, ledstate: 0 }
    }

    /// The keyboard's interrupt line.
    pub fn irq_num() -> (r: usize)
        ensures
            r == KEYBOARD_IRQ,
    {
        KEYBOARD_IRQ
    }

    /// The bytes that put the keyboard into scan code set 1, each to be sent
    /// once the controller is ready for a command.
    pub fn init() -> (r: Vec<PortWrite>)
        ensures
            r@ == seq![out(KEYBOARD_CMD, SET_SCANCODE_SET), out(KEYBOARD_CMD, 1)],
    {
        let mut r: Vec<PortWrite> = Vec::new();
        r.push(PortWrite::new(KEYBOARD_CMD, SET_SCANCODE_SET));
        r.push(PortWrite::new(KEYBOARD_CMD, 1));
        proof {
            assert(r@ =~= seq![out(KEYBOARD_CMD, SET_SCANCODE_SET), out(KEYBOARD_CMD, 1)]);
        }
        r
    }

    /// Whether the controller, given its status byte, accepts a command
    /// (its input buffer is empty).
    pub fn cmd_ready(status: u8) -> (r: bool)
        ensures
            r == (status & 0x2 == 0),
    {
        status & 0x2 == 0
    }

    /// Whether the controller, given its status byte, holds a byte to read.
    pub fn data_ready(status: u8) -> (r: bool)
        ensures
            r == (status & 0x1 != 0),
    {
        status & 0x1 != 0
    }

    /// Toggles the LEDs of `state` and returns the bytes that show the new
    /// LED state.
    pub fn leds(&mut self, state: u8) -> (r: Vec<PortWrite>)
        ensures
            final(self).ledstate == old(self).ledstate ^ state,
            final(self).shifted == old(self).shifted,
            r@ == led_writes(final(self).ledstate),
    {
        self.ledstate = self.ledstate ^ state;
        let mut r: Vec<PortWrite> = Vec::new();
        r.push(PortWrite::new(KEYBOARD_CMD, SET_LEDS));
        r.push(PortWrite::new(KEYBOARD_CMD, self.ledstate));
        proof {
            assert(r@ =~= led_writes(self.ledstate));
        }
        r
    }

    /// The character of `scancode` under the current shift state.
    pub fn gotkey(&self, scancode: usize) -> (r: Option<char>)
        ensures
            r == key_char(self.shifted, scancode as int),
    {
        if scancode > MAX_SCANCODE {
            return None;
        }
        if self.shifted {
            let map = "\x00\x1B!@#$%^&*()_+\x08\tQWERTYUIOP{}\n?ASDFGHJKL:\"~?|ZXCVBNM<>??*? ?????????????789-456+1230.?????";
            proof {
                reveal_strlit("\x00\x1B!@#$%^&*()_+\x08\tQWERTYUIOP{}\n?ASDFGHJKL:\"~?|ZXCVBNM<>??*? ?????????????789-456+1230.?????");
            }
            Some(map.get_char(scancode))
        } else {
            let map = "\x00\x1B1234567890-=\x08\tqwertyuiop[]\n?asdfghjkl;'`?\\zxcvbnm,./?*? ?????????????789-456+1230.?????";
            proof {
                reveal_strlit("\x00\x1B1234567890-=\x08\tqwertyuiop[]\n?asdfghjkl;'`?\\zxcvbnm,./?*? ?????????????789-456+1230.?????");
            }
            Some(map.get_char(scancode))
        }
    }

    /// Handles a keyboard interrupt, given the status byte and the byte
    /// then read from `KEYBOARD_CMD`. With no byte waiting nothing happens.
    /// A shift press or release updates the shift state. A released caps,
    /// number or scroll lock toggles its LED; any other released key yields
    /// its character. Other presses are ignored.
    pub fn irq(&mut self, status: u8, scancode: u8) -> (r: KeyEvent)
        ensures
            irq_post(*old(self), *final(self), status, scancode, r),
    {
        if !Self::data_ready(status) {
            return KeyEvent::Nothing;
        }
        if scancode & 0x80 != 0 {
            let code = scancode & 0x7F;
            assert(scancode & 0x7F == scancode & !0x80u8) by (bit_vector);
            if code == 0x2A || code == 0x36 {
                self.shifted = false;
                KeyEvent::Nothing
            } else if code == 0x3A {
                KeyEvent::Leds(self.leds(0b100))
            } else if code == 0x45 {
                KeyEvent::Leds(self.leds(0b10))
            } else if code == 0x46 {
                KeyEvent::Leds(self.leds(0b1))
            } else {
                match self.gotkey(code as usize) {
                    Some(c) => KeyEvent::Key(c),
                    None => KeyEvent::Nothing,
                }
            }
        } else {
            if scancode == 0x2A || scancode == 0x36 {
                self.shifted = true;
            }
            KeyEvent::Nothing
        }
    }
}

/// What a keyboard interrupt does, given the status byte and the byte read
/// after it: `kb` before, `kb2` after, `r` the event reported.
pub open spec fn irq_post(kb: PS2Keyboard, kb2: PS2Keyboard, status: u8, scancode: u8, r: KeyEvent) -> bool {
    &&& status & 0x1 == 0 ==> r == KeyEvent::Nothing && kb2 == kb
    &&& status & 0x1 != 0 && scancode & 0x80 == 0 ==> r == KeyEvent::Nothing
        && kb2.ledstate == kb.ledstate
        && kb2.shifted == (kb.shifted || scancode == 0x2A || scancode == 0x36)
    &&& status & 0x1 != 0 && scancode & 0x80 != 0 ==> ({
        let code = scancode & 0x7F;
        &&& (code == 0x2A || code == 0x36) ==> r == KeyEvent::Nothing && !kb2.shifted && kb2.ledstate == kb.ledstate
        &&& lock_led(code) != 0 ==> kb2.ledstate == kb.ledstate ^ lock_led(code) && kb2.shifted == kb.shifted
            && (r matches KeyEvent::Leds(w) && w@ == led_writes(kb2.ledstate))
        &&& (code != 0x2A && code != 0x36 && lock_led(code) == 0) ==> kb2 == kb
            && r == (match key_char(kb.shifted, code as int) {
                Some(c) => KeyEvent::Key(c),
                None => KeyEvent::Nothing,
            })
    })
}

/// The LED bit that a released lock key toggles: caps lock, number lock and
/// scroll lock; zero for any other key.
pub open spec fn lock_led(code: u8) -> u8 {
    if code == 0x3A {
        0b100
    } else if code == 0x45 {
        0b10
    } else if code == 0x46 {
        0b1
    } else {
        0
    }
}

} // verus!
