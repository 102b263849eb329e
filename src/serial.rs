//! The serial line: its configuration and the bytes of a text.
use vstd::prelude::*;
use crate::port::{PortWrite, out};

verus! {

/// Base port of the first serial line.
pub const SERIAL_BASE: u16 = 0x3F8;

/// Register offsets from `SERIAL_BASE`.
pub const RX_TX: u16 = 0;
pub const INTEN: u16 = 1;
pub const II_FIFO: u16 = 2;
pub const LCTRL: u16 = 3;
pub const MCTRL: u16 = 4;
pub const LSTAT: u16 = 5;

/// Clock of the divisor latch: the baud rate at divisor 1.
pub const UART_CLOCK: i32 = 115200;

/// Parity setting of a serial line.
#[derive(Clone, Copy, PartialEq, Eq, Structural, Debug)]
pub enum Parity {
    NoParity,
    Odd,
    Even,
    Mark,
    Space,
}

/// The line-control byte for `dbits` data bits, `sbits` stop bits and
/// `parity`: word length in bits 0-1 (5 to 8 bits, anything else taken as
/// 8), two stop bits in bit 2 for any count but one, parity in bits 3-5.
pub open spec fn line_control_spec(dbits: i32, parity: Parity, sbits: i32) -> u8 {
    let word: u8 = if dbits == 5 {
        0
    } else if dbits == 6 {
        0b01
    } else if dbits == 7 {
        0b10
    } else {
        0b11
    };
    let stop: u8 = if sbits == 1 { 0 } else { 0b100 };
    let par: u8 = match parity {
        Parity::Odd => 0b001000,
        Parity::Even => 0b011000,
        Parity::Mark => 0b101000,
        Parity::Space => 0b111000,
        Parity::NoParity => 0,
    };
    word | stop | par
}

/// The configuration writes: interrupts off, divisor latch on, the divisor
/// (its low nibble, then its bits 4-7 shifted down by eight, which is
/// zero), the line-control byte (which also turns the latch off), FIFO
/// enabled and cleared, and RTS/DSR set.
pub open spec fn config_writes(divisor: i32, lcr: u8) -> Seq<PortWrite> {
    seq![
        out((SERIAL_BASE + INTEN) as u16, 0),
        out((SERIAL_BASE + LCTRL) as u16, 0x80),
        out((SERIAL_BASE + RX_TX) as u16, (divisor & 0xF) as u8),
        out((SERIAL_BASE + INTEN) as u16, ((divisor & 0xF0) >> 8) as u8),
        out((SERIAL_BASE + LCTRL) as u16, lcr),
        out((SERIAL_BASE + II_FIFO) as u16, 0xC7),
        out((SERIAL_BASE + MCTRL) as u16, 0x0B),
    ]
}

/// The UTF-8 encoding of `c`.
pub open spec fn utf8(c: char) -> Seq<u8> {
    let v = c as u32;
    if v < 0x80 {
        seq![v as u8]
    } else if v < 0x800 {
        seq![(0xC0 + v / 0x40) as u8, (0x80 + v % 0x40) as u8]
    } else if v < 0x10000 {
        seq![(0xE0 + v / 0x1000) as u8, (0x80 + (v / 0x40) % 0x40) as u8, (0x80 + v % 0x40) as u8]
    } else {
        seq![
            (0xF0 + v / 0x40000) as u8,
            (0x80 + (v / 0x1000) % 0x40) as u8,
            (0x80 + (v / 0x40) % 0x40) as u8,
            (0x80 + v % 0x40) as u8,
        ]
    }
}

/// The bytes sent for the text `s`: each character in UTF-8, NUL
/// characters left out.
pub open spec fn serial_bytes(s: Seq<char>) -> Seq<u8>
    decreases s.len(),
{
    if s.len() == 0 {
        seq![]
    } else {
        let last = s[s.len() - 1];
        serial_bytes(s.drop_last()) + if last == '\0' { Seq::<u8>::empty() } else { utf8(last) }
    }
}

/// The line-control byte (see `line_control_spec`).
pub fn line_control(dbits: i32, parity: Parity, sbits: i32) -> (r: u8)
    ensures
        r == line_control_spec(dbits, parity, sbits),
{
    let word: u8 = if dbits == 5 {
        0
    } else if dbits == 6 {
        0b01
    } else if dbits == 7 {
        0b10
    } else {
        0b11
    };
    let stop: u8 = if sbits == 1 { 0 } else { 0b100 };
    let par: u8 = match parity {
        Parity::Odd => 0b001000,
        Parity::Even => 0b011000,
        Parity::Mark => 0b101000,
        Parity::Space => 0b111000,
        Parity::NoParity => 0,
    };
    word | stop | par
}

/// The writes that configure the line for `baud` baud, `dbits` data bits,
/// `parity` and `sbits` stop bits; the divisor is `UART_CLOCK / baud`.
pub fn serial_config(baud: i32, dbits: i32, parity: Parity, sbits: i32) -> (r: Vec<PortWrite>)
    requires
        baud != 0,
    ensures
        r@ == config_writes((UART_CLOCK / baud) as i32, line_control_spec(dbits, parity, sbits)),
{
    let divisor: i32 = UART_CLOCK / baud;
    let lcr = line_control(dbits, parity, sbits);
    let mut r: Vec<PortWrite> = Vec::new();
    r.push(PortWrite::new(SERIAL_BASE + INTEN, 0));
    r.push(PortWrite::new(SERIAL_BASE + LCTRL, 0x80));
    r.push(PortWrite::new(SERIAL_BASE + RX_TX, (divisor & 0xF) as u8));
    r.push(PortWrite::new(SERIAL_BASE + INTEN, ((divisor & 0xF0) >> 8) as u8));
    r.push(PortWrite::new(SERIAL_BASE + LCTRL, lcr));
    r.push(PortWrite::new(SERIAL_BASE + II_FIFO, 0xC7));
    r.push(PortWrite::new(SERIAL_BASE + MCTRL, 0x0B));
    proof {
        assert(r@ =~= config_writes(divisor, lcr));
    }
    r
}

/// Whether the line status byte says a received byte is waiting.
pub fn rx_ready(status: u8) -> (r: bool)
    ensures
        r == (status & 0x1 != 0),
{
    status & 0x1 != 0
}

/// Whether the line status byte says the transmitter takes a byte.
pub fn tx_ready(status: u8) -> (r: bool)
    ensures
        r == (status & 0x20 != 0),
{
    status & 0x20 != 0
}

/// The character of a received byte.
pub fn received_char(b: u8) -> (r: char)
    ensures
        r as u32 == b as u32,
{
    b as char
}

/// Appends the UTF-8 encoding of `c` to `bytes`.
pub fn encode_utf8(c: char, bytes: &mut Vec<u8>)
    ensures
        final(bytes)@ == old(bytes)@ + utf8(c),
{
    let ghost before = bytes@;
    let v = c as u32;
    if v < 0x80 {
        bytes.push(v as u8);
    } else if v < 0x800 {
        bytes.push((0xC0 + v / 0x40) as u8);
        bytes.push((0x80 + v % 0x40) as u8);
    } else if v < 0x10000 {
        bytes.push((0xE0 + v / 0x1000) as u8);
        bytes.push((0x80 + (v / 0x40) % 0x40) as u8);
        bytes.push((0x80 + v % 0x40) as u8);
    } else {
        bytes.push((0xF0 + v / 0x40000) as u8);
        bytes.push((0x80 + (v / 0x1000) % 0x40) as u8);
        bytes.push((0x80 + (v / 0x40) % 0x40) as u8);
        bytes.push((0x80 + v % 0x40) as u8);
    }
    proof {
        assert(bytes@ =~= before + utf8(c));
    }
}

/// The bytes sent for one character: its UTF-8 encoding, each byte written
/// to the data register once the transmitter takes it.
pub fn serial_write_char(c: char) -> (r: Vec<u8>)
    ensures
        r@ == utf8(c),
{
    let mut r: Vec<u8> = Vec::new();
    encode_utf8(c, &mut r);
    proof {
        assert(r@ =~= utf8(c));
    }
    r
}

/// The bytes sent for the text `s` (see `serial_bytes`).
pub fn serial_write(s: &str) -> (r: Vec<u8>)
    ensures
        r@ == serial_bytes(s@),
{
    let n = s.unicode_len();
    let mut r: Vec<u8> = Vec::new();
    let mut i: usize = 0;
    while i < n
        invariant
            n == s@.len(),
            i <= n,
            r@ == serial_bytes(s@.take(i as int)),
        decreases n - i,
    {
        let c = s.get_char(i);
        proof {
            assert(s@.take(i + 1).drop_last() =~= s@.take(i as int));
        }
        if c != '\0' {
            encode_utf8(c, &mut r);
        } else {
            proof {
                assert(r@ =~= r@ + Seq::<u8>::empty());
            }
        }
        i = i + 1;
    }
    proof {
        assert(s@.take(n as int) =~= s@);
    }
    r
}

} // verus!
