use rustic::kb::{KeyEvent, PS2Keyboard};
use rustic::pit::Pit;
use rustic::port::PortWrite;
use rustic::serial::{self, Parity};
use rustic::vga::{self, CellWrite, Colour, Vga};

fn w(port: u16, value: u8) -> PortWrite {
    PortWrite { port, value }
}

#[test]
fn pit_programs_the_divisor() {
    let mut pit = Pit::new();
    assert_eq!(Pit::irq_num(), 0);
    assert_eq!(pit.init(100), vec![w(0x43, 0x36), w(0x40, 0x9B), w(0x40, 0x2E)]);
    assert_eq!(pit.timer_hz, 100);
    assert_eq!(pit.ms_per_tick(), 10);
}

#[test]
fn pit_spinner_cycles_every_four_seconds() {
    let mut pit = Pit::new();
    pit.init(100);
    let mut glyphs = Vec::new();
    for i in 1..=800 {
        if let Some(c) = pit.irq() {
            glyphs.push((i, c));
        }
    }
    assert_eq!(
        glyphs,
        vec![(100, '|'), (200, '/'), (300, '-'), (400, '\\'), (500, '|'), (600, '/'), (700, '-'), (800, '\\')]
    );
    assert_eq!(pit.ticks, 0);
}

#[test]
fn pit_ticks_count_milliseconds() {
    let mut pit = Pit::new();
    pit.init(100);
    assert_eq!(pit.irq(), None);
    assert_eq!(pit.ticks, 10);
    let mut slow = Pit::new();
    slow.init(3);
    assert_eq!(slow.ms_per_tick(), 333);
    assert_eq!(slow.irq(), None);
    assert_eq!(slow.irq(), None);
    assert_eq!(slow.irq(), None);
    assert_eq!(slow.ticks, 999);
    assert_eq!(slow.irq(), Some('|'));
    assert_eq!(slow.ticks, 1332);
}

#[test]
fn keyboard_scan_codes() {
    let mut kb = PS2Keyboard::new();
    assert_eq!(PS2Keyboard::irq_num(), 1);
    assert_eq!(kb.gotkey(0x10), Some('q'));
    assert_eq!(kb.gotkey(0x1E), Some('a'));
    assert_eq!(kb.gotkey(0x02), Some('1'));
    assert_eq!(kb.gotkey(0x59), None);
    kb.shifted = true;
    assert_eq!(kb.gotkey(0x1E), Some('A'));
    assert_eq!(kb.gotkey(0x02), Some('!'));
}

#[test]
fn keyboard_interrupts() {
    let mut kb = PS2Keyboard::new();
    assert_eq!(kb.irq(0, 0x9E), KeyEvent::Nothing);
    assert_eq!(kb.irq(1, 0x9E), KeyEvent::Key('a'));
    assert_eq!(kb.irq(1, 0x2A), KeyEvent::Nothing);
    assert!(kb.shifted);
    assert_eq!(kb.irq(1, 0x9E), KeyEvent::Key('A'));
    assert_eq!(kb.irq(1, 0xAA), KeyEvent::Nothing);
    assert!(!kb.shifted);
    assert_eq!(kb.irq(1, 0xBA), KeyEvent::Leds(vec![w(0x60, 0xED), w(0x60, 0b100)]));
    assert_eq!(kb.irq(1, 0xC5), KeyEvent::Leds(vec![w(0x60, 0xED), w(0x60, 0b110)]));
    assert_eq!(kb.irq(1, 0xBA), KeyEvent::Leds(vec![w(0x60, 0xED), w(0x60, 0b010)]));
    assert_eq!(kb.irq(1, 0xD9), KeyEvent::Nothing);
}

#[test]
fn keyboard_commands() {
    let mut kb = PS2Keyboard::new();
    assert_eq!(PS2Keyboard::init(), vec![w(0x60, 0xF0), w(0x60, 1)]);
    assert_eq!(kb.leds(1), vec![w(0x60, 0xED), w(0x60, 1)]);
    assert_eq!(kb.leds(1), vec![w(0x60, 0xED), w(0x60, 0)]);
    assert!(PS2Keyboard::cmd_ready(0x01));
    assert!(!PS2Keyboard::cmd_ready(0x02));
    assert!(PS2Keyboard::data_ready(0x01));
    assert!(!PS2Keyboard::data_ready(0x02));
}

#[test]
fn serial_configuration() {
    assert_eq!(
        serial::serial_config(115200, 8, Parity::NoParity, 1),
        vec![w(0x3F9, 0), w(0x3FB, 0x80), w(0x3F8, 1), w(0x3F9, 0), w(0x3FB, 0x03), w(0x3FA, 0xC7), w(0x3FC, 0x0B)]
    );
    assert_eq!(serial::line_control(7, Parity::Even, 2), 0x1E);
    assert_eq!(serial::line_control(5, Parity::Space, 1), 0x38);
    assert_eq!(serial::line_control(6, Parity::Odd, 1), 0x09);
    assert_eq!(serial::line_control(9, Parity::Mark, 1), 0x2B);
}

#[test]
fn serial_text_is_utf8_without_nul() {
    assert_eq!(serial::serial_write("ab\0c"), vec![b'a', b'b', b'c']);
    assert_eq!(serial::serial_write("\u{2603}"), vec![0xE2, 0x98, 0x83]);
    assert_eq!(serial::serial_write_char('\u{e9}'), vec![0xC3, 0xA9]);
    assert_eq!(serial::serial_write_char('\u{1F600}'), vec![0xF0, 0x9F, 0x98, 0x80]);
    assert_eq!(serial::serial_write(""), Vec::<u8>::new());
    assert!(serial::rx_ready(0x01));
    assert!(!serial::tx_ready(0x01));
    assert!(serial::tx_ready(0x20));
    assert_eq!(serial::received_char(0x41), 'A');
}

#[test]
fn vga_free_functions() {
    assert_eq!(vga::safe_char('x'), 'x');
    assert_eq!(vga::safe_char('\u{2603}'), '\u{DB}');
    assert_eq!(vga::attr(Colour::White, Colour::Blue), 0x1F);
    assert_eq!(vga::fill(' ', Colour::Blue), 0x1020);
    assert_eq!(vga::clear(Colour::Red), 0x4020);
    assert_eq!(vga::write_char('A', 3, 1, Colour::LightGray, Colour::Black), (84, Some(CellWrite { offset: 83, value: 0x0741 })));
    assert_eq!(vga::write_char_internal('\n', 85, 7), (160, None));
    assert_eq!(vga::write_char_internal('\r', 85, 7), (80, None));
    assert_eq!(vga::write_char_internal('\t', 85, 7), (88, None));
    assert_eq!(vga::write_char_internal('\0', 85, 7), (85, None));
    assert_eq!(vga::cursor_port_writes(0x123), vec![w(0x3D4, 0x0F), w(0x3D5, 0x23), w(0x3D4, 0x0E), w(0x3D5, 0x01)]);
    assert_eq!(vga::cursor_cell_fix(0x0020), Some(0x0720));
    assert_eq!(vga::cursor_cell_fix(0x1F20), None);
}

#[test]
fn vga_write_text() {
    let run = vga::write("hi\n!", 0, 0, Colour::White, Colour::Blue);
    assert_eq!(
        run.cells,
        vec![
            CellWrite { offset: 0, value: 0x1F68 },
            CellWrite { offset: 1, value: 0x1F69 },
            CellWrite { offset: 80, value: 0x1F21 },
        ]
    );
    assert_eq!(run.offset, 81);
    assert_eq!(run.cursor, vec![w(0x3D4, 0x0F), w(0x3D5, 81), w(0x3D4, 0x0E), w(0x3D5, 0)]);
    let end = vga::write("ab", 79, 24, Colour::White, Colour::Black);
    assert_eq!(end.offset, 2001);
    assert_eq!(end.cells.len(), 2);
    assert_eq!(end.cells[1].offset, 2000);
}

#[test]
fn screen_cursor_wraps_and_clamps() {
    let mut s = Vga::new();
    assert_eq!(s.write_char('A'), Some(CellWrite { offset: 0, value: 0x0741 }));
    assert_eq!((s.x, s.y), (1, 0));
    s.cursor(79, 3);
    assert_eq!(s.write_char('B'), Some(CellWrite { offset: 319, value: 0x0742 }));
    assert_eq!((s.x, s.y), (0, 4));
    s.cursor(5, 24);
    assert_eq!(s.write_char('\n'), None);
    assert_eq!((s.x, s.y), (0, 24));
    s.cursor(5, 2);
    s.write_char('\t');
    assert_eq!((s.x, s.y), (8, 2));
    assert_eq!((s.cols(), s.rows()), (80, 25));
}

#[test]
fn screen_save_and_restore() {
    let mut s = Vga::new();
    s.init();
    s.cursor(10, 5);
    s.save_cursor();
    s.attrib(Colour::Yellow, Colour::Red);
    s.save_attrib();
    s.attrib(Colour::White, Colour::Black);
    assert_eq!(s.cursor(0, 0), vec![w(0x3D4, 0x0F), w(0x3D5, 0), w(0x3D4, 0x0E), w(0x3D5, 0)]);
    s.restore_attrib();
    assert_eq!(s.fg, Colour::Yellow);
    assert_eq!(s.bg, Colour::Red);
    assert_eq!(s.restore_cursor(), vec![w(0x3D4, 0x0F), w(0x3D5, 154), w(0x3D4, 0x0E), w(0x3D5, 1)]);
    assert_eq!((s.x, s.y), (10, 5));
    assert_eq!(s.screen_clear(), 0x4020);
    assert_eq!(s.screen_fill('#'), 0x4023);
    assert_eq!(Colour::White.code(), 15);
}

#[test]
fn screen_write_skips_nul() {
    let mut s = Vga::new();
    let cells = s.write_str("a\0b");
    assert_eq!(cells, vec![CellWrite { offset: 0, value: 0x0761 }, CellWrite { offset: 1, value: 0x0762 }]);
    assert_eq!((s.x, s.y), (2, 0));
}
