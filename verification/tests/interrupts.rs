use theos::drivers::vga::BUFFER_CELLS;
use theos::idt::IdtEntry;
use theos::interrupts::{
    echo_keypress, idt_image, install_handlers, pic_remap_sequence, scancode_to_ascii, InterruptStackFrame,
    PortWrite, BREAKPOINT_VECTOR, IDT_ENTRIES, IDT_LIMIT, KEYBOARD_VECTOR,
};

#[test]
fn stack_frame_holds_fields() {
    let f = InterruptStackFrame {
        instruction_pointer: 1,
        code_segment: 0x18,
        cpu_flags: 0x202,
        stack_pointer: 0x7000,
        stack_segment: 0,
    };
    assert_eq!(f.instruction_pointer + f.code_segment + f.cpu_flags + f.stack_pointer + f.stack_segment, 0x721b);
}

#[test]
fn install_handlers_fills_breakpoint_and_keyboard_vectors() {
    let mut table = [IdtEntry::missing(); IDT_ENTRIES];
    install_handlers(&mut table, 0xffff_8000_0010_2030, 0x20_4050);
    assert_eq!(BREAKPOINT_VECTOR, 3);
    assert_eq!(KEYBOARD_VECTOR, 0x21);
    assert_eq!(table[3].to_raw(), [0x0010_8e00_0018_2030, 0xffff_8000]);
    assert_eq!(table[0x21].to_raw(), [0x0020_8e00_0018_4050, 0]);
    for (i, e) in table.iter().enumerate() {
        if i != 3 && i != 0x21 {
            assert_eq!(e.to_raw(), [0, 0]);
        }
    }
}

#[test]
fn pic_remap_sequence_is_the_icw_sequence() {
    let expected: Vec<(u16, u8)> = vec![
        (0x20, 0x11),
        (0xa0, 0x11),
        (0x21, 0x20),
        (0xa1, 0x28),
        (0x21, 0x04),
        (0xa1, 0x02),
        (0x21, 0x01),
        (0xa1, 0x01),
        (0x21, 0x00),
        (0xa1, 0x00),
    ];
    let got: Vec<(u16, u8)> = pic_remap_sequence().iter().map(|w: &PortWrite| (w.port, w.value)).collect();
    assert_eq!(got, expected);
}

#[test]
fn scancodes_map_to_us_layout() {
    assert_eq!(scancode_to_ascii(0x1e), Some(b'a'));
    assert_eq!(scancode_to_ascii(0x10), Some(b'q'));
    assert_eq!(scancode_to_ascii(0x02), Some(b'1'));
    assert_eq!(scancode_to_ascii(0x0b), Some(b'0'));
    assert_eq!(scancode_to_ascii(0x1c), Some(b'\n'));
    assert_eq!(scancode_to_ascii(0x01), Some(0x1b));
    assert_eq!(scancode_to_ascii(0x0e), Some(0x08));
    assert_eq!(scancode_to_ascii(0x2b), Some(b'\\'));
    assert_eq!(scancode_to_ascii(0x28), Some(b'\''));
    assert_eq!(scancode_to_ascii(0x35), Some(b'/'));
    assert_eq!(scancode_to_ascii(0x37), Some(b'*'));
    assert_eq!(scancode_to_ascii(0x39), Some(b' '));
}

#[test]
fn unmapped_and_release_codes_type_nothing() {
    assert_eq!(scancode_to_ascii(0x00), None);
    assert_eq!(scancode_to_ascii(0x1d), None);
    assert_eq!(scancode_to_ascii(0x2a), None);
    assert_eq!(scancode_to_ascii(0x36), None);
    assert_eq!(scancode_to_ascii(0x38), None);
    assert_eq!(scancode_to_ascii(0x3a), None);
    assert_eq!(scancode_to_ascii(0x7f), None);
    assert_eq!(scancode_to_ascii(0x9e), None);
    assert_eq!(scancode_to_ascii(0xff), None);
}

#[test]
fn keypress_echoes_green_character_top_left() {
    let mut screen = [0x0f20u16; BUFFER_CELLS];
    echo_keypress(&mut screen, 0x23);
    assert_eq!(screen[0], 0x0a68);
    assert!(screen[1..].iter().all(|&c| c == 0x0f20));
    echo_keypress(&mut screen, 0xa3);
    assert_eq!(screen[0], 0x0a68);
    echo_keypress(&mut screen, 0x2a);
    assert_eq!(screen[0], 0x0a68);
    echo_keypress(&mut screen, 0x39);
    assert_eq!(screen[0], 0x0a20);
}

#[test]
fn idt_image_lays_entries_out_in_pairs() {
    let mut table = [IdtEntry::missing(); IDT_ENTRIES];
    install_handlers(&mut table, 0x1122_3344_5566_7788, 0xabcd);
    let image = idt_image(&table);
    assert_eq!(image.len(), 512);
    assert_eq!(IDT_LIMIT as usize, image.len() * 8 - 1);
    for i in 0..IDT_ENTRIES {
        let raw = table[i].to_raw();
        assert_eq!(image[2 * i], raw[0]);
        assert_eq!(image[2 * i + 1], raw[1]);
    }
    assert_eq!(image[6], 0x5566_8e00_0018_7788);
    assert_eq!(image[7], 0x1122_3344);
    assert_eq!(image[0x42], 0x0000_8e00_0018_abcd);
    assert_eq!(image[0x43], 0);
    assert_eq!(image[0], 0);
}
