//! # Interrupt handling decisions
//!
//! What the kernel's interrupt setup and its keyboard service routine
//! decide, as plain values: which descriptors get which handlers, the command
//! bytes that reprogram the two legacy interrupt controllers, and what a
//! keyboard scancode puts on the screen. Port and descriptor-register
//! instructions are issued by the caller.

use vstd::prelude::*;
use crate::drivers::vga::BUFFER_CELLS;
use crate::idt::{IdtEntry, KERNEL_CODE_SELECTOR, INTERRUPT_DESCRIPTOR_OPTIONS};

verus! {

/// The execution context that the processor pushes on the stack before it
/// enters an exception handler.
pub struct InterruptStackFrame {
    /// Address of the instruction that caused the exception.
    pub instruction_pointer: u64,
    /// Code segment selector.
    pub code_segment: u64,
    /// The RFLAGS register.
    pub cpu_flags: u64,
    /// Stack pointer at the time of the exception.
    pub stack_pointer: u64,
    /// Stack segment selector.
    pub stack_segment: u64,
}

/// Number of descriptors in the interrupt descriptor table.
pub const IDT_ENTRIES: usize = 256;

/// Number of quadwords in the table as the processor reads it: two per
/// entry.
pub const IDT_IMAGE_WORDS: usize = 512;

/// Limit field of the descriptor-table register: the table's size in
/// bytes, less one.
pub const IDT_LIMIT: u16 = 4095;

/// Vector of the breakpoint exception.
pub const BREAKPOINT_VECTOR: usize = 3;

/// Vector of the keyboard interrupt (IRQ 1 after remapping).
pub const KEYBOARD_VECTOR: usize = 0x21;

/// Command port of the master interrupt controller.
pub const PIC1_COMMAND: u16 = 0x20;

/// Data port of the master interrupt controller.
pub const PIC1_DATA: u16 = 0x21;

/// Command port of the slave interrupt controller.
pub const PIC2_COMMAND: u16 = 0xa0;

/// Data port of the slave interrupt controller.
pub const PIC2_DATA: u16 = 0xa1;

/// End-of-interrupt command byte.
pub const END_OF_INTERRUPT: u8 = 0x20;

/// Data port of the PS/2 keyboard controller.
pub const KEYBOARD_DATA_PORT: u16 = 0x60;

/// Colour attribute (green on black) of the character echoed for a key.
pub const KEY_ECHO_ATTRIBUTE: u8 = 0x0a;

/// The descriptor points at `addr` through the kernel code segment as a
/// present, ring 0, 64-bit interrupt descriptor.
pub open spec fn is_descriptor_to(e: IdtEntry, addr: u64) -> bool {
    &&& e.pointer_low() == addr % 0x1_0000
    &&& e.pointer_middle() == (addr / 0x1_0000) % 0x1_0000
    &&& e.pointer_high() == addr / 0x1_0000_0000
    &&& e.selector() == KERNEL_CODE_SELECTOR
    &&& e.options() == INTERRUPT_DESCRIPTOR_OPTIONS
    &&& e.reserved() == 0
}

/// Registers the breakpoint handler on vector 3 and the keyboard handler
/// on vector `0x21`; every other descriptor is left as it was.
pub fn install_handlers(table: &mut [IdtEntry; IDT_ENTRIES], breakpoint_addr: u64, keyboard_addr: u64)
    ensures
        is_descriptor_to(final(table)@[BREAKPOINT_VECTOR as int], breakpoint_addr),
        is_descriptor_to(final(table)@[KEYBOARD_VECTOR as int], keyboard_addr),
        forall|i: int|
            0 <= i < IDT_ENTRIES && i != BREAKPOINT_VECTOR && i != KEYBOARD_VECTOR
                ==> #[trigger] final(table)@[i] == old(table)@[i],
{
    let mut bp = table[BREAKPOINT_VECTOR];
    bp.set_handler(breakpoint_addr);
    table[BREAKPOINT_VECTOR] = bp;
    let mut kb = table[KEYBOARD_VECTOR];
    kb.set_handler(keyboard_addr);
    table[KEYBOARD_VECTOR] = kb;
}

/// The whole table laid out as the processor reads it: entry `i` occupies
/// quadwords `2i` and `2i + 1`.
pub fn idt_image(table: &[IdtEntry; IDT_ENTRIES]) -> (image: [u64; IDT_IMAGE_WORDS])
    ensures
        forall|i: int|
            0 <= i < IDT_ENTRIES ==> image@[2 * i] == (#[trigger] table@[i]).raw_low()
                && image@[2 * i + 1] == table@[i].raw_high(),
{
    let mut image: [u64; IDT_IMAGE_WORDS] = [0u64; IDT_IMAGE_WORDS];
    let mut i: usize = 0;
    while i < IDT_ENTRIES
        invariant
            0 <= i <= IDT_ENTRIES,
            image@.len() == IDT_IMAGE_WORDS,
            forall|k: int|
                0 <= k < i ==> image@[2 * k] == (#[trigger] table@[k]).raw_low()
                    && image@[2 * k + 1] == table@[k].raw_high(),
        decreases IDT_ENTRIES - i,
    {
        let raw = table[i].to_raw();
        image[2 * i] = raw[0];
        image[2 * i + 1] = raw[1];
        i = i + 1;
    }
    image
}

/// One byte sent to an I/O port.
#[derive(Clone, Copy, Debug, PartialEq, Eq, Structural)]
pub struct PortWrite {
    pub port: u16,
    pub value: u8,
}

/// The initialisation words that move the two interrupt controllers'
/// vectors to `0x20` and `0x28`, out of the range of processor exceptions,
/// and then unmask every line.
pub open spec fn pic_remap_spec() -> Seq<PortWrite> {
    seq![
        // ICW1: start initialisation of both controllers
        PortWrite { port: PIC1_COMMAND, value: 0x11 },
        PortWrite { port: PIC2_COMMAND, value: 0x11 },
        // ICW2: vector offsets
        PortWrite { port: PIC1_DATA, value: 0x20 },
        PortWrite { port: PIC2_DATA, value: 0x28 },
        // ICW3: slave on IRQ 2 of the master; cascade identity 2
        PortWrite { port: PIC1_DATA, value: 0x04 },
        PortWrite { port: PIC2_DATA, value: 0x02 },
        // ICW4: 8086/88 mode
        PortWrite { port: PIC1_DATA, value: 0x01 },
        PortWrite { port: PIC2_DATA, value: 0x01 },
        // clear the interrupt masks
        PortWrite { port: PIC1_DATA, value: 0x00 },
        PortWrite { port: PIC2_DATA, value: 0x00 },
    ]
}

/// The port writes, in order, that remap the legacy interrupt controllers.
pub fn pic_remap_sequence() -> (writes: Vec<PortWrite>)
    ensures
        writes@ == pic_remap_spec(),
{
    let mut writes: Vec<PortWrite> = Vec::new();
    writes.push(PortWrite { port: PIC1_COMMAND, value: 0x11 });
    writes.push(PortWrite { port: PIC2_COMMAND, value: 0x11 });
    writes.push(PortWrite { port: PIC1_DATA, value: 0x20 });
    writes.push(PortWrite { port: PIC2_DATA, value: 0x28 });
    writes.push(PortWrite { port: PIC1_DATA, value: 0x04 });
    writes.push(PortWrite { port: PIC2_DATA, value: 0x02 });
    writes.push(PortWrite { port: PIC1_DATA, value: 0x01 });
    writes.push(PortWrite { port: PIC2_DATA, value: 0x01 });
    writes.push(PortWrite { port: PIC1_DATA, value: 0x00 });
    writes.push(PortWrite { port: PIC2_DATA, value: 0x00 });
    assert(writes@ =~= pic_remap_spec());
    writes
}

/// The US keyboard map for set-1 make codes `0..58`: entry `i` is the
/// ASCII byte of the key with scancode `i`, or 0 where the key has none.
pub open spec fn us_keymap() -> Seq<u8> {
    seq![
        0u8, 0x1b, 0x31, 0x32, 0x33, 0x34, 0x35, 0x36, 0x37, 0x38,
        0x39, 0x30, 0x2d, 0x3d, 0x08, 0x09, 0x71, 0x77, 0x65, 0x72,
        0x74, 0x79, 0x75, 0x69, 0x6f, 0x70, 0x5b, 0x5d, 0x0a, 0x00,
        0x61, 0x73, 0x64, 0x66, 0x67, 0x68, 0x6a, 0x6b, 0x6c, 0x3b,
        0x27, 0x60, 0x00, 0x5c, 0x7a, 0x78, 0x63, 0x76, 0x62, 0x6e,
        0x6d, 0x2c, 0x2e, 0x2f, 0x00, 0x2a, 0x00, 0x20,
    ]
}

/// The character a scancode types: a make code (bit 7 clear) inside the
/// map whose entry is not 0.
pub open spec fn typed_char(scancode: u8) -> Option<u8> {
    if scancode < 0x80 && scancode < us_keymap().len() && us_keymap()[scancode as int] != 0 {
        Some(us_keymap()[scancode as int])
    } else {
        None
    }
}

/// The US set-1 keyboard layout, key by key: what each make code below
/// 58 types, and that release codes (bit 7 set) and codes past the map
/// type nothing.
pub proof fn lemma_us_layout(scancode: u8)
    ensures
        typed_char(0x00) == None::<u8>,
        typed_char(0x01) == Some('\x1b' as u8),
        typed_char(0x02) == Some('1' as u8),
        typed_char(0x03) == Some('2' as u8),
        typed_char(0x04) == Some('3' as u8),
        typed_char(0x05) == Some('4' as u8),
        typed_char(0x06) == Some('5' as u8),
        typed_char(0x07) == Some('6' as u8),
        typed_char(0x08) == Some('7' as u8),
        typed_char(0x09) == Some('8' as u8),
        typed_char(0x0a) == Some('9' as u8),
        typed_char(0x0b) == Some('0' as u8),
        typed_char(0x0c) == Some('-' as u8),
        typed_char(0x0d) == Some('=' as u8),
        typed_char(0x0e) == Some('\x08' as u8),
        typed_char(0x0f) == Some('\t' as u8),
        typed_char(0x10) == Some('q' as u8),
        typed_char(0x11) == Some('w' as u8),
        typed_char(0x12) == Some('e' as u8),
        typed_char(0x13) == Some('r' as u8),
        typed_char(0x14) == Some('t' as u8),
        typed_char(0x15) == Some('y' as u8),
        typed_char(0x16) == Some('u' as u8),
        typed_char(0x17) == Some('i' as u8),
        typed_char(0x18) == Some('o' as u8),
        typed_char(0x19) == Some('p' as u8),
        typed_char(0x1a) == Some('[' as u8),
        typed_char(0x1b) == Some(']' as u8),
        typed_char(0x1c) == Some('\n' as u8),
        typed_char(0x1d) == None::<u8>,
        typed_char(0x1e) == Some('a' as u8),
        typed_char(0x1f) == Some('s' as u8),
        typed_char(0x20) == Some('d' as u8),
        typed_char(0x21) == Some('f' as u8),
        typed_char(0x22) == Some('g' as u8),
        typed_char(0x23) == Some('h' as u8),
        typed_char(0x24) == Some('j' as u8),
        typed_char(0x25) == Some('k' as u8),
        typed_char(0x26) == Some('l' as u8),
        typed_char(0x27) == Some(';' as u8),
        typed_char(0x28) == Some('\'' as u8),
        typed_char(0x29) == Some('`' as u8),
        typed_char(0x2a) == None::<u8>,
        typed_char(0x2b) == Some('\\' as u8),
        typed_char(0x2c) == Some('z' as u8),
        typed_char(0x2d) == Some('x' as u8),
        typed_char(0x2e) == Some('c' as u8),
        typed_char(0x2f) == Some('v' as u8),
        typed_char(0x30) == Some('b' as u8),
        typed_char(0x31) == Some('n' as u8),
        typed_char(0x32) == Some('m' as u8),
        typed_char(0x33) == Some(',' as u8),
        typed_char(0x34) == Some('.' as u8),
        typed_char(0x35) == Some('/' as u8),
        typed_char(0x36) == None::<u8>,
        typed_char(0x37) == Some('*' as u8),
        typed_char(0x38) == None::<u8>,
        typed_char(0x39) == Some(' ' as u8),
        scancode >= 0x80 ==> typed_char(scancode) == None::<u8>,
        58 <= scancode ==> typed_char(scancode) == None::<u8>,
{
}

/// Looks a scancode up in the US keyboard map.
pub fn scancode_to_ascii(scancode: u8) -> (c: Option<u8>)
    ensures
        c == typed_char(scancode),
{
    let keymap: [u8; 58] = [
        0u8, 0x1b, 0x31, 0x32, 0x33, 0x34, 0x35, 0x36, 0x37, 0x38,
        0x39, 0x30, 0x2d, 0x3d, 0x08, 0x09, 0x71, 0x77, 0x65, 0x72,
        0x74, 0x79, 0x75, 0x69, 0x6f, 0x70, 0x5b, 0x5d, 0x0a, 0x00,
        0x61, 0x73, 0x64, 0x66, 0x67, 0x68, 0x6a, 0x6b, 0x6c, 0x3b,
        0x27, 0x60, 0x00, 0x5c, 0x7a, 0x78, 0x63, 0x76, 0x62, 0x6e,
        0x6d, 0x2c, 0x2e, 0x2f, 0x00, 0x2a, 0x00, 0x20,
    ];
    assert(keymap@ =~= us_keymap());
    assert(scancode & 0x80u8 == 0 <==> scancode < 0x80) by (bit_vector);
    if scancode & 0x80u8 == 0 && (scancode as usize) < keymap.len() {
        let character = keymap[scancode as usize];
        if character != 0 {
            return Some(character);
        }
    }
    None
}

/// What the keyboard service routine does to the screen for one
/// scancode: a typed character is shown in green on black in the
/// top-left cell; anything else leaves the screen as it was. The cell
/// holds the character in its low byte and the attribute in its high
/// byte, as the little-endian text buffer stores them.
pub fn echo_keypress(screen: &mut [u16; BUFFER_CELLS], scancode: u8)
    ensures
        match typed_char(scancode) {
            Some(c) => final(screen)@ == old(screen)@.update(0, (c + 0x0a00) as u16),
            None => final(screen)@ == old(screen)@,
        },
{
    if let Some(character) = scancode_to_ascii(scancode) {
        screen[0] = ((KEY_ECHO_ATTRIBUTE as u16) << 8u16) | (character as u16);
        assert(((KEY_ECHO_ATTRIBUTE as u16) << 8u16) | (character as u16) == (character + 0x0a00) as u16) by (bit_vector);
    }
}

} // verus!
