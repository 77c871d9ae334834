//! # Interrupt descriptor table entries
//!
//! One 64-bit long-mode interrupt descriptor: the 16-byte record that points the
//! processor at an interrupt service routine. The handler address is split
//! across three slots (bits 0..16, 16..32 and 32..64), next to the code
//! segment selector, the type and attribute word, and a reserved word that
//! must stay zero.

use vstd::prelude::*;
use vstd::arithmetic::div_mod::lemma_fundamental_div_mod_converse;

verus! {

/// Code segment selector of the kernel's 64-bit code segment.
pub const KERNEL_CODE_SELECTOR: u16 = 0x18;

/// Present, ring 0, 64-bit interrupt descriptor.
pub const INTERRUPT_DESCRIPTOR_OPTIONS: u16 = 0x8e00;

/// One interrupt descriptor of the interrupt descriptor table.
#[derive(Clone, Copy)]
pub struct IdtEntry {
    /// Bits 0..16 of the handler address.
    pointer_low: u16,
    /// Code segment selector the handler runs in.
    gdt_selector: u16,
    /// Type and attribute bits (present flag, privilege level, entry type).
    options: u16,
    /// Bits 16..32 of the handler address.
    pointer_middle: u16,
    /// Bits 32..64 of the handler address.
    pointer_high: u32,
    /// Reserved by the architecture; always zero.
    reserved: u32,
}

/// The handler address that three address slots spell.
pub open spec fn joined_address(low: u16, middle: u16, high: u32) -> int {
    low + middle * 0x1_0000 + high * 0x1_0000_0000
}

/// Cutting an address into its three slots and joining them gives the
/// address back.
pub proof fn lemma_split_address_round_trip(addr: u64)
    ensures
        addr as u16 == addr % 0x1_0000,
        (addr >> 16u64) as u16 == (addr / 0x1_0000) % 0x1_0000,
        (addr >> 32u64) as u32 == addr / 0x1_0000_0000,
        joined_address(addr as u16, (addr >> 16u64) as u16, (addr >> 32u64) as u32) == addr,
{
    assert(addr as u16 == addr % 0x1_0000 && (addr >> 16u64) as u16 == (addr / 0x1_0000) % 0x1_0000
        && (addr >> 32u64) as u32 == addr / 0x1_0000_0000) by (bit_vector);
    let l = addr % 0x1_0000;
    let m = (addr / 0x1_0000) % 0x1_0000;
    let h = addr / 0x1_0000_0000;
    assert(l + m * 0x1_0000 + h * 0x1_0000_0000 == addr) by (nonlinear_arith)
        requires
            l == addr % 0x1_0000,
            m == (addr / 0x1_0000) % 0x1_0000,
            h == addr / 0x1_0000_0000,
    ;
}

/// Reading the two quadwords of a descriptor back the way the processor does
/// gives the selector, the options and the handler address that the descriptor
/// holds.
pub proof fn lemma_raw_decodes(e: IdtEntry)
    ensures
        (e.raw_low() / 0x1_0000) % 0x1_0000 == e.selector(),
        (e.raw_low() / 0x1_0000_0000) % 0x1_0000 == e.options(),
        e.raw_low() % 0x1_0000 + (e.raw_low() / 0x1_0000_0000_0000) * 0x1_0000
            + (e.raw_high() % 0x1_0000_0000) * 0x1_0000_0000 == e.handler(),
        e.raw_high() / 0x1_0000_0000 == e.reserved(),
{
    let pl = e.pointer_low() as int;
    let sel = e.selector() as int;
    let opt = e.options() as int;
    let mid = e.pointer_middle() as int;
    let hi = e.pointer_high() as int;
    let res = e.reserved() as int;
    let low = e.raw_low();
    let high = e.raw_high();
    let q1 = sel + opt * 0x1_0000 + mid * 0x1_0000_0000;
    let q2 = opt + mid * 0x1_0000;
    lemma_fundamental_div_mod_converse(low, 0x1_0000, q1, pl);
    lemma_fundamental_div_mod_converse(q1, 0x1_0000, q2, sel);
    lemma_fundamental_div_mod_converse(low, 0x1_0000_0000, q2, pl + sel * 0x1_0000);
    lemma_fundamental_div_mod_converse(q2, 0x1_0000, mid, opt);
    lemma_fundamental_div_mod_converse(
        low,
        0x1_0000_0000_0000,
        mid,
        pl + sel * 0x1_0000 + opt * 0x1_0000_0000,
    );
    lemma_fundamental_div_mod_converse(high, 0x1_0000_0000, res, hi);
}

impl IdtEntry {
    /// Bits 0..16 of the handler address.
    pub closed spec fn pointer_low(&self) -> u16 {
        self.pointer_low
    }

    /// Code segment selector.
    pub closed spec fn selector(&self) -> u16 {
        self.gdt_selector
    }

    /// Type and attribute bits.
    pub closed spec fn options(&self) -> u16 {
        self.options
    }

    /// Bits 16..32 of the handler address.
    pub closed spec fn pointer_middle(&self) -> u16 {
        self.pointer_middle
    }

    /// Bits 32..64 of the handler address.
    pub closed spec fn pointer_high(&self) -> u32 {
        self.pointer_high
    }

    /// The reserved word.
    pub closed spec fn reserved(&self) -> u32 {
        self.reserved
    }

    /// The handler address that the entry points at.
    pub open spec fn handler(&self) -> int {
        joined_address(self.pointer_low(), self.pointer_middle(), self.pointer_high())
    }

    /// First quadword of the descriptor in memory.
    pub open spec fn raw_low(&self) -> int {
        self.pointer_low() + self.selector() * 0x1_0000 + self.options() * 0x1_0000_0000
            + self.pointer_middle() * 0x1_0000_0000_0000
    }

    /// Second quadword of the descriptor in memory.
    pub open spec fn raw_high(&self) -> int {
        self.pointer_high() + self.reserved() * 0x1_0000_0000
    }

    /// Creates a zeroed, inactive descriptor.
    ///
    /// An interrupt on a vector whose descriptor is missing escalates to a
    /// general protection fault or a double fault.
    pub fn missing() -> (e: Self)
        ensures
            e.pointer_low() == 0,
            e.selector() == 0,
            e.options() == 0,
            e.pointer_middle() == 0,
            e.pointer_high() == 0,
            e.reserved() == 0,
    {
        IdtEntry {
            pointer_low: 0,
            gdt_selector: 0,
            options: 0,
            pointer_middle: 0,
            pointer_high: 0,
            reserved: 0,
        }
    }

    /// Binds a 64-bit handler address to this descriptor: the address is cut
    /// into its low, middle and high slots, the descriptor is hooked to the
    /// kernel code segment (`0x18`) and flagged `0x8E00` (present, ring 0,
    /// 64-bit interrupt descriptor).
    pub fn set_handler(&mut self, handler_addr: u64)
        ensures
            final(self).pointer_low() == handler_addr % 0x1_0000,
            final(self).pointer_middle() == (handler_addr / 0x1_0000) % 0x1_0000,
            final(self).pointer_high() == handler_addr / 0x1_0000_0000,
            final(self).handler() == handler_addr,
            final(self).selector() == KERNEL_CODE_SELECTOR,
            final(self).options() == INTERRUPT_DESCRIPTOR_OPTIONS,
            final(self).reserved() == 0,
    {
        proof {
            lemma_split_address_round_trip(handler_addr);
        }
        self.pointer_low = handler_addr as u16;
        self.gdt_selector = KERNEL_CODE_SELECTOR;
        self.options = INTERRUPT_DESCRIPTOR_OPTIONS;
        self.pointer_middle = (handler_addr >> 16u64) as u16;
        self.pointer_high = (handler_addr >> 32u64) as u32;
        self.reserved = 0;
    }

    /// The descriptor as the processor reads it: two little-endian quadwords,
    /// the first holding the low address slot, the selector, the options
    /// and the middle address slot (in that order from bit 0), the second
    /// holding the high address slot and the reserved word.
    pub fn to_raw(&self) -> (raw: [u64; 2])
        ensures
            raw[0] == self.raw_low(),
            raw[1] == self.raw_high(),
    {
        let pl: u64 = self.pointer_low as u64;
        let sel: u64 = self.gdt_selector as u64;
        let opt: u64 = self.options as u64;
        let mid: u64 = self.pointer_middle as u64;
        let hi: u64 = self.pointer_high as u64;
        let res: u64 = self.reserved as u64;
        let low: u64 = pl | (sel << 16u64) | (opt << 32u64) | (mid << 48u64);
        let high: u64 = hi | (res << 32u64);
        assert(low == pl + sel * 0x1_0000 + opt * 0x1_0000_0000 + mid * 0x1_0000_0000_0000)
            by (bit_vector)
            requires
                pl < 0x1_0000,
                sel < 0x1_0000,
                opt < 0x1_0000,
                mid < 0x1_0000,
                low == pl | (sel << 16u64) | (opt << 32u64) | (mid << 48u64),
        ;
        assert(high == hi + res * 0x1_0000_0000) by (bit_vector)
            requires
                hi < 0x1_0000_0000,
                res < 0x1_0000_0000,
                high == hi | (res << 32u64),
        ;
        [low, high]
    }
}

} // verus!
