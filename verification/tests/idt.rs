use theos::idt::{IdtEntry, INTERRUPT_DESCRIPTOR_OPTIONS, KERNEL_CODE_SELECTOR};

#[test]
fn missing_entry_is_all_zero() {
    assert_eq!(IdtEntry::missing().to_raw(), [0u64, 0u64]);
}

#[test]
fn set_handler_splits_address_across_slots() {
    let mut e = IdtEntry::missing();
    e.set_handler(0x1122_3344_5566_7788);
    let raw = e.to_raw();
    assert_eq!(raw[0] & 0xffff, 0x7788);
    assert_eq!((raw[0] >> 16) & 0xffff, 0x18);
    assert_eq!((raw[0] >> 32) & 0xffff, 0x8e00);
    assert_eq!(raw[0] >> 48, 0x5566);
    assert_eq!(raw[1], 0x1122_3344);
    assert_eq!(raw[0], 0x5566_8e00_0018_7788);
}

#[test]
fn raw_layout_gives_back_handler_address() {
    for addr in [0u64, 1, 0xffff, 0x1_0000, 0xdead_beef, u64::MAX, 0x0000_7fff_ffff_1234] {
        let mut e = IdtEntry::missing();
        e.set_handler(addr);
        let raw = e.to_raw();
        let joined = (raw[0] & 0xffff) | ((raw[0] >> 48) << 16) | ((raw[1] & 0xffff_ffff) << 32);
        assert_eq!(joined, addr);
        assert_eq!(((raw[0] >> 16) & 0xffff) as u16, KERNEL_CODE_SELECTOR);
        assert_eq!(((raw[0] >> 32) & 0xffff) as u16, INTERRUPT_DESCRIPTOR_OPTIONS);
        assert_eq!(raw[1] >> 32, 0);
    }
}

#[test]
fn set_handler_overwrites_previous_handler() {
    let mut a = IdtEntry::missing();
    a.set_handler(0xffff_ffff_ffff_ffff);
    a.set_handler(0x1000);
    let mut b = IdtEntry::missing();
    b.set_handler(0x1000);
    assert_eq!(a.to_raw(), b.to_raw());
    assert_eq!(a.to_raw(), [0x0000_8e00_0018_1000, 0]);
}
