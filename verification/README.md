# theos

The verified core of the Theos hobby kernel.

- `src/drivers/vga.rs`: the 80x25 VGA text console (cursor, wrapping,
  newlines, scrolling), specified against a model of the screen.
- `src/idt.rs`: long-mode interrupt descriptor table entries and their
  in-memory layout.
- `src/interrupts.rs`: handler installation, the interrupt controller
  remapping sequence and the keyboard scancode map.
- `src/lib.rs`: the boot banner and the panic screen.
- `app/lib.rs`: port I/O, the memory-mapped text buffer, `lidt`, and the
  kernel and interrupt entry points.
