# smos

The verified core of a small x86-64 hobby kernel.

- `src/enum_define.rs` — VGA colours, attribute bytes (`ColorCode`) and the
  first scancode-to-key mapper.
- `src/io/keyboard.rs` — the scancode set 1 mapper used by the keyboard
  interrupt (shift, caps lock, ctrl, alt, the `0xe0` prefix, function keys).
- `src/io/vga_buffer.rs` — the text-mode writer: cursor, tabs, line wrap,
  scrolling, and replacement of bytes outside code page 437.
- `src/interrupts.rs`, `src/exceptions/interrupts.rs` — interrupt vector
  numbers of the chained PICs.
- `app/` — the kernel itself: boot entry, GDT/TSS, IDT and handlers, PIC
  end-of-interrupt, port reads and the memory-mapped VGA buffer. It needs a
  nightly toolchain and a bare-metal target.
