//! Core logic of a small x86-64 hobby kernel: the VGA text-mode writer,
//! the PS/2 scancode-set-1 keyboard mappers, colour codes and the
//! interrupt vector numbering of the two chained 8259 PICs.
pub mod enum_define;
pub mod io;
pub mod interrupts;
pub mod exceptions;
