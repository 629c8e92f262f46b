pub mod keyboard;
pub mod vga_buffer;
