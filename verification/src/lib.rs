//! Core of a small bare-metal x86_64 kernel: physical frame allocation,
//! page-table translation, the interrupt vector layout, interrupt-controller
//! acknowledgement, keystroke decoding and the text-mode screen.

pub mod interrupts;
pub mod keyboard;
pub mod memory;
pub mod paging;
pub mod pic;
pub mod vga_buffer;
