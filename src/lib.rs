//! Host-side logic for driving a CHIP-8 style virtual machine: translating
//! keyboard input to keypad indices, planning the work of each display frame,
//! and turning the machine's framebuffer into filled rectangles.
pub mod host;
pub mod keymap;
pub mod render;
