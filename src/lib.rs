//! Core of an 8-bit handheld console emulator: address bus, register file,
//! instruction decoding and execution, and the pixel-processing unit.
pub mod bus;
pub mod registers;
pub mod alu;
pub mod sized;
pub mod cpu;
pub mod target;
pub mod instructions;
pub mod color;
pub mod canvas;
pub mod gpu;
pub mod buttons;
pub mod debugger;
pub mod machine;
