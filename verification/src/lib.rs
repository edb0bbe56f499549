//! A verified model of CHIP-8 hardware state: addressable RAM, a bit-packed
//! monochrome framebuffer, two countdown timers driven by elapsed wall-clock
//! time, and a 16-key input latch.
//!
//! The instruction decoder/executor (the processor) is an external
//! collaborator: it reads and mutates the hardware through the accessors of
//! [`hw::hw_bundle`], and [`machine::Chip_HW`] drives one instruction plus one
//! timer evaluation per step.

pub mod hw;
pub mod machine;
pub mod memory;
pub mod timer;

pub use hw::Chip8Error;
pub use hw::HwView;
pub use hw::hw_bundle;
pub use machine::Chip_HW;
pub use machine::Processor;
pub use memory::Memory;
pub use timer::Timer;
