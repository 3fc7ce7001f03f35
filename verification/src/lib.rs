//! A Game Boy emulator core: cartridge and bank controllers, memory bus, CPU, timers, DMA,
//! audio channels and the scanline renderer, each with its behaviour stated and proved.
pub mod bits;
pub mod clock;
pub mod domain;
pub mod infrastructure;
pub mod interface;
pub mod util;
