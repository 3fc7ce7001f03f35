pub mod timer;
pub mod serial;
pub mod rom;
pub mod rom_check;
pub mod cartridge;
pub mod dma;
pub mod hdma;
pub mod apu;
pub mod mbc;
pub mod bus;
pub mod cpu;
pub mod framebuffer;
pub mod ppu;
pub mod emulator;

pub use crate::domain::apu::Apu;
pub use crate::domain::bus::Bus;
pub use crate::domain::cartridge::{Cartridge, CartridgeType, RomBankMapping, RomBankView};
pub use crate::domain::cpu::{Cpu, CpuError, Registers};
pub use crate::domain::dma::Dma;
pub use crate::domain::emulator::Emulator;
pub use crate::domain::framebuffer::{FRAME_CHANNELS, FRAME_HEIGHT, FRAME_SIZE, FRAME_WIDTH, Framebuffer};
pub use crate::domain::hdma::Hdma;
pub use crate::domain::mbc::{Mbc, MbcError, RtcMode};
pub use crate::domain::ppu::Ppu;
pub use crate::domain::ppu::timing::FRAME_INTERVAL_NS;
pub use crate::domain::rom::{CgbFlag, RomHeader, RomHeaderError, SgbFlag};
pub use crate::domain::serial::Serial;
pub use crate::domain::timer::Timer;
