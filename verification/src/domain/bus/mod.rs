//! The system bus: the memory map (cartridge through its bank controller, VRAM, WRAM, OAM,
//! I/O registers, HRAM), the optional boot ROM overlay, and the peripherals clocked with it.
pub mod constants;
pub mod memory;
pub mod io;
pub mod lcd;
pub mod transfer;
pub mod system;
pub mod laws;

use vstd::prelude::*;
use crate::domain::apu::Apu;
use crate::domain::cartridge::{Cartridge, CartView};
use crate::domain::dma::Dma;
use crate::domain::hdma::Hdma;
use crate::domain::mbc::{Mbc, MbcView};
use crate::domain::serial::Serial;
use crate::domain::timer::Timer;
use crate::domain::bus::constants::{VRAM_SIZE, WRAM_SIZE, OAM_SIZE, IO_SIZE, HRAM_SIZE, PALETTE_SIZE};

verus! {

/// The host times an operation sees, in order: its `k`-th reading of the host clock gives
/// `t(k)`. Only a cartridge whose clock follows the host looks at them.
pub type HostTimes = spec_fn(nat) -> u128;

/// The host times of an operation made of parts: part `i` sees `t(i)`.
pub type StepTimes = spec_fn(nat) -> HostTimes;

/// Every reading of the host clock gives `now`.
pub open spec fn fixed_times(now: u128) -> HostTimes {
    |k: nat| now
}

/// Every part of an operation sees the host time `now`.
pub open spec fn fixed_step_times(now: u128) -> StepTimes {
    |i: nat| fixed_times(now)
}

pub struct Bus {
    pub cartridge: Cartridge,
    pub mbc: Mbc,
    pub boot_rom: Option<Vec<u8>>,
    pub boot_rom_enabled: bool,
    pub boot_rom_just_disabled: bool,
    pub vram_bank: u8,
    pub vram0: Vec<u8>,
    pub vram1: Vec<u8>,
    pub wram_bank: u8,
    /// All eight 4 KiB WRAM banks, bank `n` at offset `n * 0x1000`.
    pub wram: Vec<u8>,
    pub oam: Vec<u8>,
    pub io: Vec<u8>,
    pub hram: Vec<u8>,
    pub timer: Timer,
    pub ly: u8,
    pub lyc: u8,
    pub stat: u8,
    pub ppu_line_cycles: u16,
    pub ppu_mode: u8,
    pub joyp_select: u8,
    pub joyp_buttons: u8,
    pub joyp_dpad: u8,
    pub dma: Dma,
    pub double_speed: bool,
    pub speed_switch_pending: bool,
    pub cgb_mode: bool,
    pub interrupt_flag: u8,
    pub interrupt_enable: u8,
    pub apu: Apu,
    pub bg_palette_index: u8,
    pub bg_palette_auto_increment: bool,
    pub ob_palette_index: u8,
    pub ob_palette_auto_increment: bool,
    pub bg_palette_data: [u8; 64],
    pub ob_palette_data: [u8; 64],
    pub hdma: Hdma,
    pub serial: Serial,
}

/// The bus state with every memory as a sequence.
pub struct BusView {
    pub cart: CartView,
    pub mbc: MbcView,
    pub boot_rom: Option<Seq<u8>>,
    pub boot_rom_enabled: bool,
    pub boot_rom_just_disabled: bool,
    pub vram_bank: u8,
    pub vram0: Seq<u8>,
    pub vram1: Seq<u8>,
    pub wram_bank: u8,
    pub wram: Seq<u8>,
    pub oam: Seq<u8>,
    pub io: Seq<u8>,
    pub hram: Seq<u8>,
    pub timer: Timer,
    pub ly: u8,
    pub lyc: u8,
    pub stat: u8,
    pub ppu_line_cycles: u16,
    pub ppu_mode: u8,
    pub joyp_select: u8,
    pub joyp_buttons: u8,
    pub joyp_dpad: u8,
    pub dma: Dma,
    pub double_speed: bool,
    pub speed_switch_pending: bool,
    pub cgb_mode: bool,
    pub interrupt_flag: u8,
    pub interrupt_enable: u8,
    pub apu: Apu,
    pub bg_palette_index: u8,
    pub bg_palette_auto_increment: bool,
    pub ob_palette_index: u8,
    pub ob_palette_auto_increment: bool,
    pub bg_palette_data: Seq<u8>,
    pub ob_palette_data: Seq<u8>,
    pub hdma: Hdma,
    pub serial: Serial,
}

impl View for Bus {
    type V = BusView;

    open spec fn view(&self) -> BusView {
        BusView {
            cart: self.cartridge@,
            mbc: self.mbc@,
            boot_rom: match &self.boot_rom { Some(b) => Some(b@), None => None },
            boot_rom_enabled: self.boot_rom_enabled,
            boot_rom_just_disabled: self.boot_rom_just_disabled,
            vram_bank: self.vram_bank,
            vram0: self.vram0@,
            vram1: self.vram1@,
            wram_bank: self.wram_bank,
            wram: self.wram@,
            oam: self.oam@,
            io: self.io@,
            hram: self.hram@,
            timer: self.timer,
            ly: self.ly,
            lyc: self.lyc,
            stat: self.stat,
            ppu_line_cycles: self.ppu_line_cycles,
            ppu_mode: self.ppu_mode,
            joyp_select: self.joyp_select,
            joyp_buttons: self.joyp_buttons,
            joyp_dpad: self.joyp_dpad,
            dma: self.dma,
            double_speed: self.double_speed,
            speed_switch_pending: self.speed_switch_pending,
            cgb_mode: self.cgb_mode,
            interrupt_flag: self.interrupt_flag,
            interrupt_enable: self.interrupt_enable,
            apu: self.apu,
            bg_palette_index: self.bg_palette_index,
            bg_palette_auto_increment: self.bg_palette_auto_increment,
            ob_palette_index: self.ob_palette_index,
            ob_palette_auto_increment: self.ob_palette_auto_increment,
            bg_palette_data: self.bg_palette_data@,
            ob_palette_data: self.ob_palette_data@,
            hdma: self.hdma,
            serial: self.serial,
        }
    }
}

/// The invariants of the bank controller, the DMA units and the sound unit (kept opaque so
/// that reasoning about one register does not unfold every component).
#[verifier::opaque]
pub open spec fn components_wf(mbc: MbcView, dma: Dma, hdma: Hdma, apu: Apu) -> bool {
    mbc.wf() && dma.wf() && hdma.wf() && apu.wf()
}

impl BusView {
    /// Memories have their sizes, bank selectors and palette indices are in range, and every
    /// component keeps its own invariant.
    pub open spec fn wf(&self) -> bool {
        &&& components_wf(self.mbc, self.dma, self.hdma, self.apu)
        &&& self.vram0.len() == VRAM_SIZE && self.vram1.len() == VRAM_SIZE
        &&& self.vram_bank <= 1
        &&& 1 <= self.wram_bank <= 7
        &&& self.wram.len() == WRAM_SIZE
        &&& self.oam.len() == OAM_SIZE
        &&& self.io.len() == IO_SIZE
        &&& self.hram.len() == HRAM_SIZE
        &&& self.bg_palette_data.len() == PALETTE_SIZE && self.ob_palette_data.len() == PALETTE_SIZE
        &&& self.bg_palette_index < 64 && self.ob_palette_index < 64
    }

    /// Whether no cartridge access depends on the host clock.
    pub open spec fn clock_free(&self) -> bool {
        self.mbc.clock_free()
    }

    /// The VRAM bank currently mapped at 0x8000.
    pub open spec fn vram_selected(&self) -> Seq<u8> {
        if self.vram_bank == 0 { self.vram0 } else { self.vram1 }
    }

    /// `self` with the mapped VRAM bank replaced by `bank`.
    pub open spec fn with_vram_selected(self, bank: Seq<u8>) -> BusView {
        if self.vram_bank == 0 { BusView { vram0: bank, ..self } } else { BusView { vram1: bank, ..self } }
    }
}

impl Bus {
    pub fn cartridge(&self) -> (r: &Cartridge)
        ensures r == &self.cartridge,
    {
        &self.cartridge
    }

    pub fn boot_rom_enabled(&self) -> (r: bool)
        ensures r == self.boot_rom_enabled,
    {
        self.boot_rom_enabled
    }

    /// Reports (once) that the boot ROM was switched off by a write to 0xFF50.
    pub fn take_boot_rom_disabled(&mut self) -> (r: bool)
        ensures
            r == old(self).boot_rom_just_disabled,
            final(self)@ == (BusView { boot_rom_just_disabled: false, ..old(self)@ }),
    {
        let was_disabled = self.boot_rom_just_disabled;
        self.boot_rom_just_disabled = false;
        was_disabled
    }

    /// The VRAM bank currently mapped at 0x8000.
    pub fn vram(&self) -> (r: &[u8])
        ensures r@ == self@.vram_selected(),
    {
        if self.vram_bank == 0 { self.vram0.as_slice() } else { self.vram1.as_slice() }
    }

    pub fn vram_bank(&self) -> (r: u8)
        ensures r == self.vram_bank,
    {
        self.vram_bank
    }

    pub fn vram_bank0(&self) -> (r: &[u8])
        ensures r@ == self.vram0@,
    {
        self.vram0.as_slice()
    }

    pub fn vram_bank1(&self) -> (r: &[u8])
        ensures r@ == self.vram1@,
    {
        self.vram1.as_slice()
    }

    pub fn oam(&self) -> (r: &[u8])
        ensures r@ == self.oam@,
    {
        self.oam.as_slice()
    }

    pub fn wram_bank(&self) -> (r: u8)
        ensures r == self.wram_bank,
    {
        self.wram_bank
    }

    pub fn bg_palette_data(&self) -> (r: &[u8; 64])
        ensures r@ == self.bg_palette_data@,
    {
        &self.bg_palette_data
    }

    pub fn ob_palette_data(&self) -> (r: &[u8; 64])
        ensures r@ == self.ob_palette_data@,
    {
        &self.ob_palette_data
    }

    /// Sets the pressed-button lines (active low, low nibble).
    pub fn set_joyp_buttons(&mut self, mask: u8)
        ensures final(self)@ == (BusView { joyp_buttons: mask & 0x0F, ..old(self)@ }),
    {
        self.joyp_buttons = mask & 0x0F;
    }

    /// Sets the direction-pad lines (active low, low nibble).
    pub fn set_joyp_dpad(&mut self, mask: u8)
        ensures final(self)@ == (BusView { joyp_dpad: mask & 0x0F, ..old(self)@ }),
    {
        self.joyp_dpad = mask & 0x0F;
    }

    pub fn speed_switch_pending(&self) -> (r: bool)
        ensures r == self.speed_switch_pending,
    {
        self.speed_switch_pending
    }

    /// Toggles double speed if a switch was armed through KEY1 (what STOP does on a CGB).
    pub fn perform_speed_switch(&mut self)
        ensures
            final(self)@ == (if old(self).speed_switch_pending {
                BusView { speed_switch_pending: false, double_speed: !old(self).double_speed, ..old(self)@ }
            } else {
                old(self)@
            }),
    {
        if self.speed_switch_pending {
            self.speed_switch_pending = false;
            self.double_speed = !self.double_speed;
        }
    }

    pub fn is_double_speed(&self) -> (r: bool)
        ensures r == self.double_speed,
    {
        self.double_speed
    }

    pub fn is_cgb(&self) -> (r: bool)
        ensures r == self.cgb_mode,
    {
        self.cgb_mode
    }

    pub fn set_cgb_mode(&mut self, enabled: bool)
        ensures final(self)@ == (BusView { cgb_mode: enabled, ..old(self)@ }),
    {
        self.cgb_mode = enabled;
    }

    pub fn disable_boot_rom(&mut self)
        ensures final(self)@ == (BusView { boot_rom_enabled: false, ..old(self)@ }),
    {
        self.boot_rom_enabled = false;
    }
}

} // verus!
