//! Building the bus, the post-boot register state, and clocking the peripherals.
use vstd::prelude::*;
use crate::domain::apu::{Apu, FRAME_CYCLES, NoiseChannel, PulseChannel};
use crate::domain::bus::{Bus, BusView, HostTimes, StepTimes, components_wf, fixed_step_times};
use crate::domain::bus::constants::{VRAM_SIZE, WRAM_SIZE, OAM_SIZE, IO_SIZE, HRAM_SIZE, REG_NR10, REG_NR11, REG_NR12, REG_NR14, REG_NR21, REG_NR22, REG_NR24, REG_NR30, REG_NR31, REG_NR32, REG_NR34, REG_NR41, REG_NR42, REG_NR43, REG_NR44, REG_NR50, REG_NR51, REG_NR52, REG_LCDC, REG_SCY, REG_SCX, REG_BGP, REG_OBP0, REG_OBP1, REG_WY, REG_WX, REG_KEY0, REG_KEY1};
use crate::domain::cartridge::{Cartridge, CartView, cartridge_type_of};
use crate::domain::rom::CgbFlag;
use crate::domain::dma::Dma;
use crate::domain::hdma::{Hdma, HdmaMode};
use crate::domain::mbc::{Mbc, MbcError, RtcMode, initial_view};
use crate::domain::serial::Serial;
use crate::domain::timer::Timer;

verus! {

/// The I/O byte at offset `i` right after power-on: zero with a boot ROM; without one, the
/// register values the boot ROM would have left (LCD, palettes, sound).
pub open spec fn power_on_io(boot: bool, i: int) -> u8 {
    if boot { 0 }
    else if i == 0x40 { 0x91 } else if i == 0x41 { 0x85 } else if i == 0x47 { 0xFC }
    else if i == 0x48 { 0xFF } else if i == 0x49 { 0xFF }
    else if i == 0x10 { 0x80 } else if i == 0x11 { 0xBF } else if i == 0x12 { 0xF3 }
    else if i == 0x14 { 0xBF } else if i == 0x16 { 0x3F } else if i == 0x19 { 0xBF }
    else if i == 0x1A { 0x7F } else if i == 0x1B { 0xFF } else if i == 0x1C { 0x9F }
    else if i == 0x1E { 0xBF } else if i == 0x20 { 0xFF } else if i == 0x23 { 0xBF }
    else if i == 0x24 { 0x77 } else if i == 0x25 { 0xF3 } else if i == 0x26 { 0xF1 }
    else { 0 }
}

/// The I/O byte at offset `i` after `apply_post_boot_state`, or `None` where it is kept.
pub open spec fn post_boot_io(cgb: bool, i: int) -> Option<u8> {
    if i == 0x10 { Some(0x80u8) } else if i == 0x11 { Some(0xBFu8) } else if i == 0x12 { Some(0xF3u8) }
    else if i == 0x14 { Some(0xBFu8) } else if i == 0x16 { Some(0x3Fu8) } else if i == 0x17 { Some(0x00u8) }
    else if i == 0x19 { Some(0xBFu8) } else if i == 0x1A { Some(0x7Fu8) } else if i == 0x1B { Some(0xFFu8) }
    else if i == 0x1C { Some(0x9Fu8) } else if i == 0x1E { Some(0xBFu8) } else if i == 0x20 { Some(0xFFu8) }
    else if i == 0x21 { Some(0x00u8) } else if i == 0x22 { Some(0x00u8) } else if i == 0x23 { Some(0xBFu8) }
    else if i == 0x24 { Some(0x77u8) } else if i == 0x25 { Some(0xF3u8) } else if i == 0x26 { Some(0xF1u8) }
    else if i == 0x40 { Some(0x91u8) } else if i == 0x42 { Some(0x00u8) } else if i == 0x43 { Some(0x00u8) }
    else if i == 0x47 { Some(0xFCu8) } else if i == 0x48 { Some(0xFFu8) } else if i == 0x49 { Some(0xFFu8) }
    else if i == 0x4A { Some(0x00u8) } else if i == 0x4B { Some(0x00u8) }
    else if i == 0x4C { Some(if cgb { 0x01u8 } else { 0x00u8 }) } else if i == 0x4D { Some(0x00u8) }
    else { None }
}

impl BusView {
    /// The register state the boot ROM leaves behind, applied to a running bus.
    pub open spec fn post_boot_spec(self) -> BusView {
        BusView {
            boot_rom_enabled: false,
            timer: Timer::post_boot_spec(),
            interrupt_flag: 0xE1,
            interrupt_enable: 0,
            ly: 0,
            lyc: 0,
            ppu_line_cycles: 0,
            ppu_mode: 0,
            stat: 0x80,
            serial: Serial { sb: 0, sc: 0, cycles_remaining: 0 },
            io: Seq::new(self.io.len(), |i: int| match post_boot_io(self.cgb_mode, i) {
                Some(v) => v,
                None => self.io[i],
            }),
            ..self
        }.update_stat_spec()
    }

    /// Timer, serial port and sound advance by `sub` cycles; their interrupt requests are
    /// merged into IF. (A sound unit whose noise period is zero cannot advance and is left
    /// as it is.)
    #[verifier::opaque]
    pub open spec fn step_timers_spec(self, sub: u32) -> BusView {
        let (timer, irq_timer) = self.timer.steps_spec(sub as nat);
        let (serial, irq_serial) = self.serial.step_spec(sub);
        BusView {
            timer,
            serial,
            interrupt_flag: self.interrupt_flag | irq_timer | irq_serial,
            apu: if self.apu.can_step() { self.apu.step_spec(sub) } else { self.apu },
            ..self
        }
    }

    /// The cartridge clock advances, unless a HuC3 day counter is at its maximum.
    #[verifier::opaque]
    pub open spec fn step_cart_clock_spec(self, sub: u32) -> BusView {
        BusView { mbc: if self.mbc.can_tick(sub) { self.mbc.tick_spec(sub) } else { self.mbc }, ..self }
    }

    /// Cycles as the peripherals count them: half the CPU cycles in double-speed mode.
    pub open spec fn subsystem_cycles(&self, cycles: u32) -> u32 {
        if self.double_speed { cycles / 2 } else { cycles }
    }

    /// One bus step of `cycles` CPU cycles: timer, serial, sound, LCD position, H-Blank
    /// HDMA, OAM DMA and the cartridge clock, in that order.
    pub open spec fn step_at(self, cycles: u32, t: StepTimes) -> BusView {
        let sub = self.subsystem_cycles(cycles);
        self.step_timers_spec(sub).step_lcd_spec(sub).step_hdma_at(t(0)).step_dma_at(sub, t(1)).step_cart_clock_spec(sub)
    }

    /// One bus step with every copy read at host time 0 (all times alike to a clock-free
    /// cartridge).
    pub open spec fn step_spec(self, cycles: u32) -> BusView {
        self.step_at(cycles, fixed_step_times(0))
    }
}

fn zeroed(len: usize) -> (v: Vec<u8>)
    ensures
        v@ == Seq::new(len as nat, |i: int| 0u8),
{
    let mut v: Vec<u8> = Vec::new();
    let mut i: usize = 0;
    while i < len
        invariant
            i <= len,
            v@ == Seq::new(i as nat, |k: int| 0u8),
        decreases len - i,
    {
        v.push(0);
        i = i + 1;
        assert(v@ =~= Seq::new(i as nat, |k: int| 0u8));
    }
    v
}

fn power_on_io_bytes(boot: bool) -> (v: Vec<u8>)
    ensures
        v@ == Seq::new(IO_SIZE as nat, |i: int| power_on_io(boot, i)),
{
    let mut io = zeroed(IO_SIZE);
    if !boot {
        io.set(0x40, 0x91);
        io.set(0x41, 0x85);
        io.set(0x47, 0xFC);
        io.set(0x48, 0xFF);
        io.set(0x49, 0xFF);
        io.set(0x10, 0x80);
        io.set(0x11, 0xBF);
        io.set(0x12, 0xF3);
        io.set(0x14, 0xBF);
        io.set(0x16, 0x3F);
        io.set(0x19, 0xBF);
        io.set(0x1A, 0x7F);
        io.set(0x1B, 0xFF);
        io.set(0x1C, 0x9F);
        io.set(0x1E, 0xBF);
        io.set(0x20, 0xFF);
        io.set(0x23, 0xBF);
        io.set(0x24, 0x77);
        io.set(0x25, 0xF3);
        io.set(0x26, 0xF1);
    }
    assert(io@ =~= Seq::new(IO_SIZE as nat, |i: int| power_on_io(boot, i)));
    io
}

/// The state a bus starts in: no memory written yet, the cartridge's controller fresh, and
/// (without a boot ROM image) the I/O registers, timer, STAT and IF as the boot ROM leaves
/// them, or (with one) at zero with the image mapped in.
pub open spec fn power_on_state(b: BusView, cart: CartView, cart_type: u8, cgb: bool, boot_rom: Option<Seq<u8>>) -> bool {
    let boot = boot_rom is Some;
    &&& b.wf()
    &&& b.cart == cart
    &&& b.mbc == initial_view(cartridge_type_of(cart_type))->Some_0
    &&& b.boot_rom == boot_rom
    &&& b.boot_rom_enabled == boot && !b.boot_rom_just_disabled
    &&& b.io == Seq::new(IO_SIZE as nat, |i: int| power_on_io(boot, i))
    &&& b.stat == (if boot { 0u8 } else { 0x85u8 })
    &&& b.interrupt_flag == (if boot { 0u8 } else { 0xE1u8 })
    &&& b.interrupt_enable == 0
    &&& b.timer == (if boot { Timer::initial() } else { Timer::post_boot_spec() })
    &&& b.dma == (Dma { dma: if boot { 0u8 } else { 0xFFu8 }, active: false, cycles_remaining: 0,
        bytes_transferred: 0, base: 0 })
    &&& b.hdma == (Hdma { source: 0, dest: 0, blocks_remaining: 0, active: false, mode: HdmaMode::Inactive })
    &&& b.apu.frame_cycles == FRAME_CYCLES
    &&& b.apu.pulse_channel == PulseChannel::initial()
    &&& b.apu.noise_channel == NoiseChannel::initial()
    &&& b.apu.wave_channel.is_initial()
    &&& !b.apu.sample_ready && b.apu.current_sample == 0
    &&& b.vram_bank == 0 && b.wram_bank == 1
    &&& b.vram0 == Seq::new(VRAM_SIZE as nat, |i: int| 0u8)
    &&& b.vram1 == Seq::new(VRAM_SIZE as nat, |i: int| 0u8)
    &&& b.wram == Seq::new(WRAM_SIZE as nat, |i: int| 0u8)
    &&& b.oam == Seq::new(OAM_SIZE as nat, |i: int| 0u8)
    &&& b.hram == Seq::new(HRAM_SIZE as nat, |i: int| 0u8)
    &&& b.bg_palette_data == Seq::new(64, |i: int| 0xFFu8)
    &&& b.ob_palette_data == Seq::new(64, |i: int| 0xFFu8)
    &&& b.ly == 0 && b.lyc == 0 && b.ppu_line_cycles == 0 && b.ppu_mode == 0
    &&& b.joyp_select == 0x30 && b.joyp_buttons == 0x0F && b.joyp_dpad == 0x0F
    &&& !b.double_speed && !b.speed_switch_pending
    &&& b.cgb_mode == cgb
    &&& b.bg_palette_index == 0 && !b.bg_palette_auto_increment
    &&& b.ob_palette_index == 0 && !b.ob_palette_auto_increment
    &&& b.serial == Serial { sb: 0, sc: 0, cycles_remaining: 0 }
}

impl Bus {
    /// A bus without a boot ROM: registers start in their post-boot state.
    pub fn new(cartridge: Cartridge) -> (r: Result<Self, MbcError>)
        ensures
            initial_view(cartridge_type_of(cartridge.header.cartridge_type)) is Some <==> r is Ok,
            r is Ok ==> power_on_state(r->Ok_0@, cartridge@, cartridge.header.cartridge_type,
                cartridge.header.cgb_flag == CgbFlag::CgbSupported || cartridge.header.cgb_flag == CgbFlag::CgbOnly,
                None),
            r is Err ==> r == Err::<Self, MbcError>(MbcError::UnsupportedCartridgeType(
                cartridge_type_of(cartridge.header.cartridge_type))),
    {
        Self::with_boot_rom(cartridge, None)
    }

    /// A bus with an optional boot ROM overlay. Fails when the cartridge type has no bank
    /// controller here. Without a boot ROM the I/O registers, timer, STAT and IF start as the
    /// boot ROM would leave them; with one they start at zero.
    pub fn with_boot_rom(cartridge: Cartridge, boot_rom: Option<Vec<u8>>) -> (r: Result<Self, MbcError>)
        ensures
            initial_view(cartridge_type_of(cartridge.header.cartridge_type)) is Some <==> r is Ok,
            r is Err ==> r == Err::<Self, MbcError>(MbcError::UnsupportedCartridgeType(
                cartridge_type_of(cartridge.header.cartridge_type))),
            r is Ok ==> power_on_state(r->Ok_0@, cartridge@, cartridge.header.cartridge_type,
                cartridge.header.cgb_flag == CgbFlag::CgbSupported || cartridge.header.cgb_flag == CgbFlag::CgbOnly,
                match boot_rom { Some(v) => Some(v@), None => None::<Seq<u8>> }),
    {
        let mbc = match Mbc::new(&cartridge) {
            Ok(m) => m,
            Err(e) => return Err(e),
        };
        let boot_rom_enabled = boot_rom.is_some();
        let is_cgb = cartridge.is_cgb();
        let io = power_on_io_bytes(boot_rom_enabled);
        let stat: u8 = if boot_rom_enabled { 0 } else { 0x85 };
        let interrupt_flag: u8 = if boot_rom_enabled { 0 } else { 0xE1 };
        let timer = if boot_rom_enabled {
            Timer::new()
        } else {
            let mut timer = Timer::new();
            timer.apply_post_boot_state();
            timer
        };
        let dma = if boot_rom_enabled { Dma::new_with_value(0x00) } else { Dma::new() };
        let hdma = Hdma::new();
        let apu = Apu::new();
        let bus = Bus {
            cartridge,
            mbc,
            boot_rom,
            boot_rom_enabled,
            boot_rom_just_disabled: false,
            vram_bank: 0,
            vram0: zeroed(VRAM_SIZE),
            vram1: zeroed(VRAM_SIZE),
            wram_bank: 1,
            wram: zeroed(WRAM_SIZE),
            oam: zeroed(OAM_SIZE),
            io,
            hram: zeroed(HRAM_SIZE),
            timer,
            ly: 0,
            lyc: 0,
            stat,
            ppu_line_cycles: 0,
            ppu_mode: 0,
            joyp_select: 0x30,
            joyp_buttons: 0x0F,
            joyp_dpad: 0x0F,
            dma,
            double_speed: false,
            speed_switch_pending: false,
            cgb_mode: is_cgb,
            interrupt_flag,
            interrupt_enable: 0,
            apu,
            bg_palette_index: 0,
            bg_palette_auto_increment: false,
            ob_palette_index: 0,
            ob_palette_auto_increment: false,
            bg_palette_data: [0xFF; 64],
            ob_palette_data: [0xFF; 64],
            hdma,
            serial: Serial::new(),
        };
        proof {
            reveal(components_wf);
            assert(bus.bg_palette_data@ =~= Seq::new(64, |i: int| 0xFFu8));
            assert(bus.ob_palette_data@ =~= Seq::new(64, |i: int| 0xFFu8));
        }
        Ok(bus)
    }

    fn set_io_reg(&mut self, addr: u16, value: u8)
        requires
            old(self).io@.len() == IO_SIZE,
        ensures
            final(self)@ == (BusView {
                io: if 0xFF00 <= addr < 0xFF80 { old(self).io@.update(addr - 0xFF00, value) } else { old(self).io@ },
                ..old(self)@
            }),
    {
        let idx = addr.wrapping_sub(0xFF00) as usize;
        if idx < IO_SIZE {
            self.io.set(idx, value);
        }
    }

    /// Puts timers, interrupts, LCD position and the I/O registers into the state the boot ROM
    /// leaves behind, and switches the boot ROM off.
    pub fn apply_post_boot_state(&mut self)
        requires
            old(self)@.wf(),
        ensures
            final(self)@ == old(self)@.post_boot_spec(),
            final(self)@.wf(),
    {
        self.boot_rom_enabled = false;
        self.timer.apply_post_boot_state();
        self.interrupt_flag = 0xE1;
        self.interrupt_enable = 0x00;
        self.ly = 0x00;
        self.lyc = 0x00;
        self.ppu_line_cycles = 0;
        self.ppu_mode = 0;
        self.stat = 0x80;
        self.serial.apply_post_boot_state();
        let ghost io0 = self.io@;
        self.set_io_reg(REG_NR10, 0x80);
        self.set_io_reg(REG_NR11, 0xBF);
        self.set_io_reg(REG_NR12, 0xF3);
        self.set_io_reg(REG_NR14, 0xBF);
        self.set_io_reg(REG_NR21, 0x3F);
        self.set_io_reg(REG_NR22, 0x00);
        self.set_io_reg(REG_NR24, 0xBF);
        self.set_io_reg(REG_NR30, 0x7F);
        self.set_io_reg(REG_NR31, 0xFF);
        self.set_io_reg(REG_NR32, 0x9F);
        self.set_io_reg(REG_NR34, 0xBF);
        self.set_io_reg(REG_NR41, 0xFF);
        self.set_io_reg(REG_NR42, 0x00);
        self.set_io_reg(REG_NR43, 0x00);
        self.set_io_reg(REG_NR44, 0xBF);
        self.set_io_reg(REG_NR50, 0x77);
        self.set_io_reg(REG_NR51, 0xF3);
        self.set_io_reg(REG_NR52, 0xF1);
        self.set_io_reg(REG_LCDC, 0x91);
        self.set_io_reg(REG_SCY, 0x00);
        self.set_io_reg(REG_SCX, 0x00);
        self.set_io_reg(REG_BGP, 0xFC);
        self.set_io_reg(REG_OBP0, 0xFF);
        self.set_io_reg(REG_OBP1, 0xFF);
        self.set_io_reg(REG_WY, 0x00);
        self.set_io_reg(REG_WX, 0x00);
        let key0: u8 = if self.cgb_mode { 0x01 } else { 0x00 };
        self.set_io_reg(REG_KEY0, key0);
        self.set_io_reg(REG_KEY1, 0x00);
        assert(self.io@ =~= Seq::new(io0.len(), |i: int| match post_boot_io(self.cgb_mode, i) {
            Some(v) => v,
            None => io0[i],
        }));
        self.update_stat();
    }

    fn step_timers(&mut self, sub: u32)
        requires
            old(self)@.wf(),
        ensures
            final(self)@ == old(self)@.step_timers_spec(sub),
            final(self)@.wf(),
            final(self)@.mbc == old(self)@.mbc,
    {
        proof { reveal(BusView::step_timers_spec); reveal(components_wf); }
        let irq_timer = self.timer.step(sub);
        self.interrupt_flag |= irq_timer;
        let irq_serial = self.serial.step(sub);
        self.interrupt_flag |= irq_serial;
        if self.apu.is_steppable() {
            let _ = self.apu.step(sub);
        }
    }

    fn step_cart_clock(&mut self, sub: u32)
        requires
            old(self)@.wf(),
        ensures
            final(self)@ == old(self)@.step_cart_clock_spec(sub),
            final(self)@.wf(),
            final(self)@.clock_free() == old(self)@.clock_free(),
    {
        proof { reveal(BusView::step_cart_clock_spec); reveal(components_wf); }
        if self.mbc.can_tick(sub) {
            self.mbc.tick(sub);
        }
    }

    /// Clocks every peripheral by `cycles` CPU cycles (halved in double-speed mode): `step_at`
    /// for the host times that the DMA and HDMA copies read, which a clock-free cartridge
    /// never looks at.
    pub fn step(&mut self, cycles: u32)
        requires
            old(self)@.wf(),
        ensures
            final(self)@.wf(),
            final(self)@.clock_free() == old(self)@.clock_free(),
            old(self)@.clock_free() ==> final(self)@ == old(self)@.step_spec(cycles),
            exists|t: StepTimes| final(self)@ == #[trigger] old(self)@.step_at(cycles, t),
    {
        let sub = if self.double_speed { cycles / 2 } else { cycles };
        self.step_timers(sub);
        self.step_ppu(sub);
        let ghost b2 = self@;
        self.step_hdma();
        let ghost b3 = self@;
        self.step_dma(sub);
        let ghost b4 = self@;
        self.step_cart_clock(sub);
        proof {
            let th = choose|t: HostTimes| b3 == #[trigger] b2.step_hdma_at(t);
            let td = choose|t: HostTimes| b4 == #[trigger] b3.step_dma_at(sub, t);
            let t = |i: nat| if i == 0 { th } else { td };
            assert(self@ == old(self)@.step_at(cycles, t));
        }
    }

    /// Switches the cartridge clock between cycle-driven and host-synced.
    pub fn set_rtc_mode(&mut self, mode: RtcMode)
        requires
            old(self)@.wf(),
        ensures
            final(self)@.wf(),
            exists|now: u128| final(self)@ == (BusView { mbc: #[trigger] old(self)@.mbc.set_rtc_mode_spec(mode, now), ..old(self)@ }),
    {
        proof { reveal(components_wf); }
        let ghost b0 = self@;
        self.mbc.set_rtc_mode(mode);
        proof {
            let now = choose|now: u128| self@.mbc == b0.mbc.set_rtc_mode_spec(mode, now);
            assert(self@ == (BusView { mbc: b0.mbc.set_rtc_mode_spec(mode, now), ..b0 }));
        }
    }

    /// Advances only the sound unit (halved in double-speed mode); a unit whose noise period
    /// is zero cannot advance and is left as it is.
    pub fn apu_step(&mut self, cycles: u32)
        requires
            old(self)@.wf(),
        ensures
            final(self)@.wf(),
            final(self)@ == (BusView {
                apu: if old(self)@.apu.can_step() {
                    old(self)@.apu.step_spec(old(self)@.subsystem_cycles(cycles))
                } else {
                    old(self)@.apu
                },
                ..old(self)@
            }),
    {
        proof { reveal(components_wf); }
        let sub = if self.double_speed { cycles / 2 } else { cycles };
        if self.apu.is_steppable() {
            let _ = self.apu.step(sub);
        }
    }

    pub fn apu_has_sample(&self) -> (r: bool)
        ensures r == self.apu.sample_ready,
    {
        self.apu.has_sample()
    }

    /// Returns the last mixed sample and marks it consumed.
    pub fn apu_take_sample(&mut self) -> (r: i32)
        ensures
            r == old(self).apu.current_sample,
            final(self)@ == (BusView { apu: Apu { sample_ready: false, ..old(self).apu }, ..old(self)@ }),
    {
        self.apu.take_sample()
    }

    pub fn apu_sample(&self) -> (r: i32)
        ensures r == self.apu.current_sample,
    {
        self.apu.sample()
    }

    pub fn apu_pulse_output(&self) -> (r: i32)
        ensures r == self.apu.pulse_channel.output_volume,
    {
        self.apu.pulse_output()
    }

    pub fn apu_wave_output(&self) -> (r: i32)
        ensures r == self.apu.wave_channel.output_volume,
    {
        self.apu.wave_output()
    }

    pub fn apu_noise_output(&self) -> (r: i32)
        ensures r == self.apu.noise_channel.output_volume,
    {
        self.apu.noise_output()
    }

    pub fn apu_read_io(&self, addr: u16) -> (r: u8)
        ensures r == self.apu.read_io_spec(addr),
    {
        self.apu.read_io(addr)
    }

    pub fn apu_write_io(&mut self, addr: u16, value: u8)
        requires
            old(self)@.wf(),
        ensures
            final(self)@ == (BusView { apu: old(self)@.apu.write_io_spec(addr, value), ..old(self)@ }),
            final(self)@.wf(),
    {
        proof { reveal(components_wf); }
        self.apu.write_io(addr, value);
    }

    pub fn apu_reset(&mut self)
        requires
            old(self)@.wf(),
        ensures
            final(self)@.wf(),
            final(self)@ == (BusView { apu: final(self)@.apu, ..old(self)@ }),
            final(self).apu.frame_cycles == crate::domain::apu::FRAME_CYCLES,
            !final(self).apu.sample_ready && final(self).apu.current_sample == 0,
            final(self).apu.wave_channel.wave_ram == old(self).apu.wave_channel.wave_ram,
    {
        proof { reveal(components_wf); }
        self.apu.reset();
    }
}

} // verus!
