//! The I/O register page 0xFF00-0xFF7F: joypad, serial, timer, interrupts, LCD status,
//! OAM DMA, CGB speed/banking/palette registers, HDMA and the sound registers.
use vstd::prelude::*;
use crate::bits::{lemma_byte, lemma_const_bits, lemma_nibble_idem};
use crate::domain::apu::Apu;
use crate::domain::bus::{Bus, BusView, HostTimes, components_wf, fixed_times};
use crate::domain::dma::{Dma, DMA_TOTAL_CYCLES};
use crate::domain::hdma::Hdma;
use crate::domain::serial::Serial;
use crate::domain::bus::constants::{IO_SIZE, REG_JOYP, REG_SB, REG_SC, REG_DIV, REG_TIMA, REG_TMA, REG_TAC, REG_IF, REG_STAT, REG_LY, REG_LYC, REG_DMA, REG_KEY0, REG_KEY1, REG_VBK, REG_HDMA1, REG_HDMA2, REG_HDMA3, REG_HDMA4, REG_HDMA5, REG_BGPI, REG_BGPD, REG_OBPI, REG_OBPD, REG_SVBK};

verus! {

/// Addresses owned by the sound unit.
pub open spec fn is_apu_addr(addr: u16) -> bool {
    ||| 0xFF10 <= addr <= 0xFF14
    ||| 0xFF16 <= addr <= 0xFF19
    ||| 0xFF1A <= addr <= 0xFF1E
    ||| 0xFF20 <= addr <= 0xFF23
    ||| 0xFF24 <= addr <= 0xFF26
    ||| 0xFF30 <= addr <= 0xFF3F
}

impl BusView {
    /// JOYP: the selected groups' lines ANDed (active low), select bits, unused bits set.
    pub open spec fn joyp_spec(&self) -> u8 {
        let dpad = if self.joyp_select & 0x10 == 0 { self.joyp_dpad } else { 0x0F };
        let buttons = if self.joyp_select & 0x20 == 0 { self.joyp_buttons } else { 0x0F };
        0xC0 | self.joyp_select | (0x0F & dpad & buttons)
    }

    pub open spec fn key1_spec(&self) -> u8 {
        (if self.double_speed { 0x80u8 } else { 0 }) | (if self.speed_switch_pending { 0x01u8 } else { 0 })
    }

    pub open spec fn key0_spec(&self) -> u8 {
        if self.cgb_mode { 0xFF } else { 0xFE }
    }

    pub open spec fn read_io_spec(&self, addr: u16) -> u8 {
        if addr == REG_JOYP { self.joyp_spec() }
        else if addr == REG_SB { self.serial.sb }
        else if addr == REG_SC { self.serial.sc | 0x7E }
        else if addr == REG_DIV { self.timer.div }
        else if addr == REG_TIMA { self.timer.tima }
        else if addr == REG_TMA { self.timer.tma }
        else if addr == REG_TAC { self.timer.tac }
        else if addr == REG_IF { self.interrupt_flag }
        else if addr == REG_STAT { self.stat }
        else if addr == REG_LY { self.ly }
        else if addr == REG_LYC { self.lyc }
        else if addr == REG_DMA { self.dma.dma }
        else if addr == REG_KEY0 { self.key0_spec() }
        else if addr == REG_KEY1 { self.key1_spec() }
        else if addr == REG_VBK { self.vram_bank | 0xFE }
        else if addr == REG_HDMA1 { (self.hdma.source >> 8) as u8 }
        else if addr == REG_HDMA2 { self.hdma.source as u8 }
        else if addr == REG_HDMA3 { (self.hdma.dest >> 8) as u8 }
        else if addr == REG_HDMA4 { self.hdma.dest as u8 }
        else if addr == REG_HDMA5 { self.hdma.read_hdma5_spec() }
        else if addr == REG_BGPI { self.bg_palette_index | (if self.bg_palette_auto_increment { 0x80u8 } else { 0 }) }
        else if addr == REG_BGPD { self.bg_palette_data[self.bg_palette_index as int] }
        else if addr == REG_OBPI { self.ob_palette_index | (if self.ob_palette_auto_increment { 0x80u8 } else { 0 }) }
        else if addr == REG_OBPD { self.ob_palette_data[self.ob_palette_index as int] }
        else if addr == REG_SVBK { self.wram_bank | 0xF8 }
        else if is_apu_addr(addr) { self.apu.read_io_spec(addr) }
        else { self.io[addr - 0xFF00] }
    }

    /// The palette index register after a data write: it advances (within 0-63) when
    /// auto-increment is on.
    pub open spec fn next_palette_index(index: u8, auto: bool) -> u8 {
        if auto { (((index as int + 1) % 256) as u8) & 0x3F } else { index }
    }

    /// Writes to the joypad, serial, timer and interrupt-flag registers.
    #[verifier::opaque]
    pub open spec fn write_timer_group_spec(self, addr: u16, value: u8) -> BusView {
        if addr == REG_JOYP {
            BusView { joyp_select: value & 0x30, ..self }
        } else if addr == REG_SB {
            BusView { serial: Serial { sb: value, ..self.serial }, ..self }
        } else if addr == REG_SC {
            BusView { serial: self.serial.write_sc_spec(value), ..self }
        } else if addr == REG_DIV {
            let (timer, irq) = self.timer.write_div_spec();
            BusView { timer, interrupt_flag: self.interrupt_flag | irq, ..self }
        } else if addr == REG_TIMA {
            BusView { timer: self.timer.write_tima_spec(value), ..self }
        } else if addr == REG_TMA {
            BusView { timer: self.timer.write_tma_spec(value), ..self }
        } else if addr == REG_TAC {
            let (timer, irq) = self.timer.write_tac_spec(value);
            BusView { timer, interrupt_flag: self.interrupt_flag | irq, ..self }
        } else {
            BusView { interrupt_flag: value, ..self }
        }
    }

    /// Writes to STAT (bits 3-7), LY (resets the line) and LYC.
    #[verifier::opaque]
    pub open spec fn write_lcd_group_spec(self, addr: u16, value: u8) -> BusView {
        if addr == REG_STAT {
            BusView { stat: (self.stat & 0x07) | (value & 0xF8), ..self }
        } else if addr == REG_LY {
            BusView { ly: 0, ppu_line_cycles: 0, ..self }.update_stat_spec()
        } else {
            BusView { lyc: value, ..self }.update_stat_spec()
        }
    }

    /// Writes to HDMA1-HDMA4 (ignored during a transfer).
    #[verifier::opaque]
    pub open spec fn write_hdma_reg_spec(self, addr: u16, value: u8) -> BusView {
        if self.hdma.active {
            self
        } else {
            let h = self.hdma;
            BusView {
                hdma: if addr == REG_HDMA1 {
                    Hdma { source: (value as u16 * 256 + h.source % 256) as u16, ..h }
                } else if addr == REG_HDMA2 {
                    Hdma { source: ((h.source / 256) * 256 + (value & 0xF0)) as u16, ..h }
                } else if addr == REG_HDMA3 {
                    Hdma { dest: (value as u16 * 256 + h.dest % 256) as u16, ..h }
                } else {
                    Hdma { dest: ((h.dest / 256) * 256 + (value & 0xF0)) as u16, ..h }
                },
                ..self
            }
        }
    }

    /// HDMA5 on a CGB: starts, or cancels, a transfer; a general-purpose one copies at once.
    #[verifier::opaque]
    pub open spec fn write_hdma5_at(self, value: u8, t: HostTimes) -> BusView {
        if !self.cgb_mode {
            self
        } else {
            let (hdma, (now, blocks)) = self.hdma.write_hdma5_spec(value);
            let b = BusView { hdma, ..self };
            if now { b.perform_hdma_at(blocks, t) } else { b }
        }
    }

    pub open spec fn write_hdma5_spec(self, value: u8) -> BusView {
        self.write_hdma5_at(value, fixed_times(0))
    }

    /// An I/O register write whose general-purpose HDMA, if it starts one, reads the host
    /// times `t`.
    pub open spec fn write_io_at(self, addr: u16, value: u8, t: HostTimes) -> BusView {
        if addr == REG_HDMA5 { self.write_hdma5_at(value, t) } else { self.write_io_spec(addr, value) }
    }

    /// Writes to the CGB palette index and data registers.
    #[verifier::opaque]
    pub open spec fn write_palette_spec(self, addr: u16, value: u8) -> BusView {
        if addr == REG_BGPI {
            BusView { bg_palette_index: value & 0x3F, bg_palette_auto_increment: value & 0x80 != 0, ..self }
        } else if addr == REG_BGPD {
            BusView {
                bg_palette_data: self.bg_palette_data.update(self.bg_palette_index as int, value),
                bg_palette_index: Self::next_palette_index(self.bg_palette_index, self.bg_palette_auto_increment),
                ..self
            }
        } else if addr == REG_OBPI {
            BusView { ob_palette_index: value & 0x3F, ob_palette_auto_increment: value & 0x80 != 0, ..self }
        } else {
            BusView {
                ob_palette_data: self.ob_palette_data.update(self.ob_palette_index as int, value),
                ob_palette_index: Self::next_palette_index(self.ob_palette_index, self.ob_palette_auto_increment),
                ..self
            }
        }
    }

    /// A write to OAM DMA: starts a transfer from `value << 8`.
    #[verifier::opaque]
    pub open spec fn write_dma_reg_spec(self, value: u8) -> BusView {
        BusView {
            dma: Dma {
                dma: value, active: true, cycles_remaining: DMA_TOTAL_CYCLES, bytes_transferred: 0,
                base: (value as u16 * 256) as u16,
            },
            ..self
        }
    }

    /// KEY0 (read-only), KEY1 (arms a speed switch on a CGB), VBK, SVBK (on a CGB; bank 0
    /// selects 1) and the plain registers.
    #[verifier::opaque]
    pub open spec fn write_control_spec(self, addr: u16, value: u8) -> BusView {
        if addr == REG_KEY0 {
            self
        } else if addr == REG_KEY1 {
            if self.cgb_mode { BusView { speed_switch_pending: value & 0x01 != 0, ..self } } else { self }
        } else if addr == REG_VBK {
            BusView { vram_bank: value & 0x01, ..self }
        } else if addr == REG_SVBK {
            if self.cgb_mode {
                BusView { wram_bank: if value & 0x07 == 0 { 1 } else { value & 0x07 }, ..self }
            } else {
                self
            }
        } else {
            BusView { io: self.io.update(addr - 0xFF00, value), ..self }
        }
    }

    /// The bus after a write of `value` to the I/O register `addr`.
    pub open spec fn write_io_spec(self, addr: u16, value: u8) -> BusView {
        if addr == REG_JOYP || addr == REG_SB || addr == REG_SC || addr == REG_DIV || addr == REG_TIMA
            || addr == REG_TMA || addr == REG_TAC || addr == REG_IF {
            self.write_timer_group_spec(addr, value)
        } else if addr == REG_STAT || addr == REG_LY || addr == REG_LYC {
            self.write_lcd_group_spec(addr, value)
        } else if addr == REG_DMA {
            self.write_dma_reg_spec(value)
        } else if REG_HDMA1 <= addr <= REG_HDMA4 {
            self.write_hdma_reg_spec(addr, value)
        } else if addr == REG_HDMA5 {
            self.write_hdma5_spec(value)
        } else if REG_BGPI <= addr <= REG_OBPD {
            self.write_palette_spec(addr, value)
        } else if is_apu_addr(addr) {
            self.write_apu_spec(addr, value)
        } else {
            self.write_control_spec(addr, value)
        }
    }

    /// A write to a sound register or wave RAM.
    #[verifier::opaque]
    pub open spec fn write_apu_spec(self, addr: u16, value: u8) -> BusView {
        BusView { apu: self.apu.write_io_spec(addr, value), ..self }
    }

}

impl Bus {
    fn read_joyp(&self) -> (r: u8)
        ensures r == self@.joyp_spec(),
    {
        let mut value: u8 = 0x0F;
        if self.joyp_select & 0x10 == 0 {
            value &= self.joyp_dpad;
        }
        if self.joyp_select & 0x20 == 0 {
            value &= self.joyp_buttons;
        }
        let (d, b) = (self.joyp_dpad, self.joyp_buttons);
        proof { lemma_const_bits(); lemma_nibble_idem(d); lemma_nibble_idem(b); }
        0xC0 | self.joyp_select | value
    }

    fn read_key1(&self) -> (r: u8)
        ensures r == self@.key1_spec(),
    {
        let mut value: u8 = 0x00;
        if self.double_speed {
            value |= 0x80;
        }
        if self.speed_switch_pending {
            value |= 0x01;
        }
        proof { lemma_const_bits(); }
        value
    }

    fn read_key0(&self) -> (r: u8)
        ensures r == self@.key0_spec(),
    {
        let mut value: u8 = 0xFE;
        if self.cgb_mode {
            value |= 0x01;
        }
        proof { lemma_const_bits(); }
        value
    }

    fn write_bgpi(&mut self, value: u8)
        requires old(self)@.wf(),
        ensures final(self)@ == old(self)@.write_palette_spec(REG_BGPI, value), final(self)@.wf(),
            final(self)@.mbc == old(self)@.mbc, final(self)@.cart == old(self)@.cart,
    {
        proof { reveal(BusView::write_palette_spec); }
        self.bg_palette_index = value & 0x3F;
        self.bg_palette_auto_increment = value & 0x80 != 0;
        proof { lemma_byte(value); }
    }

    fn write_bgpdata(&mut self, value: u8)
        requires old(self)@.wf(),
        ensures final(self)@ == old(self)@.write_palette_spec(REG_BGPD, value), final(self)@.wf(),
            final(self)@.mbc == old(self)@.mbc, final(self)@.cart == old(self)@.cart,
    {
        proof { reveal(BusView::write_palette_spec); }
        let idx = self.bg_palette_index as usize;
        self.bg_palette_data[idx] = value;
        if self.bg_palette_auto_increment {
            let i = self.bg_palette_index.wrapping_add(1);
            proof { lemma_byte(i); }
            self.bg_palette_index = i & 0x3F;
        }
    }

    fn write_obpi(&mut self, value: u8)
        requires old(self)@.wf(),
        ensures final(self)@ == old(self)@.write_palette_spec(REG_OBPI, value), final(self)@.wf(),
            final(self)@.mbc == old(self)@.mbc, final(self)@.cart == old(self)@.cart,
    {
        proof { reveal(BusView::write_palette_spec); }
        self.ob_palette_index = value & 0x3F;
        self.ob_palette_auto_increment = value & 0x80 != 0;
        proof { lemma_byte(value); }
    }

    fn write_obpdata(&mut self, value: u8)
        requires old(self)@.wf(),
        ensures final(self)@ == old(self)@.write_palette_spec(REG_OBPD, value), final(self)@.wf(),
            final(self)@.mbc == old(self)@.mbc, final(self)@.cart == old(self)@.cart,
    {
        proof { reveal(BusView::write_palette_spec); }
        let idx = self.ob_palette_index as usize;
        self.ob_palette_data[idx] = value;
        if self.ob_palette_auto_increment {
            let i = self.ob_palette_index.wrapping_add(1);
            proof { lemma_byte(i); }
            self.ob_palette_index = i & 0x3F;
        }
    }

    fn write_timer_serial(&mut self, addr: u16, value: u8)
        requires
            old(self)@.wf(),
            addr == REG_JOYP || addr == REG_SB || addr == REG_SC || addr == REG_DIV || addr == REG_TIMA
                || addr == REG_TMA || addr == REG_TAC || addr == REG_IF,
        ensures final(self)@ == old(self)@.write_timer_group_spec(addr, value), final(self)@.wf(),
            final(self)@.mbc == old(self)@.mbc, final(self)@.cart == old(self)@.cart,
    {
        proof { reveal(BusView::write_timer_group_spec); }
        match addr {
            REG_JOYP => self.joyp_select = value & 0x30,
            REG_SB => self.serial.write_sb(value),
            REG_SC => {
                let irq = self.serial.write_sc(value);
                let f = self.interrupt_flag;
                proof { lemma_nibble_idem(f); }
                self.interrupt_flag |= irq;
            },
            REG_DIV => {
                let irq = self.timer.write_div();
                self.interrupt_flag |= irq;
            },
            REG_TIMA => self.timer.write_tima(value),
            REG_TMA => self.timer.write_tma(value),
            REG_TAC => {
                let irq = self.timer.write_tac(value);
                self.interrupt_flag |= irq;
            },
            _ => self.interrupt_flag = value,
        }
    }

    fn write_hdma_reg(&mut self, addr: u16, value: u8)
        requires
            old(self)@.wf(),
            REG_HDMA1 <= addr <= REG_HDMA4,
        ensures final(self)@ == old(self)@.write_hdma_reg_spec(addr, value), final(self)@.wf(),
            final(self)@.mbc == old(self)@.mbc, final(self)@.cart == old(self)@.cart,
    {
        proof { reveal(components_wf); }
        proof { reveal(BusView::write_hdma_reg_spec); }
        match addr {
            REG_HDMA1 => self.hdma.write_hdma1(value),
            REG_HDMA2 => self.hdma.write_hdma2(value),
            REG_HDMA3 => self.hdma.write_hdma3(value),
            _ => self.hdma.write_hdma4(value),
        }
    }

    fn write_lcd_reg(&mut self, addr: u16, value: u8)
        requires
            old(self)@.wf(),
            addr == REG_STAT || addr == REG_LY || addr == REG_LYC,
        ensures final(self)@ == old(self)@.write_lcd_group_spec(addr, value), final(self)@.wf(),
            final(self)@.mbc == old(self)@.mbc, final(self)@.cart == old(self)@.cart,
    {
        proof { reveal(BusView::write_lcd_group_spec); }
        match addr {
            REG_STAT => self.stat = (self.stat & 0x07) | (value & 0xF8),
            REG_LY => {
                self.ly = 0;
                self.ppu_line_cycles = 0;
                self.update_stat();
            },
            _ => {
                self.lyc = value;
                self.update_stat();
            },
        }
    }

    fn write_hdma5(&mut self, value: u8)
        requires
            old(self)@.wf(),
        ensures
            final(self)@.wf(),
            final(self)@.clock_free() == old(self)@.clock_free(),
            final(self)@.mbc == old(self)@.mbc,
            final(self)@.cart == old(self)@.cart,
            old(self)@.clock_free() ==> final(self)@ == old(self)@.write_hdma5_spec(value),
            exists|t: HostTimes| final(self)@ == #[trigger] old(self)@.write_hdma5_at(value, t),
    {
        proof { reveal(components_wf); }
        proof { reveal(BusView::write_hdma5_at); }
        if !self.cgb_mode {
            assert(self@ == old(self)@.write_hdma5_at(value, fixed_times(0)));
            return;
        }
        let (should_transfer_now, blocks_to_transfer) = self.hdma.write_hdma5(value);
        if should_transfer_now {
            let ghost b = self@;
            self.perform_hdma_transfer(blocks_to_transfer);
            proof {
                let t = choose|t: HostTimes| self@ == #[trigger] b.perform_hdma_at(blocks_to_transfer, t);
                assert(self@ == old(self)@.write_hdma5_at(value, t));
            }
        } else {
            assert(self@ == old(self)@.write_hdma5_at(value, fixed_times(0)));
        }
    }

    /// Writes an I/O register; a general-purpose HDMA start copies its blocks at once.
    pub fn write_io(&mut self, addr: u16, value: u8)
        requires
            old(self)@.wf(),
            0xFF00 <= addr <= 0xFF7F,
        ensures
            final(self)@.wf(),
            final(self)@.clock_free() == old(self)@.clock_free(),
            final(self)@.mbc == old(self)@.mbc,
            final(self)@.cart == old(self)@.cart,
            old(self)@.clock_free() || addr != REG_HDMA5 ==> final(self)@ == old(self)@.write_io_spec(addr, value),
            exists|t: HostTimes| final(self)@ == #[trigger] old(self)@.write_io_at(addr, value, t),
    {
        if addr < 0xFF40 {
            self.write_io_sound_page(addr, value);
        } else {
            self.write_io_lcd_page(addr, value);
        }
    }

    /// 0xFF00-0xFF3F: joypad, serial, timer, interrupt flags and sound.
    #[verifier::spinoff_prover]
    #[verifier::rlimit(40)]
    fn write_io_sound_page(&mut self, addr: u16, value: u8)
        requires
            old(self)@.wf(),
            0xFF00 <= addr < 0xFF40,
        ensures
            final(self)@.wf(),
            final(self)@.clock_free() == old(self)@.clock_free(),
            final(self)@.mbc == old(self)@.mbc,
            final(self)@.cart == old(self)@.cart,
            old(self)@.clock_free() || addr != REG_HDMA5 ==> final(self)@ == old(self)@.write_io_spec(addr, value),
            exists|t: HostTimes| final(self)@ == #[trigger] old(self)@.write_io_at(addr, value, t),
    {
        match addr {
            REG_JOYP | REG_SB | REG_SC | REG_DIV | REG_TIMA | REG_TMA | REG_TAC | REG_IF => {
                self.write_timer_serial(addr, value);
            },
            0xFF10..=0xFF14 | 0xFF16..=0xFF19 | 0xFF1A..=0xFF1E | 0xFF20..=0xFF23
            | 0xFF24..=0xFF26 | 0xFF30..=0xFF3F => self.write_apu(addr, value),
            _ => self.write_cgb_control(addr, value),
        }
        assert(self@ == old(self)@.write_io_at(addr, value, fixed_times(0)));
    }

    /// 0xFF40-0xFF7F: LCD status, OAM DMA and the CGB registers.
    #[verifier::spinoff_prover]
    #[verifier::rlimit(40)]
    fn write_io_lcd_page(&mut self, addr: u16, value: u8)
        requires
            old(self)@.wf(),
            0xFF40 <= addr <= 0xFF7F,
        ensures
            final(self)@.wf(),
            final(self)@.clock_free() == old(self)@.clock_free(),
            final(self)@.mbc == old(self)@.mbc,
            final(self)@.cart == old(self)@.cart,
            old(self)@.clock_free() || addr != REG_HDMA5 ==> final(self)@ == old(self)@.write_io_spec(addr, value),
            exists|t: HostTimes| final(self)@ == #[trigger] old(self)@.write_io_at(addr, value, t),
    {
        proof { reveal(components_wf); }
        match addr {
            REG_STAT | REG_LY | REG_LYC => self.write_lcd_reg(addr, value),
            REG_DMA => self.write_dma_reg(value),
            REG_HDMA1..=REG_HDMA4 => self.write_hdma_reg(addr, value),
            REG_HDMA5 => self.write_hdma5(value),
            REG_BGPI => self.write_bgpi(value),
            REG_BGPD => self.write_bgpdata(value),
            REG_OBPI => self.write_obpi(value),
            REG_OBPD => self.write_obpdata(value),
            _ => self.write_cgb_control(addr, value),
        }
        proof {
            if addr == REG_HDMA5 {
                let t = choose|t: HostTimes| self@ == #[trigger] old(self)@.write_hdma5_at(value, t);
                assert(self@ == old(self)@.write_io_at(addr, value, t));
            } else {
                assert(self@ == old(self)@.write_io_at(addr, value, fixed_times(0)));
            }
        }
    }

    fn write_key1(&mut self, value: u8)
        ensures final(self)@ == old(self)@.write_control_spec(REG_KEY1, value),
    {
        proof { reveal(BusView::write_control_spec); }
        if self.cgb_mode {
            self.speed_switch_pending = value & 0x01 != 0;
        }
    }

    fn write_vbk(&mut self, value: u8)
        ensures
            final(self)@ == old(self)@.write_control_spec(REG_VBK, value),
            final(self).vram_bank <= 1,
    {
        proof { reveal(BusView::write_control_spec); }
        proof { lemma_byte(value); }
        self.vram_bank = value & 0x01;
    }

    fn write_svbk(&mut self, value: u8)
        requires
            1 <= old(self).wram_bank <= 7,
        ensures
            final(self)@ == old(self)@.write_control_spec(REG_SVBK, value),
            1 <= final(self).wram_bank <= 7,
    {
        proof { reveal(BusView::write_control_spec); }
        if self.cgb_mode {
            let bank = value & 0x07;
            proof { lemma_byte(value); }
            self.wram_bank = if bank == 0 { 1 } else { bank };
        }
    }

    fn write_plain_io(&mut self, addr: u16, value: u8)
        requires
            old(self).io@.len() == IO_SIZE,
            0xFF00 <= addr <= 0xFF7F,
            addr != REG_KEY0 && addr != REG_KEY1 && addr != REG_VBK && addr != REG_SVBK,
        ensures
            final(self)@ == old(self)@.write_control_spec(addr, value),
            final(self).io@.len() == IO_SIZE,
    {
        proof { reveal(BusView::write_control_spec); }
        self.io.set((addr - 0xFF00) as usize, value);
    }

    fn write_dma_reg(&mut self, value: u8)
        requires
            old(self)@.wf(),
        ensures
            final(self)@ == old(self)@.write_dma_reg_spec(value),
            final(self)@.wf(),
            final(self)@.mbc == old(self)@.mbc, final(self)@.cart == old(self)@.cart,
    {
        proof { reveal(BusView::write_dma_reg_spec); reveal(components_wf); }
        self.dma.write_dma(value);
    }

    /// KEY0 (read-only), KEY1, VBK, SVBK and the plain registers of 0xFF40-0xFF7F.
    #[verifier::spinoff_prover]
    fn write_cgb_control(&mut self, addr: u16, value: u8)
        requires
            old(self)@.wf(),
            0xFF00 <= addr <= 0xFF7F,
            !(addr == REG_JOYP || addr == REG_SB || addr == REG_SC || addr == REG_DIV || addr == REG_TIMA
                || addr == REG_TMA || addr == REG_TAC || addr == REG_IF),
            !(addr == REG_STAT || addr == REG_LY || addr == REG_LYC || addr == REG_DMA),
            !(REG_HDMA1 <= addr <= REG_HDMA5) && !(REG_BGPI <= addr <= REG_OBPD),
            !is_apu_addr(addr),
        ensures
            final(self)@.wf(),
            final(self)@.clock_free() == old(self)@.clock_free(),
            final(self)@.mbc == old(self)@.mbc,
            final(self)@.cart == old(self)@.cart,
            final(self)@ == old(self)@.write_control_spec(addr, value),
    {
        proof { reveal(BusView::write_control_spec); }
        match addr {
            REG_KEY0 => {},
            REG_KEY1 => self.write_key1(value),
            REG_VBK => self.write_vbk(value),
            REG_SVBK => self.write_svbk(value),
            _ => self.write_plain_io(addr, value),
        }
    }

    fn write_apu(&mut self, addr: u16, value: u8)
        requires
            old(self)@.wf(),
        ensures
            final(self)@ == old(self)@.write_apu_spec(addr, value),
            final(self)@.wf(),
            final(self)@.mbc == old(self)@.mbc, final(self)@.cart == old(self)@.cart,
    {
        proof { reveal(components_wf); }
        proof { reveal(BusView::write_apu_spec); }
        self.apu.write_io(addr, value);
    }

    /// Reads an I/O register.
    pub fn read_io(&self, addr: u16) -> (r: u8)
        requires
            self@.wf(),
            0xFF00 <= addr <= 0xFF7F,
        ensures
            r == self@.read_io_spec(addr),
    {
        proof { reveal(components_wf); }
        proof { lemma_const_bits(); }
        match addr {
            REG_JOYP => self.read_joyp(),
            REG_SB => self.serial.sb(),
            REG_SC => self.serial.sc(),
            REG_DIV => self.timer.div(),
            REG_TIMA => self.timer.tima(),
            REG_TMA => self.timer.tma(),
            REG_TAC => self.timer.tac(),
            REG_IF => self.interrupt_flag,
            REG_STAT => self.stat,
            REG_LY => self.ly,
            REG_LYC => self.lyc,
            REG_DMA => self.dma.dma(),
            REG_KEY0 => self.read_key0(),
            REG_KEY1 => self.read_key1(),
            REG_VBK => self.vram_bank | 0xFE,
            REG_HDMA1 => (self.hdma.source() >> 8) as u8,
            REG_HDMA2 => self.hdma.source() as u8,
            REG_HDMA3 => (self.hdma.dest() >> 8) as u8,
            REG_HDMA4 => self.hdma.dest() as u8,
            REG_HDMA5 => self.hdma.read_hdma5(),
            REG_BGPI => {
                let mut value = self.bg_palette_index;
                if self.bg_palette_auto_increment {
                    value |= 0x80;
                }
                let v0 = self.bg_palette_index;
                proof { lemma_nibble_idem(v0); }
                value
            },
            REG_BGPD => self.bg_palette_data[self.bg_palette_index as usize],
            REG_OBPI => {
                let mut value = self.ob_palette_index;
                if self.ob_palette_auto_increment {
                    value |= 0x80;
                }
                let v0 = self.ob_palette_index;
                proof { lemma_nibble_idem(v0); }
                value
            },
            REG_OBPD => self.ob_palette_data[self.ob_palette_index as usize],
            REG_SVBK => self.wram_bank | 0xF8,
            0xFF10..=0xFF14 | 0xFF16..=0xFF19 | 0xFF1A..=0xFF1E | 0xFF20..=0xFF23
            | 0xFF24..=0xFF26 | 0xFF30..=0xFF3F => self.apu.read_io(addr),
            _ => self.io[(addr - 0xFF00) as usize],
        }
    }
}

} // verus!
