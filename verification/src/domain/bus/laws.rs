//! What a CPU read gives back after a CPU write, for the memories the bus owns.
use vstd::prelude::*;
use crate::domain::bus::BusView;

verus! {

/// Work RAM keeps what the CPU writes: a read of an address in 0xC000-0xFDFF (echo RAM
/// included) returns the byte last written there.
pub proof fn lemma_work_ram_read_after_write(b: BusView, addr: u16, value: u8, now: u128, later: u128)
    requires
        b.wf(),
        0xC000 <= addr <= 0xFDFF,
    ensures
        b.write_spec(addr, value, now).read_spec(addr, later) == value,
{
    reveal(BusView::write_wram_spec);
}

/// Echo RAM at 0xE000-0xFDFF reads as the work RAM 0x2000 below it.
pub proof fn lemma_echo_ram_mirrors_work_ram(b: BusView, addr: u16, now: u128)
    requires
        b.wf(),
        0xE000 <= addr <= 0xFDFF,
    ensures
        b.read_spec(addr, now) == b.read_spec((addr - 0x2000) as u16, now),
{
}

/// A write through echo RAM is seen at the work RAM address it mirrors, and the other way.
pub proof fn lemma_echo_ram_write_is_shared(b: BusView, addr: u16, value: u8, now: u128, later: u128)
    requires
        b.wf(),
        0xE000 <= addr <= 0xFDFF,
    ensures
        b.write_spec(addr, value, now).read_spec((addr - 0x2000) as u16, later) == value,
        b.write_spec((addr - 0x2000) as u16, value, now).read_spec(addr, later) == value,
{
    reveal(BusView::write_wram_spec);
}

/// High RAM (0xFF80-0xFFFE) and the interrupt-enable register (0xFFFF) keep what is written.
pub proof fn lemma_high_ram_read_after_write(b: BusView, addr: u16, value: u8, now: u128, later: u128)
    requires
        b.wf(),
        0xFF80 <= addr,
    ensures
        b.write_spec(addr, value, now).read_spec(addr, later) == value,
{
    reveal(BusView::write_high_spec);
}

/// An HDMA copy only changes video RAM.
proof fn lemma_hdma_copy_keeps_boot_flag(b: BusView, source: u16, dest: u16, n: nat)
    ensures
        b.hdma_copy_spec(source, dest, n).boot_rom_enabled == b.boot_rom_enabled,
    decreases n,
{
    if n > 0 {
        lemma_hdma_copy_keeps_boot_flag(b, source, dest, (n - 1) as nat);
    }
}

/// Writing a non-zero value to 0xFF50 switches the boot ROM off, and no later write
/// switches it back on.
pub proof fn lemma_boot_rom_disable_is_permanent(b: BusView, addr: u16, value: u8, now: u128)
    ensures
        b.write_spec(0xFF50, 1, now).boot_rom_enabled == false,
        !b.boot_rom_enabled ==> !b.write_spec(addr, value, now).boot_rom_enabled,
{
    reveal(BusView::write_cart_spec);
    reveal(BusView::write_vram_spec);
    reveal(BusView::write_wram_spec);
    reveal(BusView::write_oam_spec);
    reveal(BusView::write_high_spec);
    reveal(BusView::write_timer_group_spec);
    reveal(BusView::write_lcd_group_spec);
    reveal(BusView::write_hdma_reg_spec);
    reveal(BusView::write_hdma5_at);
    reveal(BusView::write_palette_spec);
    reveal(BusView::write_dma_reg_spec);
    reveal(BusView::write_control_spec);
    reveal(BusView::write_apu_spec);
    if !b.boot_rom_enabled {
        let c = b.boot_off_spec(addr, value);
        let (hdma, (go, blocks)) = c.hdma.write_hdma5_spec(value);
        let h = BusView { hdma, ..c };
        let (hdma2, runs) = h.hdma.transfer_blocks_spec(blocks);
        if runs.len() > 0 {
            let (source, dest, count) = runs[0];
            lemma_hdma_copy_keeps_boot_flag(BusView { hdma: hdma2, ..h }, source, dest, (count as nat * 16) as nat);
        }
    }
}

} // verus!
