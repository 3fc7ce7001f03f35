use craterboy::domain::cpu::{Cpu, Registers};
use craterboy::domain::Bus;
use craterboy::domain::Cartridge;
use craterboy::domain::cartridge::ROM_BANK_SIZE;

fn bus_with_rom(mut rom: Vec<u8>) -> Bus {
    if rom.len() < 0x0150 {
        rom.resize(0x0150, 0);
    }
    rom[0x0147] = 0x00;
    let cartridge = Cartridge::from_bytes(rom).expect("cartridge");
    Bus::new(cartridge).expect("bus")
}

#[test]
fn registers_mask_lower_flags() {
    let mut regs = Registers::new();
    regs.set_af(0x12F3);
    assert_eq!(regs.af(), 0x12F0);
}

#[test]
fn cpu_executes_nop() {
    let rom = vec![0x00; ROM_BANK_SIZE];
    let mut bus = bus_with_rom(rom);
    let mut cpu = Cpu::new();

    let cycles = cpu.step(&mut bus).expect("step");
    assert_eq!(cycles, 4);
    assert_eq!(cpu.pc(), 1);
}

#[test]
fn cpu_loads_and_writes_memory() {
    let mut rom = vec![0; ROM_BANK_SIZE];
    rom[0x0000] = 0x3E;
    rom[0x0001] = 0x12;
    rom[0x0002] = 0xEA;
    rom[0x0003] = 0x00;
    rom[0x0004] = 0xC0;
    let mut bus = bus_with_rom(rom);
    let mut cpu = Cpu::new();

    cpu.step(&mut bus).expect("ld a,d8");
    assert_eq!(cpu.regs().a(), 0x12);

    cpu.step(&mut bus).expect("ld (a16),a");
    assert_eq!(bus.read8(0xC000), 0x12);
}

#[test]
fn cpu_jumps_relative() {
    let mut rom = vec![0; ROM_BANK_SIZE];
    rom[0x0000] = 0x18;
    rom[0x0001] = 0x02;
    rom[0x0002] = 0x00;
    rom[0x0003] = 0x00;
    let mut bus = bus_with_rom(rom);
    let mut cpu = Cpu::new();

    cpu.step(&mut bus).expect("jr");
    assert_eq!(cpu.pc(), 0x0004);
}

#[test]
fn cpu_add_sets_flags() {
    let mut rom = vec![0; ROM_BANK_SIZE];
    rom[0x0000] = 0x3E;
    rom[0x0001] = 0x0F;
    rom[0x0002] = 0x06;
    rom[0x0003] = 0x01;
    rom[0x0004] = 0x80;
    let mut bus = bus_with_rom(rom);
    let mut cpu = Cpu::new();

    cpu.step(&mut bus).expect("ld a,d8");
    cpu.step(&mut bus).expect("ld b,d8");
    cpu.step(&mut bus).expect("add a,b");

    assert_eq!(cpu.regs().a(), 0x10);
    assert!(!cpu.regs().flag_z());
    assert!(!cpu.regs().flag_n());
    assert!(cpu.regs().flag_h());
    assert!(!cpu.regs().flag_c());
}

#[test]
fn cpu_and_xor_or_cp() {
    let mut rom = vec![0; ROM_BANK_SIZE];
    rom[0x0000] = 0x3E;
    rom[0x0001] = 0xF0;
    rom[0x0002] = 0xE6;
    rom[0x0003] = 0x0F;
    rom[0x0004] = 0xEE;
    rom[0x0005] = 0x0F;
    rom[0x0006] = 0xF6;
    rom[0x0007] = 0x01;
    rom[0x0008] = 0xFE;
    rom[0x0009] = 0x01;
    let mut bus = bus_with_rom(rom);
    let mut cpu = Cpu::new();

    cpu.step(&mut bus).expect("ld a,d8");
    cpu.step(&mut bus).expect("and d8");
    assert_eq!(cpu.regs().a(), 0x00);
    assert!(cpu.regs().flag_z());
    assert!(cpu.regs().flag_h());

    cpu.step(&mut bus).expect("xor d8");
    assert_eq!(cpu.regs().a(), 0x0F);
    assert!(!cpu.regs().flag_z());
    assert!(!cpu.regs().flag_h());

    cpu.step(&mut bus).expect("or d8");
    assert_eq!(cpu.regs().a(), 0x0F);

    cpu.step(&mut bus).expect("cp d8");
    assert_eq!(cpu.regs().a(), 0x0F);
    assert!(!cpu.regs().flag_z());
    assert!(cpu.regs().flag_n());
    assert!(!cpu.regs().flag_c());
}

#[test]
fn cpu_adc_and_sbc_use_carry() {
    let mut rom = vec![0; ROM_BANK_SIZE];
    rom[0x0000] = 0x3E;
    rom[0x0001] = 0x0F;
    rom[0x0002] = 0x06;
    rom[0x0003] = 0x01;
    rom[0x0004] = 0x88;
    rom[0x0005] = 0x98;
    let mut bus = bus_with_rom(rom);
    let mut cpu = Cpu::new();

    cpu.regs_mut().set_flag_c(true);
    cpu.step(&mut bus).expect("ld a,d8");
    cpu.step(&mut bus).expect("ld b,d8");
    cpu.step(&mut bus).expect("adc a,b");

    assert_eq!(cpu.regs().a(), 0x11);
    assert!(cpu.regs().flag_h());
    assert!(!cpu.regs().flag_n());

    cpu.regs_mut().set_flag_c(true);
    cpu.step(&mut bus).expect("sbc a,b");

    assert_eq!(cpu.regs().a(), 0x0F);
    assert!(cpu.regs().flag_n());
    assert!(cpu.regs().flag_h());
    assert!(!cpu.regs().flag_c());
}

#[test]
fn cpu_ld_rr_and_hl_increment_decrement() {
    let mut rom = vec![0; ROM_BANK_SIZE];
    rom[0x0000] = 0x77;
    rom[0x0001] = 0x7E;
    rom[0x0002] = 0x22;
    rom[0x0003] = 0x2A;
    rom[0x0004] = 0x32;
    rom[0x0005] = 0x3A;
    let mut bus = bus_with_rom(rom);
    let mut cpu = Cpu::new();
    cpu.regs_mut().set_hl(0xC000);
    cpu.regs_mut().set_a(0x55);

    cpu.step(&mut bus).expect("ld (hl),a");
    assert_eq!(bus.read8(0xC000), 0x55);

    bus.write8(0xC000, 0xAA);
    cpu.step(&mut bus).expect("ld a,(hl)");
    assert_eq!(cpu.regs().a(), 0xAA);

    cpu.regs_mut().set_a(0x11);
    cpu.step(&mut bus).expect("ld (hl+),a");
    assert_eq!(cpu.regs().hl(), 0xC001);
    assert_eq!(bus.read8(0xC000), 0x11);

    bus.write8(0xC001, 0x22);
    cpu.step(&mut bus).expect("ld a,(hl+)");
    assert_eq!(cpu.regs().a(), 0x22);
    assert_eq!(cpu.regs().hl(), 0xC002);

    cpu.regs_mut().set_a(0x33);
    cpu.step(&mut bus).expect("ld (hl-),a");
    assert_eq!(cpu.regs().hl(), 0xC001);
    assert_eq!(bus.read8(0xC002), 0x33);

    bus.write8(0xC001, 0x44);
    cpu.step(&mut bus).expect("ld a,(hl-)");
    assert_eq!(cpu.regs().a(), 0x44);
    assert_eq!(cpu.regs().hl(), 0xC000);
}

#[test]
fn cpu_add_hl_preserves_z_flag() {
    let mut rom = vec![0; ROM_BANK_SIZE];
    rom[0x0000] = 0x09;
    let mut bus = bus_with_rom(rom);
    let mut cpu = Cpu::new();
    cpu.regs_mut().set_hl(0x0FFF);
    cpu.regs_mut().set_bc(0x0001);
    cpu.regs_mut().set_flag_z(true);

    cpu.step(&mut bus).expect("add hl,bc");
    assert_eq!(cpu.regs().hl(), 0x1000);
    assert!(cpu.regs().flag_z());
    assert!(cpu.regs().flag_h());
    assert!(!cpu.regs().flag_n());
}

#[test]
fn cpu_loads_16bit_immediates() {
    let mut rom = vec![0; ROM_BANK_SIZE];
    rom[0x0000] = 0x01;
    rom[0x0001] = 0x34;
    rom[0x0002] = 0x12;
    rom[0x0003] = 0x11;
    rom[0x0004] = 0x78;
    rom[0x0005] = 0x56;
    rom[0x0006] = 0x21;
    rom[0x0007] = 0xBC;
    rom[0x0008] = 0x9A;
    rom[0x0009] = 0x31;
    rom[0x000A] = 0xEF;
    rom[0x000B] = 0xCD;
    let mut bus = bus_with_rom(rom);
    let mut cpu = Cpu::new();

    cpu.step(&mut bus).expect("ld bc,d16");
    cpu.step(&mut bus).expect("ld de,d16");
    cpu.step(&mut bus).expect("ld hl,d16");
    cpu.step(&mut bus).expect("ld sp,d16");

    assert_eq!(cpu.regs().bc(), 0x1234);
    assert_eq!(cpu.regs().de(), 0x5678);
    assert_eq!(cpu.regs().hl(), 0x9ABC);
    assert_eq!(cpu.sp(), 0xCDEF);
}

#[test]
fn cpu_loads_and_stores_via_bc_de() {
    let mut rom = vec![0; ROM_BANK_SIZE];
    rom[0x0000] = 0x01;
    rom[0x0001] = 0x00;
    rom[0x0002] = 0xC0;
    rom[0x0003] = 0x11;
    rom[0x0004] = 0x01;
    rom[0x0005] = 0xC0;
    rom[0x0006] = 0x3E;
    rom[0x0007] = 0x42;
    rom[0x0008] = 0x02;
    rom[0x0009] = 0x12;
    rom[0x000A] = 0x0A;
    rom[0x000B] = 0x1A;
    let mut bus = bus_with_rom(rom);
    let mut cpu = Cpu::new();

    cpu.step(&mut bus).expect("ld bc,d16");
    cpu.step(&mut bus).expect("ld de,d16");
    cpu.step(&mut bus).expect("ld a,d8");
    cpu.step(&mut bus).expect("ld (bc),a");
    cpu.step(&mut bus).expect("ld (de),a");

    assert_eq!(bus.read8(0xC000), 0x42);
    assert_eq!(bus.read8(0xC001), 0x42);

    bus.write8(0xC000, 0x11);
    bus.write8(0xC001, 0x22);
    cpu.step(&mut bus).expect("ld a,(bc)");
    assert_eq!(cpu.regs().a(), 0x11);
    cpu.step(&mut bus).expect("ld a,(de)");
    assert_eq!(cpu.regs().a(), 0x22);
}

#[test]
fn cpu_inc_dec_rr() {
    let mut rom = vec![0; ROM_BANK_SIZE];
    rom[0x0000] = 0x01;
    rom[0x0001] = 0xFF;
    rom[0x0002] = 0xFF;
    rom[0x0003] = 0x03;
    rom[0x0004] = 0x0B;
    rom[0x0005] = 0x11;
    rom[0x0006] = 0x00;
    rom[0x0007] = 0x10;
    rom[0x0008] = 0x13;
    rom[0x0009] = 0x1B;
    rom[0x000A] = 0x21;
    rom[0x000B] = 0x00;
    rom[0x000C] = 0x20;
    rom[0x000D] = 0x23;
    rom[0x000E] = 0x2B;
    rom[0x000F] = 0x31;
    rom[0x0010] = 0x00;
    rom[0x0011] = 0x30;
    rom[0x0012] = 0x33;
    rom[0x0013] = 0x3B;
    let mut bus = bus_with_rom(rom);
    let mut cpu = Cpu::new();

    cpu.step(&mut bus).expect("ld bc,d16");
    cpu.step(&mut bus).expect("inc bc");
    cpu.step(&mut bus).expect("dec bc");
    assert_eq!(cpu.regs().bc(), 0xFFFF);

    cpu.step(&mut bus).expect("ld de,d16");
    cpu.step(&mut bus).expect("inc de");
    cpu.step(&mut bus).expect("dec de");
    assert_eq!(cpu.regs().de(), 0x1000);

    cpu.step(&mut bus).expect("ld hl,d16");
    cpu.step(&mut bus).expect("inc hl");
    cpu.step(&mut bus).expect("dec hl");
    assert_eq!(cpu.regs().hl(), 0x2000);

    cpu.step(&mut bus).expect("ld sp,d16");
    cpu.step(&mut bus).expect("inc sp");
    cpu.step(&mut bus).expect("dec sp");
    assert_eq!(cpu.sp(), 0x3000);
}

#[test]
fn cpu_add_sp_and_ld_hl_with_offset() {
    let mut rom = vec![0; ROM_BANK_SIZE];
    rom[0x0000] = 0x31;
    rom[0x0001] = 0xF8;
    rom[0x0002] = 0xFF;
    rom[0x0003] = 0xE8;
    rom[0x0004] = 0x08;
    rom[0x0005] = 0xF8;
    rom[0x0006] = 0xF8;
    let mut bus = bus_with_rom(rom);
    let mut cpu = Cpu::new();

    cpu.step(&mut bus).expect("ld sp,d16");
    cpu.step(&mut bus).expect("add sp,e8");
    assert_eq!(cpu.sp(), 0x0000);
    assert!(cpu.regs().flag_c());
    assert!(cpu.regs().flag_h());
    assert!(!cpu.regs().flag_z());
    assert!(!cpu.regs().flag_n());

    cpu.step(&mut bus).expect("ld hl,sp+e8");
    assert_eq!(cpu.regs().hl(), 0xFFF8);
    assert!(!cpu.regs().flag_c());
    assert!(!cpu.regs().flag_h());
}

#[test]
fn cpu_ldh_immediate_and_c() {
    let mut rom = vec![0; ROM_BANK_SIZE];
    rom[0x0000] = 0x3E;
    rom[0x0001] = 0x77;
    rom[0x0002] = 0xE0;
    rom[0x0003] = 0x42;
    rom[0x0004] = 0xF0;
    rom[0x0005] = 0x42;
    rom[0x0006] = 0x0E;
    rom[0x0007] = 0x10;
    rom[0x0008] = 0x3E;
    rom[0x0009] = 0x99;
    rom[0x000A] = 0xE2;
    rom[0x000B] = 0xF2;
    let mut bus = bus_with_rom(rom);
    let mut cpu = Cpu::new();

    cpu.step(&mut bus).expect("ld a,d8");
    cpu.step(&mut bus).expect("ldh (a8),a");
    assert_eq!(bus.read8(0xFF42), 0x77);

    cpu.step(&mut bus).expect("ldh a,(a8)");
    assert_eq!(cpu.regs().a(), 0x77);

    cpu.step(&mut bus).expect("ld c,d8");
    cpu.step(&mut bus).expect("ld a,d8");
    cpu.step(&mut bus).expect("ld (c),a");
    assert_eq!(bus.read8(0xFF10), 0x99);

    bus.write8(0xFF10, 0x55);
    cpu.step(&mut bus).expect("ld a,(c)");
    assert_eq!(cpu.regs().a(), 0x55);
}

#[test]
fn cpu_push_pop_stack() {
    let mut rom = vec![0; ROM_BANK_SIZE];
    rom[0x0000] = 0x01;
    rom[0x0001] = 0x34;
    rom[0x0002] = 0x12;
    rom[0x0003] = 0x11;
    rom[0x0004] = 0x78;
    rom[0x0005] = 0x56;
    rom[0x0006] = 0x21;
    rom[0x0007] = 0xBC;
    rom[0x0008] = 0x9A;
    rom[0x0009] = 0xF5;
    rom[0x000A] = 0xC5;
    rom[0x000B] = 0xD5;
    rom[0x000C] = 0xE5;
    rom[0x000D] = 0xE1;
    rom[0x000E] = 0xD1;
    rom[0x000F] = 0xC1;
    rom[0x0010] = 0xF1;
    let mut bus = bus_with_rom(rom);
    let mut cpu = Cpu::new();
    cpu.regs_mut().set_a(0xF0);
    cpu.regs_mut().set_flag_c(true);
    let sp_start = cpu.sp();

    cpu.step(&mut bus).expect("ld bc,d16");
    cpu.step(&mut bus).expect("ld de,d16");
    cpu.step(&mut bus).expect("ld hl,d16");
    cpu.step(&mut bus).expect("push af");
    cpu.step(&mut bus).expect("push bc");
    cpu.step(&mut bus).expect("push de");
    cpu.step(&mut bus).expect("push hl");

    assert_eq!(cpu.sp(), sp_start.wrapping_sub(8));

    cpu.step(&mut bus).expect("pop hl");
    cpu.step(&mut bus).expect("pop de");
    cpu.step(&mut bus).expect("pop bc");
    cpu.step(&mut bus).expect("pop af");

    assert_eq!(cpu.sp(), sp_start);
    assert_eq!(cpu.regs().af(), 0xF010);
    assert_eq!(cpu.regs().bc(), 0x1234);
    assert_eq!(cpu.regs().de(), 0x5678);
    assert_eq!(cpu.regs().hl(), 0x9ABC);
}

#[test]
fn cpu_call_and_ret() {
    let mut rom = vec![0; ROM_BANK_SIZE];
    rom[0x0000] = 0xCD;
    rom[0x0001] = 0x05;
    rom[0x0002] = 0x00;
    rom[0x0003] = 0x00;
    rom[0x0004] = 0x00;
    rom[0x0005] = 0x00;
    rom[0x0006] = 0xC9;
    let mut bus = bus_with_rom(rom);
    let mut cpu = Cpu::new();
    let sp_start = cpu.sp();

    cpu.step(&mut bus).expect("call a16");
    assert_eq!(cpu.pc(), 0x0005);
    assert_eq!(cpu.sp(), sp_start.wrapping_sub(2));
    assert_eq!(bus.read8(cpu.sp()), 0x03);
    assert_eq!(bus.read8(cpu.sp().wrapping_add(1)), 0x00);

    cpu.step(&mut bus).expect("nop");
    cpu.step(&mut bus).expect("ret");
    assert_eq!(cpu.pc(), 0x0003);
    assert_eq!(cpu.sp(), sp_start);
}

#[test]
fn cpu_rst_vectors() {
    let mut rom = vec![0; ROM_BANK_SIZE];
    rom[0x0000] = 0xFF;
    let mut bus = bus_with_rom(rom);
    let mut cpu = Cpu::new();
    let sp_start = cpu.sp();

    cpu.step(&mut bus).expect("rst 0x38");
    assert_eq!(cpu.pc(), 0x0038);
    assert_eq!(cpu.sp(), sp_start.wrapping_sub(2));
    assert_eq!(bus.read8(cpu.sp()), 0x01);
    assert_eq!(bus.read8(cpu.sp().wrapping_add(1)), 0x00);
}

#[test]
fn cpu_jr_conditional() {
    let mut rom = vec![0; ROM_BANK_SIZE];
    rom[0x0000] = 0x20;
    rom[0x0001] = 0x02;
    let mut bus = bus_with_rom(rom);
    let mut cpu = Cpu::new();

    cpu.regs_mut().set_flag_z(false);
    let cycles = cpu.step(&mut bus).expect("jr nz");
    assert_eq!(cycles, 12);
    assert_eq!(cpu.pc(), 0x0004);

    let mut bus = bus_with_rom(vec![0x28, 0x02]);
    let mut cpu = Cpu::new();
    cpu.regs_mut().set_flag_z(false);
    let cycles = cpu.step(&mut bus).expect("jr z");
    assert_eq!(cycles, 8);
    assert_eq!(cpu.pc(), 0x0002);
}

#[test]
fn cpu_jp_call_ret_conditional() {
    let mut rom = vec![0; ROM_BANK_SIZE];
    rom[0x0000] = 0xC2;
    rom[0x0001] = 0x05;
    rom[0x0002] = 0x00;
    let mut bus = bus_with_rom(rom);
    let mut cpu = Cpu::new();
    cpu.regs_mut().set_flag_z(true);

    let cycles = cpu.step(&mut bus).expect("jp nz");
    assert_eq!(cycles, 12);
    assert_eq!(cpu.pc(), 0x0003);

    let mut bus = bus_with_rom(vec![0xC2, 0x34, 0x12]);
    let mut cpu = Cpu::new();
    cpu.regs_mut().set_flag_z(false);
    let cycles = cpu.step(&mut bus).expect("jp nz");
    assert_eq!(cycles, 16);
    assert_eq!(cpu.pc(), 0x1234);

    let mut rom = vec![0; ROM_BANK_SIZE];
    rom[0x0000] = 0xCC;
    rom[0x0001] = 0x05;
    rom[0x0002] = 0x00;
    let mut bus = bus_with_rom(rom);
    let mut cpu = Cpu::new();
    cpu.regs_mut().set_flag_z(true);
    let sp_start = cpu.sp();
    let cycles = cpu.step(&mut bus).expect("call z");
    assert_eq!(cycles, 24);
    assert_eq!(cpu.pc(), 0x0005);
    assert_eq!(cpu.sp(), sp_start.wrapping_sub(2));

    let mut bus = bus_with_rom(vec![0xCC, 0x05, 0x00]);
    let mut cpu = Cpu::new();
    cpu.regs_mut().set_flag_z(false);
    let cycles = cpu.step(&mut bus).expect("call z");
    assert_eq!(cycles, 12);
    assert_eq!(cpu.pc(), 0x0003);

    let mut bus = bus_with_rom(vec![0xD8]);
    let mut cpu = Cpu::new();
    cpu.regs_mut().set_flag_c(true);
    cpu.set_sp(0xFFFC);
    bus.write8(0xFFFC, 0x34);
    bus.write8(0xFFFD, 0x12);
    let cycles = cpu.step(&mut bus).expect("ret c");
    assert_eq!(cycles, 20);
    assert_eq!(cpu.pc(), 0x1234);
    assert_eq!(cpu.sp(), 0xFFFE);

    let mut bus = bus_with_rom(vec![0xD8]);
    let mut cpu = Cpu::new();
    cpu.regs_mut().set_flag_c(false);
    let sp_start = cpu.sp();
    let cycles = cpu.step(&mut bus).expect("ret c");
    assert_eq!(cycles, 8);
    assert_eq!(cpu.pc(), 0x0001);
    assert_eq!(cpu.sp(), sp_start);
}
