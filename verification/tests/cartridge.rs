use craterboy::domain::cartridge::{Cartridge, ROM_BANK_SIZE};

#[test]
fn banked_rom_splits_into_16k_chunks() {
    let bytes = vec![0; ROM_BANK_SIZE * 2];
    let cart = Cartridge::from_bytes(bytes).expect("cartridge");
    let banks = cart.banked_rom();

    assert_eq!(banks.bank_count(), 2);
    assert_eq!(banks.bank(0).expect("bank 0").len(), ROM_BANK_SIZE);
    assert_eq!(banks.bank(1).expect("bank 1").len(), ROM_BANK_SIZE);
    assert!(banks.bank(2).is_none());
}

#[test]
fn banked_rom_handles_partial_last_bank() {
    let bytes = vec![0; ROM_BANK_SIZE + 1];
    let cart = Cartridge::from_bytes(bytes).expect("cartridge");
    let banks = cart.banked_rom();

    assert_eq!(banks.bank_count(), 2);
    assert_eq!(banks.bank(0).expect("bank 0").len(), ROM_BANK_SIZE);
    assert_eq!(banks.bank(1).expect("bank 1").len(), 1);
}
