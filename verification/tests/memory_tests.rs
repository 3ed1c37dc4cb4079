use gb_core::memory::Memory;

#[test]
fn test_memory_new() {
    let memory = Memory::new();
    for location in 0..=0xFFFFu16 {
        assert_eq!(memory.read_byte(location), 0);
    }
}

#[test]
fn test_write_byte() {
    let mut memory = Memory::new();
    memory.write_byte(0x0001, 0x12);
    assert_eq!(memory.read_byte(0x0001), 0x12);
}

#[test]
fn test_read_byte() {
    let mut memory = Memory::new();
    memory.write_byte(0x0001, 0x34);
    assert_eq!(memory.read_byte(0x0001), 0x34);
}

#[test]
fn test_write_word() {
    let mut memory = Memory::new();
    memory.write_word(0x0002, 0x5678);
    assert_eq!(memory.read_byte(0x0002), 0x56);
    assert_eq!(memory.read_byte(0x0003), 0x78);
}

#[test]
fn test_read_word() {
    let mut memory = Memory::new();
    memory.write_word(0x0002, 0x9ABC);
    assert_eq!(memory.read_word(0x0002), 0x9ABC);
}

#[test]
fn test_read_write_consistency() {
    let mut memory = Memory::new();
    memory.write_byte(0x0004, 0xDE);
    assert_eq!(memory.read_byte(0x0004), 0xDE);

    memory.write_word(0x0006, 0xF012);
    assert_eq!(memory.read_word(0x0006), 0xF012);
}

#[test]
fn working_ram_does_not_alias_external_ram() {
    let mut memory = Memory::new();
    memory.write_byte(0xC000, 0x11);
    memory.write_byte(0xA000, 0x22);
    assert_eq!(memory.read_byte(0xC000), 0x11);
    assert_eq!(memory.read_byte(0xA000), 0x22);
}

#[test]
fn unmapped_addresses_read_zero_and_drop_writes() {
    let mut memory = Memory::new();
    for location in [0x4000u16, 0x5555, 0x7FFF, 0xFE00, 0xFEA0, 0xFF00, 0xFF7F] {
        memory.write_byte(location, 0xAB);
        assert_eq!(memory.read_byte(location), 0);
    }
    for location in 0..=0xFFFFu16 {
        assert_eq!(memory.read_byte(location), 0);
    }
}

#[test]
fn video_range_is_a_stub() {
    let mut memory = Memory::new();
    for location in [0x8000u16, 0x9000, 0x9FFF] {
        memory.write_byte(location, 0xCD);
        assert_eq!(memory.read_byte(location), 0);
    }
}

#[test]
fn each_region_stores_at_its_bounds() {
    let mut memory = Memory::new();
    let bounds = [
        0x0000u16, 0x00FF, 0x0100, 0x3FFF, 0xA000, 0xBFFF, 0xC000, 0xDFFF, 0xFF80, 0xFFFF,
    ];
    for (i, location) in bounds.iter().enumerate() {
        memory.write_byte(*location, i as u8 + 1);
    }
    for (i, location) in bounds.iter().enumerate() {
        assert_eq!(memory.read_byte(*location), i as u8 + 1);
    }
}

#[test]
fn echo_shows_working_ram() {
    let mut memory = Memory::new();
    memory.write_byte(0xC123, 0x77);
    assert_eq!(memory.read_byte(0xE123), 0x77);
    memory.write_byte(0xFDFF, 0x88);
    assert_eq!(memory.read_byte(0xDDFF), 0x88);
    assert_eq!(memory.read_byte(0xC123), 0x77);
}

#[test]
fn boot_store_hides_the_start_of_the_cartridge() {
    let mut memory = Memory::new();
    assert!(memory.boot_active());
    memory.write_byte(0x0010, 0xB0);
    memory.set_boot_active(false);
    assert!(!memory.boot_active());
    assert_eq!(memory.read_byte(0x0010), 0x00);
    memory.write_byte(0x0010, 0xC0);
    assert_eq!(memory.read_byte(0x0010), 0xC0);
    memory.set_boot_active(true);
    assert_eq!(memory.read_byte(0x0010), 0xB0);
    memory.write_byte(0x0100, 0x42);
    memory.set_boot_active(false);
    assert_eq!(memory.read_byte(0x0100), 0x42);
}

#[test]
fn word_is_stored_high_byte_first() {
    let mut memory = Memory::new();
    memory.write_word(0xC010, 0xBEEF);
    assert_eq!(memory.read_byte(0xC010), 0xBE);
    assert_eq!(memory.read_byte(0xC011), 0xEF);
}

#[test]
fn word_at_the_last_address_wraps_to_the_first() {
    let mut memory = Memory::new();
    memory.write_word(0xFFFF, 0x1234);
    assert_eq!(memory.read_byte(0xFFFF), 0x12);
    assert_eq!(memory.read_byte(0x0000), 0x34);
    assert_eq!(memory.read_word(0xFFFF), 0x1234);
}

#[test]
fn word_across_a_gap_loses_the_unstored_byte() {
    let mut memory = Memory::new();
    memory.write_word(0x3FFF, 0xA1B2);
    assert_eq!(memory.read_word(0x3FFF), 0xA100);
}

#[test]
fn mutable_byte_reads_and_writes_in_place() {
    let mut memory = Memory::new();
    memory.write_byte(0xC050, 0x0F);
    {
        let byte = memory.get_refm_to_byte(0xC050);
        assert_eq!(*byte, 0x0F);
        *byte = byte.wrapping_add(1);
    }
    assert_eq!(memory.read_byte(0xC050), 0x10);
    assert_eq!(memory.read_byte(0xE050), 0x10);
}

#[test]
fn mutable_byte_of_an_unmapped_address_is_zero_and_dropped() {
    let mut memory = Memory::new();
    {
        let byte = memory.get_refm_to_byte(0x4000);
        assert_eq!(*byte, 0);
        *byte = 0x99;
    }
    assert_eq!(memory.read_byte(0x4000), 0);
    {
        let byte = memory.get_refm_to_byte(0x4001);
        assert_eq!(*byte, 0);
    }
}
