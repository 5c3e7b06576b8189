use msp430_sim::machine::memory::{Memory, MEMORY_SIZE};

#[test]
fn new_memory_is_zero_everywhere() {
    let memory = Memory::new();
    assert_eq!(MEMORY_SIZE, 65536);
    assert_eq!(memory.get_byte(0x0000), 0);
    assert_eq!(memory.get_byte(0x1234), 0);
    assert_eq!(memory.get_byte(0xFFFF), 0);
    assert_eq!(memory.get_word_be(0xFFFF), 0);
}

#[test]
fn byte_is_read_back_and_neighbours_stay() {
    let mut memory = Memory::new();
    memory.set_byte(0x0200, 0xAB);
    assert_eq!(memory.get_byte(0x0200), 0xAB);
    assert_eq!(memory.get_byte(0x01FF), 0);
    assert_eq!(memory.get_byte(0x0201), 0);
    memory.set_byte(0x0200, 0x01);
    assert_eq!(memory.get_byte(0x0200), 0x01);
}

#[test]
fn every_address_is_backed_by_storage() {
    let mut memory = Memory::new();
    memory.set_byte(0xFFFF, 0x5A);
    memory.set_byte(0x0000, 0xA5);
    assert_eq!(memory.get_byte(0xFFFF), 0x5A);
    assert_eq!(memory.get_byte(0x0000), 0xA5);
}

#[test]
fn word_is_stored_low_byte_first() {
    let mut memory = Memory::new();
    memory.set_word(0x0200, 0x1234);
    assert_eq!(memory.get_byte(0x0200), 0x34);
    assert_eq!(memory.get_byte(0x0201), 0x12);
    assert_eq!(memory.get_word_be(0x0200), 0x1234);
}

#[test]
fn word_is_read_low_byte_first() {
    let mut memory = Memory::new();
    memory.set_byte(0x0300, 0xCD);
    memory.set_byte(0x0301, 0xAB);
    assert_eq!(memory.get_word_be(0x0300), 0xABCD);
    assert_eq!(memory.get_word(0x0300), 0xABCD);
}

#[test]
fn word_read_equals_bytes_combined() {
    let mut memory = Memory::new();
    let addresses: [u16; 5] = [0x0000, 0x0201, 0x7FFF, 0xFFFE, 0xFFFF];
    let values: [u16; 5] = [0x0001, 0x8000, 0xFFFF, 0x00FF, 0xBEEF];
    for i in 0..5 {
        let address: u16 = addresses[i];
        let value: u16 = values[i];
        memory.set_word(address, value);
        assert_eq!(memory.get_word_be(address), value);
        let low: u16 = memory.get_byte(address) as u16;
        let high: u16 = memory.get_byte(address.wrapping_add(1)) as u16;
        assert_eq!(memory.get_word_be(address), low | (high << 8));
    }
}

#[test]
fn word_at_last_address_wraps_to_first() {
    let mut memory = Memory::new();
    memory.set_word(0xFFFF, 0xABCD);
    assert_eq!(memory.get_byte(0xFFFF), 0xCD);
    assert_eq!(memory.get_byte(0x0000), 0xAB);
    assert_eq!(memory.get_word_be(0xFFFF), 0xABCD);
    assert_eq!(memory.get_byte(0x0001), 0);
}

#[test]
fn word_at_odd_address_uses_two_consecutive_bytes() {
    let mut memory = Memory::new();
    memory.set_word(0x0101, 0x55AA);
    assert_eq!(memory.get_byte(0x0101), 0xAA);
    assert_eq!(memory.get_byte(0x0102), 0x55);
    assert_eq!(memory.get_word_be(0x0100), 0xAA00);
    assert_eq!(memory.get_word_be(0x0102), 0x0055);
}

#[test]
fn get_word_reads_what_get_word_be_reads() {
    let mut memory = Memory::new();
    memory.set_word(0x4000, 0x0102);
    memory.set_word(0xFFFF, 0x0304);
    assert_eq!(memory.get_word(0x4000), memory.get_word_be(0x4000));
    assert_eq!(memory.get_word(0xFFFF), 0x0304);
    assert_eq!(memory.get_word(0x4001), 0x0001);
}
