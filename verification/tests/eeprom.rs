use avr8rs::atmega328p::{ATMega328P, DEFAULT_FREQ};
use avr8rs::peripheral::eeprom::{EEMPE, EEPE, EEPM0, EEPM1, EERIE, EEPROM_CONFIG};

#[test]
fn write() {
    // Arrange
    let mut atmega = ATMega328P::new("", DEFAULT_FREQ);
    let data = 0x55;
    let addr = 15;

    // Act
    atmega.write_data(EEPROM_CONFIG().EEDR as u16, data);
    atmega.write_data(EEPROM_CONFIG().EEARL as u16, addr);
    atmega.write_data(EEPROM_CONFIG().EEARH as u16, 0);
    atmega.write_data(EEPROM_CONFIG().EECR as u16, EEMPE);
    atmega.write_data(EEPROM_CONFIG().EECR as u16, EEPE);
    atmega.tick(None);

    // Assert
    assert_eq!(atmega.cpu.cycles, 2);
    assert_eq!(atmega.eeprom.memory[addr as usize], data);
    assert_eq!(atmega.cpu.data[EEPROM_CONFIG().EECR as usize] & EEPE, EEPE);
}

#[test]
fn write_two_bytes() {
    // Arrange
    let mut atmega = ATMega328P::new("", DEFAULT_FREQ);
    let data1 = 0x55;
    let addr1 = 15;
    let data2 = 0x66;
    let addr2 = 16;

    // Act
    // Write data1
    atmega.write_data(EEPROM_CONFIG().EEDR as u16, data1);
    atmega.write_data(EEPROM_CONFIG().EEARL as u16, addr1);
    atmega.write_data(EEPROM_CONFIG().EEARH as u16, 0);
    atmega.write_data(EEPROM_CONFIG().EECR as u16, EEMPE);
    atmega.write_data(EEPROM_CONFIG().EECR as u16, EEPE);
    atmega.tick(None);
    assert_eq!(atmega.cpu.cycles, 2);

    // wait long enough time for the first write to finish
    atmega.cpu.cycles += 10000000;
    atmega.tick(None);

    // Write data2
    atmega.write_data(EEPROM_CONFIG().EEDR as u16, data2);
    atmega.write_data(EEPROM_CONFIG().EEARL as u16, addr2);
    atmega.write_data(EEPROM_CONFIG().EEARH as u16, 0);
    atmega.write_data(EEPROM_CONFIG().EECR as u16, EEMPE);
    atmega.write_data(EEPROM_CONFIG().EECR as u16, EEPE);
    atmega.tick(None);

    // Assert
    assert_eq!(atmega.cpu.cycles, 10000000 + 2 + 2);
    assert_eq!(atmega.eeprom.memory[addr1 as usize], data1);
    assert_eq!(atmega.eeprom.memory[addr2 as usize], data2);
}

#[test]
fn write_two_bytes_same_addr() {
    // Arrange
    let mut atmega = ATMega328P::new("", DEFAULT_FREQ);
    let data1 = 0x55;
    let data2 = 0x66;
    let addr = 15;

    // Act
    // Write data1
    atmega.write_data(EEPROM_CONFIG().EEDR as u16, data1);
    atmega.write_data(EEPROM_CONFIG().EEARL as u16, addr);
    atmega.write_data(EEPROM_CONFIG().EEARH as u16, 0);
    atmega.write_data(EEPROM_CONFIG().EECR as u16, EEMPE);
    atmega.write_data(EEPROM_CONFIG().EECR as u16, EEPE);
    atmega.tick(None);
    assert_eq!(atmega.cpu.cycles, 2);
    assert_eq!(atmega.eeprom.memory[addr as usize], data1);

    // wait long enough time for the first write to finish
    atmega.cpu.cycles += 10000000;
    atmega.tick(None);

    // Write data2
    atmega.write_data(EEPROM_CONFIG().EEDR as u16, data2);
    atmega.write_data(EEPROM_CONFIG().EEARL as u16, addr);
    atmega.write_data(EEPROM_CONFIG().EEARH as u16, 0);
    atmega.write_data(EEPROM_CONFIG().EECR as u16, EEMPE);
    atmega.write_data(EEPROM_CONFIG().EECR as u16, EEPE);
    atmega.tick(None);

    // Assert
    assert_eq!(atmega.cpu.cycles, 10000000 + 2 + 2);
    assert_eq!(atmega.eeprom.memory[addr as usize], data2);
}

/// After the programming time EEPE clears and the ready interrupt pends.
#[test]
fn write_completes_and_ready_interrupt_pends() {
    let mut atmega = ATMega328P::new("", DEFAULT_FREQ);
    let eecr = EEPROM_CONFIG().EECR;
    atmega.write_data(EEPROM_CONFIG().EEDR as u16, 0x55);
    atmega.write_data(EEPROM_CONFIG().EEARL as u16, 15);
    atmega.write_data(EEPROM_CONFIG().EEARH as u16, 0);
    atmega.write_data(eecr as u16, EEMPE);
    atmega.write_data(eecr as u16, EEPE | EERIE);
    assert_eq!(atmega.cpu.cycles, 2);
    assert_eq!(atmega.eeprom.memory[15], 0x55);
    assert_eq!(atmega.cpu.data[eecr as usize] & EEPE, EEPE);
    assert_eq!(atmega.cpu.next_interrupt, -1);

    // the master write enable window closes after four cycles
    atmega.cpu.cycles = 4;
    atmega.tick(None);
    assert_eq!(atmega.cpu.data[eecr as usize] & EEMPE, 0);
    assert_eq!(atmega.cpu.data[eecr as usize] & EEPE, EEPE);

    // erase and write take 28800 cycles each, counted from the write
    atmega.cpu.cycles = 57599;
    atmega.tick(None);
    assert_eq!(atmega.cpu.data[eecr as usize] & EEPE, EEPE);
    atmega.cpu.cycles = 57600;
    atmega.tick(None);
    assert_eq!(atmega.cpu.data[eecr as usize] & EEPE, 0);
    assert_eq!(atmega.cpu.next_interrupt, 0x2c);
    assert!(atmega.cpu.pending_interrupts[0x2c].is_some());
}

/// EEPE without a preceding EEMPE has no effect.
#[test]
fn write_without_master_enable_is_ignored() {
    let mut atmega = ATMega328P::new("", DEFAULT_FREQ);
    atmega.write_data(EEPROM_CONFIG().EEDR as u16, 0x55);
    atmega.write_data(EEPROM_CONFIG().EEARL as u16, 15);
    atmega.write_data(EEPROM_CONFIG().EECR as u16, EEPE);
    assert_eq!(atmega.cpu.cycles, 0);
    assert_eq!(atmega.eeprom.memory[15], 0xff);
    assert_eq!(atmega.cpu.data[EEPROM_CONFIG().EECR as usize] & EEPE, 0);
}

/// EEPE written after the four cycle window has closed has no effect.
#[test]
fn write_after_window_is_ignored() {
    let mut atmega = ATMega328P::new("", DEFAULT_FREQ);
    atmega.write_data(EEPROM_CONFIG().EEDR as u16, 0x55);
    atmega.write_data(EEPROM_CONFIG().EEARL as u16, 15);
    atmega.write_data(EEPROM_CONFIG().EECR as u16, EEMPE);
    atmega.cpu.cycles = 4;
    atmega.write_data(EEPROM_CONFIG().EECR as u16, EEPE);
    assert_eq!(atmega.cpu.cycles, 4);
    assert_eq!(atmega.eeprom.memory[15], 0xff);
}

/// A write during a write in progress is ignored.
#[test]
fn write_in_progress_blocks_second_write() {
    let mut atmega = ATMega328P::new("", DEFAULT_FREQ);
    atmega.write_data(EEPROM_CONFIG().EEDR as u16, 0x55);
    atmega.write_data(EEPROM_CONFIG().EEARL as u16, 15);
    atmega.write_data(EEPROM_CONFIG().EECR as u16, EEMPE);
    atmega.write_data(EEPROM_CONFIG().EECR as u16, EEPE);
    assert_eq!(atmega.cpu.cycles, 2);

    atmega.write_data(EEPROM_CONFIG().EEDR as u16, 0x00);
    atmega.write_data(EEPROM_CONFIG().EEARL as u16, 16);
    atmega.write_data(EEPROM_CONFIG().EECR as u16, EEMPE);
    atmega.write_data(EEPROM_CONFIG().EECR as u16, EEPE);
    assert_eq!(atmega.cpu.cycles, 2);
    assert_eq!(atmega.eeprom.memory[16], 0xff);
}

/// A write without erase can only clear bits.
#[test]
fn write_only_mode_ands_into_the_byte() {
    let mut atmega = ATMega328P::new("", DEFAULT_FREQ);
    atmega.eeprom.memory[15] = 0x0f;
    atmega.write_data(EEPROM_CONFIG().EEDR as u16, 0x55);
    atmega.write_data(EEPROM_CONFIG().EEARL as u16, 15);
    atmega.write_data(EEPROM_CONFIG().EECR as u16, EEMPE);
    atmega.write_data(EEPROM_CONFIG().EECR as u16, EEPE | EEPM1);
    assert_eq!(atmega.eeprom.memory[15], 0x05);
    // only the write time is counted
    atmega.cpu.cycles = 28800;
    atmega.tick(None);
    atmega.tick(None);
    assert_eq!(atmega.cpu.data[EEPROM_CONFIG().EECR as usize] & EEPE, 0);
}

/// An erase without write sets every bit of the byte.
#[test]
fn erase_only_mode_sets_the_byte() {
    let mut atmega = ATMega328P::new("", DEFAULT_FREQ);
    atmega.eeprom.memory[15] = 0x0f;
    atmega.write_data(EEPROM_CONFIG().EEDR as u16, 0x55);
    atmega.write_data(EEPROM_CONFIG().EEARL as u16, 15);
    atmega.write_data(EEPROM_CONFIG().EECR as u16, EEMPE);
    atmega.write_data(EEPROM_CONFIG().EECR as u16, EEPE | EEPM0);
    assert_eq!(atmega.eeprom.memory[15], 0xff);
}
