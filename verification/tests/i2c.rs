use avr8rs::atmega328p::{ATMega328P, DEFAULT_FREQ};
use avr8rs::peripheral::i2c::bus::{I2CBus, I2CBusStatus};
use avr8rs::peripheral::i2c::{
    STATUS_DATA_RECEIVED_ACK, STATUS_DATA_RECEIVED_NACK, STATUS_DATA_SENT_ACK,
    STATUS_DATA_SENT_NACK, STATUS_IDLE, STATUS_REPEATED_START, STATUS_SLAR_ACK, STATUS_SLAW_ACK,
    STATUS_SLAW_NACK, STATUS_START, TWCR_TWEA, TWCR_TWEN, TWCR_TWIE, TWCR_TWINT, TWCR_TWSTA,
    TWCR_TWSTO, TWI_CONFIG,
};

/// Correctly computes SCL (serial clock) frequency from TWBR register value
#[test]
#[allow(non_snake_case)]
fn i2c_SCL_freq_from_TWBR() {
    // Arrange
    let mut atmega = ATMega328P::new("", 16_000_000);

    // Act
    atmega.write_data(TWI_CONFIG().TWBR as u16, 72);
    atmega.write_data(TWI_CONFIG().TWSR as u16, 0); // set prescaler to 1

    // Assert
    assert_eq!(atmega.i2c_scl_frequency(), 100_000); // 16000000 / (16 + 2 * 72)
}

/// Correctly computes SCL (serial clock) frequency from TWBR register value
#[test]
#[allow(non_snake_case)]
fn mod_SCL_freq_from_TWBR() {
    // Arrange
    let mut atmega = ATMega328P::new("", 16_000_000);

    // Act
    atmega.write_data(TWI_CONFIG().TWBR as u16, 72);
    atmega.write_data(TWI_CONFIG().TWSR as u16, 0); // set prescaler to 1

    // Assert
    assert_eq!(atmega.i2c_scl_frequency(), 100_000); // 16000000 / (16 + 2 * 72)
}

/// Correctly use prescaler in computing SCL frequency
#[test]
#[allow(non_snake_case)]
fn SCL_freq_with_prescaler() {
    // Arrange
    let mut atmega = ATMega328P::new("", 16_000_000);

    // Act
    atmega.write_data(TWI_CONFIG().TWBR as u16, 3);
    atmega.write_data(TWI_CONFIG().TWSR as u16, 0x01); // set prescaler to 4

    // Assert
    assert_eq!(atmega.i2c_scl_frequency(), 400_000);
}

#[test]
fn initial_status_idle() {
    // Arrange
    let mut atmega = ATMega328P::new("", DEFAULT_FREQ);
    atmega.write_data(TWI_CONFIG().TWBR as u16, 72);

    // Assert
    assert_eq!(atmega.i2c_status(), STATUS_IDLE);
}

#[test]
fn i2c_start() {
    // Arrange
    let mut atmega = ATMega328P::new("", DEFAULT_FREQ);
    let mut i2c_bus = I2CBus::new();
    assert_eq!(i2c_bus.status, I2CBusStatus::IDLE);

    // Act
    atmega.write_data(TWI_CONFIG().TWCR as u16, TWCR_TWINT | TWCR_TWSTA | TWCR_TWEN);
    atmega.cpu.cycles += 1;
    atmega.tick(Some(&mut i2c_bus));

    // Assert
    assert_eq!(i2c_bus.status, I2CBusStatus::START);
    assert_eq!(atmega.i2c.status(&atmega.cpu.data), STATUS_START);
}

/// Trigger interrupt on send START complete
#[test]
#[allow(non_snake_case)]
fn trigger_TWI_interrupt() {
    // Arrange
    let mut atmega = ATMega328P::new("", DEFAULT_FREQ);

    // Act
    atmega.write_data(TWI_CONFIG().TWCR as u16, TWCR_TWIE);
    atmega.cpu.set_sreg(1 << 7); // global enable interrupt
    atmega.i2c.complete_start(&mut atmega.cpu);
    atmega.tick(None);

    // Assert
    assert_eq!(atmega.cpu.pc, TWI_CONFIG().twi_interrupt as u32);
    assert_eq!(atmega.cpu.cycles, 2);
    assert_eq!(atmega.cpu.data[TWI_CONFIG().TWCR as usize] & TWCR_TWINT, 0); // interrupt flag cleared after handling
}

#[test]
fn i2c_stop() {
    // Arrange
    let mut atmega = ATMega328P::new("", DEFAULT_FREQ);
    let mut i2c_bus = I2CBus::new();
    assert_eq!(i2c_bus.status, I2CBusStatus::IDLE);

    // Act
    atmega.write_data(TWI_CONFIG().TWCR as u16, TWCR_TWINT | TWCR_TWSTO | TWCR_TWEN);
    atmega.cpu.cycles += 1;
    atmega.tick(Some(&mut i2c_bus));

    // Assert
    assert_eq!(i2c_bus.status, I2CBusStatus::STOP);
}

#[test]
fn i2c_connect() {
    // Arrange
    let mut atmega = ATMega328P::new("", DEFAULT_FREQ);
    let mut i2c_bus = I2CBus::new();

    // Act & Assert
    atmega.write_data(TWI_CONFIG().TWCR as u16, TWCR_TWINT | TWCR_TWSTA | TWCR_TWEN);
    atmega.cpu.cycles += 1;
    atmega.tick(Some(&mut i2c_bus));

    let address = 0x36;
    atmega.write_data(TWI_CONFIG().TWDR as u16, address << 1 | 0x0); // write
    atmega.write_data(TWI_CONFIG().TWCR as u16, TWCR_TWINT | TWCR_TWEN);
    atmega.cpu.cycles += 1;
    atmega.tick(Some(&mut i2c_bus));

    assert_eq!(i2c_bus.address, address);
    assert_eq!(i2c_bus.read, false);

    i2c_bus.acked = true;
    atmega.cpu.cycles += 1;
    atmega.tick(Some(&mut i2c_bus));

    assert_eq!(atmega.i2c.status(&atmega.cpu.data), STATUS_SLAW_ACK);
}

#[test]
fn i2c_write() {
    // Arrange
    let mut atmega = ATMega328P::new("", DEFAULT_FREQ);
    let mut i2c_bus = I2CBus::new();

    atmega.write_data(TWI_CONFIG().TWCR as u16, TWCR_TWINT | TWCR_TWSTA | TWCR_TWEN); // start
    atmega.cpu.cycles += 1;
    atmega.tick(Some(&mut i2c_bus));

    let address = 0x36;
    atmega.write_data(TWI_CONFIG().TWDR as u16, address << 1 | 0x0); // write address
    atmega.write_data(TWI_CONFIG().TWCR as u16, TWCR_TWINT | TWCR_TWEN);
    atmega.cpu.cycles += 1;
    atmega.tick(Some(&mut i2c_bus));

    i2c_bus.acked = true; // ack address
    atmega.cpu.cycles += 1;
    atmega.tick(Some(&mut i2c_bus));

    // Act & Assert
    let data = 0x55;
    atmega.write_data(TWI_CONFIG().TWDR as u16, data); // write data
    atmega.write_data(TWI_CONFIG().TWCR as u16, TWCR_TWINT | TWCR_TWEN);
    atmega.cpu.cycles += 1;
    atmega.tick(Some(&mut i2c_bus));

    assert_eq!(i2c_bus.data, data);

    i2c_bus.acked = true; // ack data
    atmega.cpu.cycles += 1;
    atmega.tick(Some(&mut i2c_bus));

    assert_eq!(atmega.i2c.status(&atmega.cpu.data), STATUS_DATA_SENT_ACK);
}

#[test]
fn repeated_start() {
    // Arrange
    let mut atmega = ATMega328P::new("", DEFAULT_FREQ);
    let mut i2c_bus = I2CBus::new();
    assert_eq!(i2c_bus.status, I2CBusStatus::IDLE);

    // Act
    atmega.write_data(TWI_CONFIG().TWCR as u16, TWCR_TWINT | TWCR_TWSTA | TWCR_TWEN);
    atmega.cpu.cycles += 1;
    atmega.tick(Some(&mut i2c_bus));

    atmega.write_data(TWI_CONFIG().TWCR as u16, TWCR_TWINT | TWCR_TWSTA | TWCR_TWEN);
    atmega.cpu.cycles += 1;
    atmega.tick(Some(&mut i2c_bus));

    // Assert
    assert_eq!(i2c_bus.status, I2CBusStatus::START);
    assert_eq!(atmega.i2c.status(&atmega.cpu.data), STATUS_REPEATED_START);
}

/// A write transfer, status by status.
#[test]
fn write_transfer_reports_each_status() {
    let mut atmega = ATMega328P::new("", DEFAULT_FREQ);
    let mut bus = I2CBus::new();

    atmega.write_data(TWI_CONFIG().TWCR as u16, TWCR_TWINT | TWCR_TWSTA | TWCR_TWEN);
    atmega.cpu.cycles += 1;
    atmega.tick(Some(&mut bus));
    assert_eq!(atmega.i2c_status(), 0x08);
    // completion raises TWINT
    assert_eq!(atmega.cpu.data[TWI_CONFIG().TWCR as usize] & TWCR_TWINT, TWCR_TWINT);

    atmega.write_data(TWI_CONFIG().TWDR as u16, 0x36 << 1);
    atmega.write_data(TWI_CONFIG().TWCR as u16, TWCR_TWINT | TWCR_TWEN);
    atmega.cpu.cycles += 1;
    atmega.tick(Some(&mut bus));
    assert_eq!(bus.status, I2CBusStatus::ADDRESS);
    assert!(atmega.i2c.busy);
    assert!(atmega.i2c.wait_ack);
    bus.acked = true;
    atmega.cpu.cycles += 1;
    atmega.tick(Some(&mut bus));
    assert_eq!(atmega.i2c_status(), 0x18);
    assert!(!bus.acked);
    assert!(!atmega.i2c.busy);

    atmega.write_data(TWI_CONFIG().TWDR as u16, 0x0c);
    atmega.write_data(TWI_CONFIG().TWCR as u16, TWCR_TWINT | TWCR_TWEN);
    atmega.cpu.cycles += 1;
    atmega.tick(Some(&mut bus));
    assert_eq!(bus.status, I2CBusStatus::DATA_AVAILABLE);
    assert_eq!(bus.data, 0x0c);
    bus.acked = true;
    atmega.cpu.cycles += 1;
    atmega.tick(Some(&mut bus));
    assert_eq!(atmega.i2c_status(), 0x28);

    atmega.write_data(TWI_CONFIG().TWCR as u16, TWCR_TWINT | TWCR_TWSTO | TWCR_TWEN);
    atmega.cpu.cycles += 1;
    atmega.tick(Some(&mut bus));
    assert_eq!(bus.status, I2CBusStatus::STOP);
    assert_eq!(atmega.i2c_status(), STATUS_IDLE);
    assert_eq!(atmega.cpu.data[TWI_CONFIG().TWCR as usize] & TWCR_TWSTO, 0);
}

/// A slave that does not answer gives the NACK status codes.
#[test]
fn silent_slave_gives_nack() {
    let mut atmega = ATMega328P::new("", DEFAULT_FREQ);
    let mut bus = I2CBus::new();
    atmega.write_data(TWI_CONFIG().TWCR as u16, TWCR_TWINT | TWCR_TWSTA | TWCR_TWEN);
    atmega.cpu.cycles += 1;
    atmega.tick(Some(&mut bus));
    atmega.write_data(TWI_CONFIG().TWDR as u16, 0x36 << 1);
    atmega.write_data(TWI_CONFIG().TWCR as u16, TWCR_TWINT | TWCR_TWEN);
    atmega.cpu.cycles += 1;
    atmega.tick(Some(&mut bus));
    atmega.cpu.cycles += 1;
    atmega.tick(Some(&mut bus));
    assert_eq!(atmega.i2c_status(), STATUS_SLAW_NACK);
}

/// Without a bus the address phase ends at once in NACK.
#[test]
fn no_bus_gives_nack() {
    let mut atmega = ATMega328P::new("", DEFAULT_FREQ);
    atmega.write_data(TWI_CONFIG().TWCR as u16, TWCR_TWINT | TWCR_TWSTA | TWCR_TWEN);
    atmega.cpu.cycles += 1;
    atmega.tick(None);
    assert_eq!(atmega.i2c_status(), STATUS_START);
    atmega.write_data(TWI_CONFIG().TWDR as u16, 0x36 << 1);
    atmega.write_data(TWI_CONFIG().TWCR as u16, TWCR_TWINT | TWCR_TWEN);
    atmega.cpu.cycles += 1;
    atmega.tick(None);
    assert_eq!(atmega.i2c_status(), STATUS_SLAW_NACK);
    atmega.write_data(TWI_CONFIG().TWCR as u16, TWCR_TWINT | TWCR_TWEN);
    atmega.cpu.cycles += 1;
    atmega.tick(None);
    // nothing happens in a NACK status
    assert_eq!(atmega.i2c_status(), STATUS_SLAW_NACK);
}

/// A read transfer latches the slave's byte into TWDR and acknowledges as
/// TWEA asks.
#[test]
fn read_transfer_latches_data() {
    let mut atmega = ATMega328P::new("", DEFAULT_FREQ);
    let mut bus = I2CBus::new();
    atmega.write_data(TWI_CONFIG().TWCR as u16, TWCR_TWINT | TWCR_TWSTA | TWCR_TWEN);
    atmega.cpu.cycles += 1;
    atmega.tick(Some(&mut bus));
    atmega.write_data(TWI_CONFIG().TWDR as u16, 0x36 << 1 | 1);
    atmega.write_data(TWI_CONFIG().TWCR as u16, TWCR_TWINT | TWCR_TWEN);
    atmega.cpu.cycles += 1;
    atmega.tick(Some(&mut bus));
    assert_eq!(bus.address, 0x36);
    assert!(bus.read);
    bus.acked = true;
    bus.data = 0xab;
    bus.status = I2CBusStatus::DATA_AVAILABLE;
    atmega.cpu.cycles += 1;
    atmega.tick(Some(&mut bus));
    assert_eq!(atmega.i2c_status(), STATUS_SLAR_ACK);

    atmega.write_data(TWI_CONFIG().TWCR as u16, TWCR_TWINT | TWCR_TWEN | TWCR_TWEA);
    atmega.cpu.cycles += 1;
    atmega.tick(Some(&mut bus));
    assert_eq!(atmega.cpu.data[TWI_CONFIG().TWDR as usize], 0xab);
    assert_eq!(atmega.i2c_status(), STATUS_DATA_RECEIVED_ACK);
    assert_eq!(bus.status, I2CBusStatus::DATA_REQUEST);
    assert!(bus.acked);

    bus.data = 0xcd;
    atmega.write_data(TWI_CONFIG().TWCR as u16, TWCR_TWINT | TWCR_TWEN);
    atmega.cpu.cycles += 1;
    atmega.tick(Some(&mut bus));
    assert_eq!(atmega.cpu.data[TWI_CONFIG().TWDR as usize], 0xcd);
    assert_eq!(atmega.i2c_status(), STATUS_DATA_RECEIVED_NACK);
    assert!(!bus.acked);
}

#[test]
fn nack_on_data_byte() {
    let mut atmega = ATMega328P::new("", DEFAULT_FREQ);
    let mut bus = I2CBus::new();
    atmega.write_data(TWI_CONFIG().TWCR as u16, TWCR_TWINT | TWCR_TWSTA | TWCR_TWEN);
    atmega.cpu.cycles += 1;
    atmega.tick(Some(&mut bus));
    atmega.write_data(TWI_CONFIG().TWDR as u16, 0x36 << 1);
    atmega.write_data(TWI_CONFIG().TWCR as u16, TWCR_TWINT | TWCR_TWEN);
    atmega.cpu.cycles += 1;
    atmega.tick(Some(&mut bus));
    bus.acked = true;
    atmega.cpu.cycles += 1;
    atmega.tick(Some(&mut bus));
    atmega.write_data(TWI_CONFIG().TWDR as u16, 0x55);
    atmega.write_data(TWI_CONFIG().TWCR as u16, TWCR_TWINT | TWCR_TWEN);
    atmega.cpu.cycles += 1;
    atmega.tick(Some(&mut bus));
    atmega.cpu.cycles += 1;
    atmega.tick(Some(&mut bus));
    assert_eq!(atmega.i2c_status(), STATUS_DATA_SENT_NACK);
    assert_ne!(atmega.i2c_status(), STATUS_SLAR_ACK);
}

/// Every prescaler setting: 1, 4, 16, 64.
#[test]
fn scl_frequency_for_every_prescaler() {
    let mut atmega = ATMega328P::new("", 16_000_000);
    atmega.write_data(TWI_CONFIG().TWBR as u16, 10);
    atmega.write_data(TWI_CONFIG().TWSR as u16, 0);
    assert_eq!(atmega.i2c_scl_frequency(), 16_000_000 / 36);
    atmega.write_data(TWI_CONFIG().TWSR as u16, 1);
    assert_eq!(atmega.i2c_scl_frequency(), 16_000_000 / 96);
    atmega.write_data(TWI_CONFIG().TWSR as u16, 2);
    assert_eq!(atmega.i2c_scl_frequency(), 16_000_000 / 336);
    atmega.write_data(TWI_CONFIG().TWSR as u16, 3);
    assert_eq!(atmega.i2c_scl_frequency(), 16_000_000 / 1296);
    assert_eq!(atmega.i2c.prescaler(&atmega.cpu.data), 64);
}
