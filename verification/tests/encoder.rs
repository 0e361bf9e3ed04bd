use avr8rs::atmega328p::{ATMega328P, DEFAULT_FREQ};
use avr8rs::encoder::{AS5600, ADDR_RAW_ANGLE, ADDR_STATUS};
use avr8rs::peripheral::i2c::bus::{I2CBus, I2CBusStatus};
use avr8rs::peripheral::i2c::{
    STATUS_DATA_RECEIVED_ACK, STATUS_DATA_RECEIVED_NACK, STATUS_DATA_SENT_ACK, STATUS_SLAR_ACK,
    STATUS_SLAW_ACK, TWCR_TWEA, TWCR_TWEN, TWCR_TWINT, TWCR_TWSTA, TWCR_TWSTO, TWI_CONFIG,
};

#[test]
fn new_encoder() {
    let encoder = AS5600::new();
    assert_eq!(encoder.device_address, 0x36);
    assert_eq!(encoder.register_address, 0xff);
    assert_eq!(encoder.raw_angle, 0);
}

#[test]
fn acknowledges_its_own_address_only() {
    let mut encoder = AS5600::new();
    let mut bus = I2CBus::new();
    bus.status = I2CBusStatus::ADDRESS;
    bus.address = 0x35;
    bus.read = false;
    encoder.step(&mut bus);
    assert!(!bus.acked);
    bus.address = 0x36;
    encoder.step(&mut bus);
    assert!(bus.acked);
    assert_eq!(bus.status, I2CBusStatus::ADDRESS);
    assert_eq!(encoder.register_address, 0xff);
}

#[test]
fn written_byte_selects_the_register() {
    let mut encoder = AS5600::new();
    let mut bus = I2CBus::new();
    bus.read = false;
    bus.status = I2CBusStatus::DATA_AVAILABLE;
    bus.data = ADDR_RAW_ANGLE;
    encoder.step(&mut bus);
    assert_eq!(encoder.register_address, 0x0c);
    // data that the slave put on the bus is not a register address
    bus.read = true;
    bus.data = 0x55;
    encoder.step(&mut bus);
    assert_eq!(encoder.register_address, 0x0c);
}

#[test]
fn reads_walk_through_the_registers() {
    let mut encoder = AS5600::new();
    encoder.raw_angle = 0x1abc;
    encoder.register_address = ADDR_STATUS;
    assert_eq!(encoder.read_value(), 0x20);
    assert_eq!(encoder.read_value(), 0x0a);
    assert_eq!(encoder.read_value(), 0xbc);
    assert_eq!(encoder.register_address, 0x0e);
    encoder.register_address = 0x1b;
    assert_eq!(encoder.read_value(), 0x0f);
    assert_eq!(encoder.read_value(), 0x00);

    let mut bus = I2CBus::new();
    encoder.register_address = ADDR_RAW_ANGLE;
    bus.status = I2CBusStatus::ADDRESS;
    bus.address = 0x36;
    bus.read = true;
    encoder.step(&mut bus);
    assert!(bus.acked);
    assert_eq!(bus.data, 0x0a);
    assert_eq!(bus.status, I2CBusStatus::DATA_AVAILABLE);
    bus.status = I2CBusStatus::DATA_REQUEST;
    encoder.step(&mut bus);
    assert_eq!(bus.data, 0xbc);
    assert_eq!(bus.status, I2CBusStatus::DATA_AVAILABLE);
    // a request that was not acknowledged ends the read
    bus.status = I2CBusStatus::DATA_REQUEST;
    bus.acked = false;
    encoder.step(&mut bus);
    assert_eq!(bus.status, I2CBusStatus::DATA_REQUEST);
    assert_eq!(encoder.register_address, 0x0e);
    // nothing to do while the bus is idle
    bus.status = I2CBusStatus::IDLE;
    encoder.step(&mut bus);
    bus.status = I2CBusStatus::START;
    encoder.step(&mut bus);
    bus.status = I2CBusStatus::STOP;
    encoder.step(&mut bus);
    assert_eq!(bus.data, 0xbc);
}

/// The master reads the raw angle from the encoder over the bus.
#[test]
fn master_reads_the_angle() {
    let mut atmega = ATMega328P::new("", DEFAULT_FREQ);
    let mut bus = I2CBus::new();
    let mut encoder = AS5600::new();
    encoder.raw_angle = 0x0123;
    let twcr = TWI_CONFIG().TWCR as u16;
    let twdr = TWI_CONFIG().TWDR as u16;
    let mut cycle = |atmega: &mut ATMega328P, bus: &mut I2CBus, encoder: &mut AS5600| {
        atmega.cpu.cycles += 1;
        atmega.tick(Some(bus));
        encoder.step(bus);
    };

    // select the register
    atmega.write_data(twcr, TWCR_TWINT | TWCR_TWSTA | TWCR_TWEN);
    cycle(&mut atmega, &mut bus, &mut encoder);
    atmega.write_data(twdr, 0x36 << 1);
    atmega.write_data(twcr, TWCR_TWINT | TWCR_TWEN);
    cycle(&mut atmega, &mut bus, &mut encoder);
    cycle(&mut atmega, &mut bus, &mut encoder);
    assert_eq!(atmega.i2c_status(), STATUS_SLAW_ACK);
    atmega.write_data(twdr, ADDR_RAW_ANGLE);
    atmega.write_data(twcr, TWCR_TWINT | TWCR_TWEN);
    cycle(&mut atmega, &mut bus, &mut encoder);
    assert_eq!(encoder.register_address, ADDR_RAW_ANGLE);
    // the encoder does not acknowledge data bytes itself
    bus.acked = true;
    cycle(&mut atmega, &mut bus, &mut encoder);
    assert_eq!(atmega.i2c_status(), STATUS_DATA_SENT_ACK);

    // repeated start, then read two bytes
    atmega.write_data(twcr, TWCR_TWINT | TWCR_TWSTA | TWCR_TWEN);
    cycle(&mut atmega, &mut bus, &mut encoder);
    atmega.write_data(twdr, 0x36 << 1 | 1);
    atmega.write_data(twcr, TWCR_TWINT | TWCR_TWEN);
    cycle(&mut atmega, &mut bus, &mut encoder);
    cycle(&mut atmega, &mut bus, &mut encoder);
    assert_eq!(atmega.i2c_status(), STATUS_SLAR_ACK);
    atmega.write_data(twcr, TWCR_TWINT | TWCR_TWEN | TWCR_TWEA);
    cycle(&mut atmega, &mut bus, &mut encoder);
    assert_eq!(atmega.i2c_status(), STATUS_DATA_RECEIVED_ACK);
    assert_eq!(atmega.cpu.data[twdr as usize], 0x01);
    atmega.write_data(twcr, TWCR_TWINT | TWCR_TWEN);
    cycle(&mut atmega, &mut bus, &mut encoder);
    assert_eq!(atmega.i2c_status(), STATUS_DATA_RECEIVED_NACK);
    assert_eq!(atmega.cpu.data[twdr as usize], 0x23);
    atmega.write_data(twcr, TWCR_TWINT | TWCR_TWSTO | TWCR_TWEN);
    cycle(&mut atmega, &mut bus, &mut encoder);
    assert_eq!(bus.status, I2CBusStatus::STOP);
}
