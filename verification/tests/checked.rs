use avr8rs::atmega328p::{ATMega328P, DEFAULT_FREQ};
use avr8rs::instruction::try_avr_instruction;
use avr8rs::interrupt::AVRInterruptConfig;
use avr8rs::peripheral::eeprom::{EEMPE, EEPE, EEPROM_CONFIG};
use avr8rs::peripheral::i2c::bus::I2CBus;
use avr8rs::peripheral::i2c::{TWCR_TWEN, TWCR_TWINT, TWCR_TWSTA, TWI_CONFIG};
use avr8rs::program::hex_loadable;
use avr8rs::runner::AVRRunner;
use avr8rs::usart::{UCSRB_UCSZ2, USART0_CONFIG};

fn program(words: &[u16]) -> String {
    let mut data = String::new();
    for w in words {
        data.push_str(&format!("{:02X}{:02X}", w & 0xff, w >> 8));
    }
    format!(":{:02X}000000{}00\n", words.len() * 2, data)
}

#[test]
fn unknown_opcode_stops_the_simulation() {
    let mut atmega = ATMega328P::new("", DEFAULT_FREQ);
    assert!(!atmega.try_step(None));
    assert_eq!(atmega.cpu.pc, 0);
    assert_eq!(atmega.cpu.cycles, 0);
    let mut runner = AVRRunner::new(&program(&[0xe005, 0x0000]));
    assert!(runner.try_step(None));
    assert_eq!(runner.atmega328p.cpu.data[16], 5);
    assert!(!runner.try_step(None));
    assert_eq!(runner.atmega328p.cpu.pc, 1);
    assert_eq!(runner.atmega328p.cpu.cycles, 1);
}

#[test]
fn checked_step_does_what_step_does() {
    let text = program(&[0xe005, 0xe013, 0x0f01, 0x930f, 0x911f, 0xcffa]);
    let mut plain = ATMega328P::new(&text, DEFAULT_FREQ);
    let mut checked = ATMega328P::new(&text, DEFAULT_FREQ);
    for _ in 0..51 {
        plain.step(None);
        assert!(checked.try_step(None));
        assert_eq!(plain.cpu.pc, checked.cpu.pc);
        assert_eq!(plain.cpu.cycles, checked.cpu.cycles);
        assert_eq!(plain.cpu.data, checked.cpu.data);
    }
    assert_eq!(checked.cpu.data[16], 8);
    assert_eq!(checked.cpu.data[17], 3);
    assert_eq!(checked.cpu.pc, 3);
}

#[test]
fn data_access_out_of_range() {
    // ld r0, X with X behind the data space
    let mut atmega = ATMega328P::new(&program(&[0x900c]), DEFAULT_FREQ);
    atmega.cpu.set_data_u16(26, 0x900);
    assert!(!try_avr_instruction(&mut atmega));
    atmega.cpu.set_data_u16(26, 0x8ff);
    assert!(try_avr_instruction(&mut atmega));
    // ldd r0, Y+63 crossing the end
    let mut atmega = ATMega328P::new(&program(&[0x8008 | 7 | 0x0c00 | 0x2000]), DEFAULT_FREQ);
    atmega.cpu.set_data_u16(28, 0x8c1);
    assert!(!try_avr_instruction(&mut atmega));
    atmega.cpu.set_data_u16(28, 0x8c0);
    assert!(try_avr_instruction(&mut atmega));
    // st -X with X at zero wraps to the top of the address space
    let mut atmega = ATMega328P::new(&program(&[0x920e]), DEFAULT_FREQ);
    assert!(!try_avr_instruction(&mut atmega));
    // sts behind the data space
    let mut atmega = ATMega328P::new(&program(&[0x9200, 0x0900]), DEFAULT_FREQ);
    assert!(!try_avr_instruction(&mut atmega));
    assert!(!atmega.write_ready(0x900, 0));
    assert!(atmega.write_ready(0x8ff, 0));
}

#[test]
fn stack_out_of_range() {
    for opcode in [0x920fu16, 0xd000, 0x9509] {
        let mut atmega = ATMega328P::new(&program(&[opcode]), DEFAULT_FREQ);
        atmega.cpu.set_sp(0x900);
        assert!(!atmega.cpu.push_ready());
        assert!(!try_avr_instruction(&mut atmega));
        assert_eq!(atmega.cpu.cycles, 0);
    }
    for opcode in [0x900fu16, 0x9508, 0x9518] {
        let mut atmega = ATMega328P::new(&program(&[opcode]), DEFAULT_FREQ);
        assert!(!try_avr_instruction(&mut atmega));
        atmega.cpu.set_sp(0x8fd);
        assert!(try_avr_instruction(&mut atmega));
    }
    // the stack pointer wraps below zero without notice
    let mut atmega = ATMega328P::new(&program(&[0x920f]), DEFAULT_FREQ);
    atmega.cpu.set_sp(0);
    assert!(try_avr_instruction(&mut atmega));
    assert_eq!(atmega.cpu.get_data_u16(93), 0xffff);
}

#[test]
fn program_access_out_of_range() {
    // the second word of a two-word instruction in the last word of flash
    let mut atmega = ATMega328P::new(":027FFE000C94E5\n", DEFAULT_FREQ);
    atmega.cpu.pc = 0x3fff;
    assert!(!try_avr_instruction(&mut atmega));
    // a program counter behind the program
    atmega.cpu.pc = 0x4000;
    assert!(!try_avr_instruction(&mut atmega));
    // a skip that has nothing to look at
    let mut atmega = ATMega328P::new(":027FFE0000FC85\n", DEFAULT_FREQ);
    atmega.cpu.pc = 0x3fff;
    assert!(!try_avr_instruction(&mut atmega));
    atmega.cpu.data[0] = 1;
    assert!(try_avr_instruction(&mut atmega));
    assert_eq!(atmega.cpu.pc, 0);
    // lpm behind the program
    let mut atmega = ATMega328P::new(&program(&[0x95c8]), DEFAULT_FREQ);
    atmega.cpu.set_data_u16(30, 0x8000);
    assert!(!try_avr_instruction(&mut atmega));
    atmega.cpu.set_data_u16(30, 0x7fff);
    assert!(try_avr_instruction(&mut atmega));
}

#[test]
fn reserved_frame_size_cannot_send() {
    let mut atmega = ATMega328P::new(&program(&[0x9300, USART0_CONFIG().UDR as u16]), DEFAULT_FREQ);
    atmega.cpu.data[USART0_CONFIG().UCSRB as usize] = UCSRB_UCSZ2;
    assert!(!atmega.usart_udr_ready());
    assert!(!atmega.write_ready(USART0_CONFIG().UDR as u16, 0x41));
    assert!(!try_avr_instruction(&mut atmega));
    assert!(atmega.transmitted.is_empty());
    atmega.cpu.data[USART0_CONFIG().UCSRB as usize] = 0;
    assert!(atmega.usart_udr_ready());
    assert!(try_avr_instruction(&mut atmega));
    assert_eq!(atmega.transmitted, vec![0]);
}

#[test]
fn eeprom_address_out_of_range() {
    let mut atmega = ATMega328P::new("", DEFAULT_FREQ);
    atmega.write_data(EEPROM_CONFIG().EEARH as u16, 4);
    atmega.write_data(EEPROM_CONFIG().EECR as u16, EEMPE);
    assert!(!atmega.write_ready(EEPROM_CONFIG().EECR as u16, EEPE));
    // a write that is not accepted reads no memory
    assert!(atmega.write_ready(EEPROM_CONFIG().EECR as u16, 0));
    atmega.write_data(EEPROM_CONFIG().EEARH as u16, 3);
    atmega.write_data(EEPROM_CONFIG().EEARL as u16, 0xff);
    assert!(atmega.write_ready(EEPROM_CONFIG().EECR as u16, EEPE));
    atmega.write_data(EEPROM_CONFIG().EECR as u16, EEPE);
    assert_eq!(atmega.eeprom.memory[1023], 0);
}

#[test]
fn interrupt_entry_needs_the_stack() {
    let mut atmega = ATMega328P::new("", DEFAULT_FREQ);
    atmega.cpu.queue_interrupt(AVRInterruptConfig {
        address: 2,
        enable_register: 0x60,
        enable_mask: 1,
        flag_register: 0x61,
        flag_mask: 1,
        inverse_flag: false,
    });
    atmega.cpu.set_sp(0x900);
    // masked: nothing to push
    assert!(atmega.try_tick(None));
    atmega.cpu.set_sreg(0x80);
    assert!(!atmega.try_tick(None));
    assert_eq!(atmega.cpu.pc, 0);
    atmega.cpu.set_sp(0x8ff);
    assert!(atmega.try_tick(None));
    assert_eq!(atmega.cpu.pc, 2);
}

#[test]
fn bus_direction_must_match_the_transfer() {
    let mut atmega = ATMega328P::new("", DEFAULT_FREQ);
    let mut bus = I2CBus::new();
    atmega.write_data(TWI_CONFIG().TWCR as u16, TWCR_TWINT | TWCR_TWSTA | TWCR_TWEN);
    atmega.cpu.cycles += 1;
    assert!(atmega.try_tick(Some(&mut bus)));
    atmega.write_data(TWI_CONFIG().TWDR as u16, 0x36 << 1);
    atmega.write_data(TWI_CONFIG().TWCR as u16, TWCR_TWINT | TWCR_TWEN);
    atmega.cpu.cycles += 1;
    assert!(atmega.try_tick(Some(&mut bus)));
    bus.acked = true;
    atmega.cpu.cycles += 1;
    assert!(atmega.try_tick(Some(&mut bus)));
    // the master writes, the bus claims a read
    atmega.write_data(TWI_CONFIG().TWCR as u16, TWCR_TWINT | TWCR_TWEN);
    atmega.cpu.cycles += 1;
    bus.read = true;
    assert!(!atmega.try_tick(Some(&mut bus)));
    assert_eq!(atmega.cpu.clock_events.len(), 1);
    assert!(!atmega.try_fire_due_event(Some(&mut bus)));
    bus.read = false;
    assert!(atmega.try_tick(Some(&mut bus)));
    assert!(atmega.cpu.clock_events.len() == 1);
}

#[test]
fn hex_texts_that_can_and_cannot_be_read() {
    assert!(hex_loadable(""));
    assert!(hex_loadable("\n\n"));
    assert!(hex_loadable(":100000000C9434000C943E000C943E000C943E0082\n:00000001FF\n"));
    assert!(hex_loadable("no record at all"));
    assert!(hex_loadable(":017FFF007F02"));
    // lower case digits and a missing checksum
    assert!(hex_loadable(":02000000abcd"));
    // a record too short to hold its type
    assert!(!hex_loadable(":00"));
    assert!(!hex_loadable(":0000000"));
    // a digit that is none
    assert!(!hex_loadable(":010000001GEE"));
    assert!(!hex_loadable(":0100G00011EE"));
    // a type that is neither data nor end of file is passed over
    assert!(hex_loadable(":0100000G11EE"));
    assert!(!hex_loadable(":01000000+1EE"));
    assert!(!hex_loadable(":0g00000011EE"));
    // fewer data bytes than counted
    assert!(!hex_loadable(":0200000011"));
    assert!(!hex_loadable(":020000001122\n:03000000112"));
    // bytes behind the end of the flash
    assert!(!hex_loadable(":027FFF001122"));
    assert!(!hex_loadable(":0180000011"));
    // records behind the end of file record are not looked at
    assert!(hex_loadable(":00000001FF\n:00"));
    // records of other types only need to hold their type
    assert!(hex_loadable(":zzzzzz05"));
}

/// Near the end of the cycle counter's range the simulation stops rather
/// than wrap.
#[test]
fn cycle_counter_has_no_room() {
    let mut atmega = ATMega328P::new(&program(&[0xe005, 0xcfff]), DEFAULT_FREQ);
    atmega.cpu.cycles = u32::MAX - 4;
    assert!(!atmega.try_step(None));
    assert_eq!(atmega.cpu.pc, 0);
    atmega.cpu.cycles = u32::MAX - 5;
    assert!(atmega.try_step(None));
    assert_eq!(atmega.cpu.cycles, u32::MAX - 4);
    assert!(!atmega.try_step(None));
    // plain memory can be read and written to the end
    atmega.cpu.cycles = u32::MAX;
    assert!(atmega.write_ready(0x200, 1));
    assert!(atmega.read_ready(0x200));
    atmega.write_data(0x200, 1);
    assert_eq!(atmega.read_data(0x200), 1);
    // peripherals need room for what they schedule
    assert!(!atmega.write_ready(USART0_CONFIG().UDR as u16, 1));
    assert!(!atmega.read_ready(0x46));
    assert!(!atmega.read_ready(0x900));
    atmega.cpu.set_sreg(0x80);
    assert!(atmega.try_tick(None));
}
