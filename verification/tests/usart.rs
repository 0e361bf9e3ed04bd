use avr8rs::atmega328p::{ATMega328P, DEFAULT_FREQ};
use avr8rs::usart::{
    UCSRA_TXC, UCSRA_U2X, UCSRA_UDRE, UCSRB_TXCIE, UCSRB_TXEN, UCSRB_UCSZ2, UCSRB_UDRIE,
    UCSRC_UCSZ0, UCSRC_UCSZ1, UCSRC_UPM1, UCSRC_USBS, USART0_CONFIG,
};

/// TX Complete Interrupt Enable bit
#[test]
#[allow(non_snake_case)]
fn TXCIE_trigger() {
    // Arrange
    let mut atmega = ATMega328P::new("", DEFAULT_FREQ);
    let cycles: u32 = 1_000_000;

    // Act
    atmega.write_data(USART0_CONFIG().UCSRB as u16, UCSRB_TXCIE | UCSRB_TXEN);
    atmega.write_data(USART0_CONFIG().UDR as u16, 0x61);
    atmega.cpu.set_sreg(1 << 7);
    atmega.cpu.cycles = cycles;
    atmega.tick(None);

    // Assert
    assert_eq!(atmega.cpu.pc, USART0_CONFIG().tx_complete_interrupt as u32);
    assert_eq!(atmega.cpu.cycles, cycles + 2);
    assert_eq!(atmega.cpu.data[USART0_CONFIG().UCSRA as usize] & UCSRA_TXC, 0); // bit cleared after handling interrupt
}

/// Not trigger TX Complete interrrupt if UDR is not written to
#[test]
#[allow(non_snake_case)]
fn TXCIE_no_trigger_if_no_data() {
    // Arrange
    let mut atmega = ATMega328P::new("", DEFAULT_FREQ);

    // Act
    atmega.write_data(USART0_CONFIG().UCSRB as u16, UCSRB_TXCIE | UCSRB_TXEN);
    atmega.cpu.set_sreg(1 << 7);
    atmega.tick(None);

    // Assert
    assert_eq!(atmega.cpu.pc, 0);
    assert_eq!(atmega.cpu.cycles, 0);
}

/// Not trigger any interrupts if interrupts disabled
#[test]
fn interrupts_disabled() {
    // Arrange
    let mut atmega = ATMega328P::new("", DEFAULT_FREQ);
    let cycles = 1_000_000;

    // Act
    atmega.write_data(USART0_CONFIG().UCSRB as u16, UCSRB_UDRIE | UCSRB_TXEN);
    atmega.write_data(USART0_CONFIG().UDR as u16, 0x61);
    atmega.cpu.set_sreg(0); // disable interrupts
    atmega.cpu.cycles = cycles;
    atmega.tick(None);

    // Assert
    assert_eq!(atmega.cpu.pc, 0);
    assert_eq!(atmega.cpu.cycles, cycles);
    assert_eq!(
        atmega.cpu.data[USART0_CONFIG().UCSRA as usize],
        UCSRA_TXC | UCSRA_UDRE
    );
}

/// Calculate the correct baud rate from UBRR (USART Baud Rate Register)
#[test]
#[allow(non_snake_case)]
fn UBRR() {
    // Arrange
    let mut atmega = ATMega328P::new("", 11059200);
    atmega.write_data(USART0_CONFIG().UBRRH as u16, 0);
    atmega.write_data(USART0_CONFIG().UBRRL as u16, 5);

    // Act/Assert
    assert_eq!(atmega.usart_baud_rate(), 115200); // 11059200 / (16 * (1 + 5))
}

/// Calculate the correct baud rate in double-speed mode
#[test]
#[allow(non_snake_case)]
fn UBRR_double_speed() {
    // Arrange
    let mut atmega = ATMega328P::new("", 16_000_000);
    atmega.write_data(USART0_CONFIG().UBRRH as u16, 3);
    atmega.write_data(USART0_CONFIG().UBRRL as u16, 64);
    atmega.write_data(USART0_CONFIG().UCSRA as u16, UCSRA_U2X);

    // Act/Assert
    assert_eq!(atmega.usart_baud_rate(), 2400); // 16000000 / (8 * (1 + 768 + 64]))
}

#[test]
fn bits_per_char() {
    // Arrange
    let mut atmega = ATMega328P::new("", DEFAULT_FREQ);

    // Act/Assert
    atmega.write_data(USART0_CONFIG().UCSRC as u16, 0);
    assert_eq!(atmega.usart_bits_per_char(), 5);
    atmega.write_data(USART0_CONFIG().UCSRC as u16, UCSRC_UCSZ0);
    assert_eq!(atmega.usart_bits_per_char(), 6);
    atmega.write_data(USART0_CONFIG().UCSRC as u16, UCSRC_UCSZ1);
    assert_eq!(atmega.usart_bits_per_char(), 7);
    atmega.write_data(USART0_CONFIG().UCSRC as u16, UCSRC_UCSZ0 | UCSRC_UCSZ1);
    assert_eq!(atmega.usart_bits_per_char(), 8);
    atmega.write_data(USART0_CONFIG().UCSRC as u16, UCSRC_UCSZ0 | UCSRC_UCSZ1);
    atmega.write_data(USART0_CONFIG().UCSRB as u16, UCSRB_UCSZ2);
    assert_eq!(atmega.usart_bits_per_char(), 9);
}

#[test]
fn stop_bits() {
    // Arrange
    let mut atmega = ATMega328P::new("", DEFAULT_FREQ);

    // Act/Assert
    atmega.write_data(USART0_CONFIG().UCSRC as u16, 0);
    assert_eq!(atmega.usart_stop_bits(), 1);
    atmega.write_data(USART0_CONFIG().UCSRC as u16, UCSRC_USBS);
    assert_eq!(atmega.usart_stop_bits(), 2);
}

/// cycles_per_char = (UBRR + 1) * multiplier * (1 + data + parity + stop)
#[test]
fn cycles_per_char_formula() {
    let mut atmega = ATMega328P::new("", DEFAULT_FREQ);
    // 8N1 at UBRR 103: 104 * 16 * 10
    atmega.write_data(USART0_CONFIG().UBRRL as u16, 103);
    atmega.write_data(USART0_CONFIG().UCSRC as u16, UCSRC_UCSZ0 | UCSRC_UCSZ1);
    assert_eq!(atmega.usart_cycles_per_char(), 16640);
    assert!(!atmega.usart_parity_enabled());
    // 8E2 in double speed: 104 * 8 * (1 + 8 + 1 + 2)
    atmega.write_data(
        USART0_CONFIG().UCSRC as u16,
        UCSRC_UCSZ0 | UCSRC_UCSZ1 | UCSRC_UPM1 | UCSRC_USBS,
    );
    atmega.write_data(USART0_CONFIG().UCSRA as u16, UCSRA_U2X);
    assert!(atmega.usart_parity_enabled());
    assert_eq!(atmega.usart_cycles_per_char(), 9984);
    assert_eq!(atmega.usart.multiplier(&atmega.cpu.data), 8);
    assert_eq!(atmega.usart.UBRR(&atmega.cpu.data), 103);
    // 9 data bits
    atmega.write_data(USART0_CONFIG().UCSRB as u16, UCSRB_UCSZ2);
    assert_eq!(atmega.usart_cycles_per_char(), 104 * 8 * 13);
}

/// The transmit complete event fires exactly after cycles_per_char cycles.
#[test]
fn transmit_takes_cycles_per_char() {
    let mut atmega = ATMega328P::new("", DEFAULT_FREQ);
    atmega.write_data(USART0_CONFIG().UCSRB as u16, UCSRB_TXEN);
    assert_eq!(atmega.cpu.data[USART0_CONFIG().UCSRA as usize], UCSRA_UDRE);
    let per_char = atmega.usart_cycles_per_char();
    assert_eq!(per_char, 16 * 7);
    atmega.write_data(USART0_CONFIG().UDR as u16, 0x61);
    atmega.write_data(USART0_CONFIG().UDR as u16, 0x62);
    assert_eq!(atmega.transmitted, vec![0x61, 0x62]);
    assert_eq!(atmega.cpu.data[USART0_CONFIG().UDR as usize], 0x62);
    assert_eq!(atmega.cpu.data[USART0_CONFIG().UCSRA as usize], 0);
    atmega.cpu.cycles = per_char - 1;
    atmega.tick(None);
    assert_eq!(atmega.cpu.data[USART0_CONFIG().UCSRA as usize], 0);
    atmega.cpu.cycles = per_char;
    atmega.tick(None);
    assert_eq!(
        atmega.cpu.data[USART0_CONFIG().UCSRA as usize],
        UCSRA_TXC | UCSRA_UDRE
    );
}

/// With UDRIE set the data-register-empty vector is taken, lowest first.
#[test]
fn udre_vector_before_txc() {
    let mut atmega = ATMega328P::new("", DEFAULT_FREQ);
    atmega.write_data(USART0_CONFIG().UCSRB as u16, UCSRB_UDRIE | UCSRB_TXCIE | UCSRB_TXEN);
    atmega.write_data(USART0_CONFIG().UDR as u16, 0x61);
    atmega.cpu.set_sreg(0x80);
    atmega.cpu.cycles = 1000;
    atmega.tick(None);
    assert_eq!(atmega.cpu.pc, 0x26);
    assert_eq!(atmega.cpu.next_interrupt, 0x28);
    // clearing the enable bit clears the pending entry and keeps the flag
    atmega.write_data(USART0_CONFIG().UCSRB as u16, UCSRB_TXEN);
    assert_eq!(atmega.cpu.next_interrupt, -1);
    assert!(atmega.cpu.pending_interrupts[0x28].is_none());
    assert_eq!(atmega.cpu.data[USART0_CONFIG().UCSRA as usize] & UCSRA_TXC, UCSRA_TXC);
}

/// The transmit complete vector is entered at the tick at which the
/// character has been on the wire for cycles_per_char cycles.
#[test]
fn txc_vector_after_cycles_per_char() {
    let mut atmega = ATMega328P::new("", DEFAULT_FREQ);
    atmega.write_data(USART0_CONFIG().UCSRB as u16, UCSRB_TXCIE | UCSRB_TXEN);
    atmega.write_data(USART0_CONFIG().UDR as u16, 0x61);
    atmega.cpu.set_sreg(0x80);
    let per_char = atmega.usart_cycles_per_char();
    atmega.cpu.cycles = per_char - 1;
    atmega.tick(None);
    assert_eq!(atmega.cpu.pc, 0);
    atmega.cpu.cycles = per_char;
    atmega.tick(None);
    assert_eq!(atmega.cpu.pc, 0x28);
    assert_eq!(atmega.cpu.data[USART0_CONFIG().UCSRA as usize] & UCSRA_TXC, 0);
    assert_eq!(atmega.cpu.data[USART0_CONFIG().UCSRA as usize] & UCSRA_UDRE, UCSRA_UDRE);
    assert_eq!(atmega.cpu.cycles, per_char + 2);
}
