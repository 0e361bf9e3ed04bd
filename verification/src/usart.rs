use vstd::prelude::*;
use std::collections::HashMap;
use crate::atmega328p::{ATMega328P, DeviceState, PeripheralMemoryWriteHook};
use crate::clock::{AVRClockEventCallback, AVRClockEventType};
use crate::cpu::MAX_EVENT_DELAY;
use crate::interrupt::AVRInterruptConfig;

verus! {

/// USART Transmit Complete.
pub const UCSRA_TXC: u8 = 0x40;

/// USART Data Register Empty.
pub const UCSRA_UDRE: u8 = 0x20;

/// Double the USART Transmission Speed.
pub const UCSRA_U2X: u8 = 0x2;

/// TX Complete Interrupt Enable.
pub const UCSRB_TXCIE: u8 = 0x40;

/// USART Data Register Empty Interrupt Enable.
pub const UCSRB_UDRIE: u8 = 0x20;

/// Transmitter Enable.
pub const UCSRB_TXEN: u8 = 0x8;

/// Character Size 2.
pub const UCSRB_UCSZ2: u8 = 0x4;

/// Parity Mode 1.
pub const UCSRC_UPM1: u8 = 0x20;

/// Stop Bit Select.
pub const UCSRC_USBS: u8 = 0x8;

/// Character Size 1.
pub const UCSRC_UCSZ1: u8 = 0x4;

/// Character Size 0.
pub const UCSRC_UCSZ0: u8 = 0x2;

/// Vectors and register addresses of one USART.
#[derive(Clone, Copy, Debug, PartialEq, Eq, Structural)]
pub struct USARTConfig {
    pub data_register_empty_interrupt: u8,
    pub tx_complete_interrupt: u8,
    pub UCSRA: u8,
    pub UCSRB: u8,
    pub UCSRC: u8,
    pub UBRRL: u8,
    pub UBRRH: u8,
    pub UDR: u8,
}

#[verifier::allow_in_spec]
pub fn USART0_CONFIG() -> USARTConfig
    returns
        (USARTConfig {
            data_register_empty_interrupt: 0x26,
            tx_complete_interrupt: 0x28,
            UCSRA: 0xc0,
            UCSRB: 0xc1,
            UCSRC: 0xc2,
            UBRRL: 0xc4,
            UBRRH: 0xc5,
            UDR: 0xc6,
        }),
{
    USARTConfig {
        data_register_empty_interrupt: 0x26,
        tx_complete_interrupt: 0x28,
        UCSRA: 0xc0,
        UCSRB: 0xc1,
        UCSRC: 0xc2,
        UBRRL: 0xc4,
        UBRRH: 0xc5,
        UDR: 0xc6,
    }
}

/// The transmitter of a USART.
#[derive(Clone, Copy, Debug, PartialEq, Eq, Structural)]
pub struct AVRUSART {
    pub config: USARTConfig,
    /// Clock frequency in Hz.
    pub freq_hz: usize,
    pub udre: AVRInterruptConfig,
    pub txc: AVRInterruptConfig,
}

/// The character size field UCSZ2:0, gathered from UCSRC and UCSRB.
pub open spec fn ucsz(ucsrb: u8, ucsrc: u8) -> u8 {
    ((ucsrc & (UCSRC_UCSZ1 | UCSRC_UCSZ0)) >> 1) | (ucsrb & UCSRB_UCSZ2)
}

/// The field UCSZ has a character size assigned: 5 to 8 bits for 0 to 3, 9
/// bits for 7; the values 4 to 6 are reserved.
pub open spec fn ucsz_assigned(field: u8) -> bool {
    field <= 3 || field == 7
}

/// Data bits per character for an assigned UCSZ value.
pub open spec fn data_bits(field: u8) -> int {
    if field == 7 {
        9
    } else {
        5 + field
    }
}

impl AVRUSART {
    pub open spec fn initial(config: USARTConfig, freq_hz: usize) -> AVRUSART {
        AVRUSART {
            config,
            freq_hz,
            udre: AVRInterruptConfig {
                address: config.data_register_empty_interrupt,
                flag_register: config.UCSRA as u16,
                flag_mask: UCSRA_UDRE,
                enable_register: config.UCSRB as u16,
                enable_mask: UCSRB_UDRIE,
                inverse_flag: false,
            },
            txc: AVRInterruptConfig {
                address: config.tx_complete_interrupt,
                flag_register: config.UCSRA as u16,
                flag_mask: UCSRA_TXC,
                enable_register: config.UCSRB as u16,
                enable_mask: UCSRB_TXCIE,
                inverse_flag: false,
            },
        }
    }

    pub fn new(config: USARTConfig, freq_hz: usize) -> (usart: Self)
        ensures
            usart == Self::initial(config, freq_hz),
    {
        let udre = AVRInterruptConfig {
            address: config.data_register_empty_interrupt,
            flag_register: config.UCSRA as u16,
            flag_mask: UCSRA_UDRE,
            enable_register: config.UCSRB as u16,
            enable_mask: UCSRB_UDRIE,
            inverse_flag: false,
        };
        let txc = AVRInterruptConfig {
            address: config.tx_complete_interrupt,
            flag_register: config.UCSRA as u16,
            flag_mask: UCSRA_TXC,
            enable_register: config.UCSRB as u16,
            enable_mask: UCSRB_TXCIE,
            inverse_flag: false,
        };
        Self { config, freq_hz, udre, txc }
    }

    /// Stop bits per frame: 2 if USBS is set, else 1.
    pub open spec fn stop_bits_of(self, data: Seq<u8>) -> int {
        if data[self.config.UCSRC as int] & UCSRC_USBS != 0 {
            2
        } else {
            1
        }
    }

    /// The character size field as the registers hold it.
    pub open spec fn ucsz_of(self, data: Seq<u8>) -> u8 {
        ucsz(data[self.config.UCSRB as int], data[self.config.UCSRC as int])
    }

    /// The baud rate register, UBRRH:UBRRL.
    pub open spec fn ubrr_of(self, data: Seq<u8>) -> int {
        256 * data[self.config.UBRRH as int] + data[self.config.UBRRL as int]
    }

    /// Clock cycles per bit cell divider: 8 in double speed mode, else 16.
    pub open spec fn multiplier_of(self, data: Seq<u8>) -> int {
        if data[self.config.UCSRA as int] & UCSRA_U2X != 0 {
            8
        } else {
            16
        }
    }

    pub open spec fn parity_of(self, data: Seq<u8>) -> bool {
        data[self.config.UCSRC as int] & UCSRC_UPM1 != 0
    }

    /// Clock cycles one character takes on the wire: start bit, data bits,
    /// parity bit if enabled, stop bits, each `(UBRR + 1) * multiplier` long.
    pub open spec fn cycles_per_char_of(self, data: Seq<u8>) -> int {
        (self.ubrr_of(data) + 1) * self.multiplier_of(data) * (1 + data_bits(self.ucsz_of(data))
            + (if self.parity_of(data) {
            1int
        } else {
            0int
        }) + self.stop_bits_of(data))
    }

    /// Binds writes of UCSRB to the USART.
    pub fn add_ucsrb_handler(&self, write_hooks: &mut HashMap<u16, PeripheralMemoryWriteHook>)
        ensures
            final(write_hooks)@ == old(write_hooks)@.insert(
                self.config.UCSRB as u16,
                PeripheralMemoryWriteHook::UsartControlB,
            ),
    {
        write_hooks.insert(self.config.UCSRB as u16, PeripheralMemoryWriteHook::UsartControlB);
    }

    /// Binds writes of UDR to the USART.
    pub fn add_udr_handler(&self, write_hooks: &mut HashMap<u16, PeripheralMemoryWriteHook>)
        ensures
            final(write_hooks)@ == old(write_hooks)@.insert(
                self.config.UDR as u16,
                PeripheralMemoryWriteHook::UsartData,
            ),
    {
        write_hooks.insert(self.config.UDR as u16, PeripheralMemoryWriteHook::UsartData);
    }

    pub fn stop_bits(&self, data: &Vec<u8>) -> (n: usize)
        requires
            data@.len() >= 0x100,
        ensures
            n == self.stop_bits_of(data@),
    {
        if data[self.config.UCSRC as usize] & UCSRC_USBS != 0 {
            2
        } else {
            1
        }
    }

    /// Data bits per character. The character size field must hold an
    /// assigned value.
    pub fn bits_per_char(&self, data: &Vec<u8>) -> (n: usize)
        requires
            data@.len() >= 0x100,
            ucsz_assigned(self.ucsz_of(data@)),
        ensures
            n == data_bits(self.ucsz_of(data@)),
    {
        let field: u8 = ((data[self.config.UCSRC as usize] & (UCSRC_UCSZ1 | UCSRC_UCSZ0)) >> 1) | (
        data[self.config.UCSRB as usize] & UCSRB_UCSZ2);
        if field == 7 {
            9
        } else {
            5 + field as usize
        }
    }

    pub fn UBRR(&self, data: &Vec<u8>) -> (n: usize)
        requires
            data@.len() >= 0x100,
        ensures
            n == self.ubrr_of(data@),
    {
        256 * (data[self.config.UBRRH as usize] as usize) + data[self.config.UBRRL as usize] as usize
    }

    pub fn multiplier(&self, data: &Vec<u8>) -> (n: usize)
        requires
            data@.len() >= 0x100,
        ensures
            n == self.multiplier_of(data@),
    {
        if data[self.config.UCSRA as usize] & UCSRA_U2X != 0 {
            8
        } else {
            16
        }
    }

    pub fn parity_enabled(&self, data: &Vec<u8>) -> (on: bool)
        requires
            data@.len() >= 0x100,
        ensures
            on == self.parity_of(data@),
    {
        data[self.config.UCSRC as usize] & UCSRC_UPM1 != 0
    }

    /// Bits per second: the clock divided by `multiplier * (UBRR + 1)`.
    pub fn baud_rate(&self, data: &Vec<u8>) -> (rate: usize)
        requires
            data@.len() >= 0x100,
        ensures
            rate == self.freq_hz as int / (self.multiplier_of(data@) * (1 + self.ubrr_of(data@))),
    {
        self.freq_hz / (self.multiplier(data) * (1 + self.UBRR(data)))
    }

    pub fn cycles_per_char(&self, data: &Vec<u8>) -> (n: usize)
        requires
            data@.len() >= 0x100,
            ucsz_assigned(self.ucsz_of(data@)),
        ensures
            n == self.cycles_per_char_of(data@),
            0 < n <= 0x100_0000,
    {
        let symbols_per_char: usize = 1 + self.bits_per_char(data) + (if self.parity_enabled(data) {
            1
        } else {
            0
        }) + self.stop_bits(data);
        let cell: usize = (self.UBRR(data) + 1) * self.multiplier(data);
        assert(cell * symbols_per_char <= 0x10_0000 * 13 && cell * symbols_per_char > 0)
            by (nonlinear_arith)
            requires
                0 < cell <= 0x10_0000,
                0 < symbols_per_char <= 13,
        ;
        cell * symbols_per_char
    }
}

impl DeviceState {
    /// A write of `value` to UCSRB, which held `old_value`: both transmit
    /// interrupts follow their enable bits, switching the transmitter on
    /// marks the data register empty, and the byte is stored.
    pub open spec fn usart_ucsrb_write(self, value: u8, old_value: u8) -> DeviceState {
        let enabled = self.cpu.update_interrupt_enable(self.usart.udre, value).update_interrupt_enable(
            self.usart.txc,
            value,
        );
        let ready = if value & UCSRB_TXEN != 0 && old_value & UCSRB_TXEN == 0 {
            enabled.set_interrupt_flag(self.usart.udre)
        } else {
            enabled
        };
        self.with_cpu(ready.with_data(self.usart.config.UCSRB as int, value))
    }

    /// A character can be sent: the frame format has an assigned size.
    pub open spec fn usart_udr_defined(self) -> bool {
        ucsz_assigned(self.usart.ucsz_of(self.cpu.data))
    }

    /// A write of `value` to UDR: the byte goes out, both flags are cleared,
    /// and they are due to be raised again once the character has taken its
    /// time on the wire. The router stores the byte.
    pub open spec fn usart_udr_write(self, value: u8) -> DeviceState {
        DeviceState {
            transmitted: self.transmitted.push(value),
            cpu: self.cpu.add_clock_event(
                AVRClockEventCallback::UsartTransmitComplete,
                self.usart.cycles_per_char_of(self.cpu.data) as u32,
                AVRClockEventType::USART,
            ).clear_interrupt(self.usart.txc, true).clear_interrupt(self.usart.udre, true),
            ..self
        }
    }

    /// The character has been sent: data register empty and transmit
    /// complete are raised.
    pub open spec fn usart_transmit_complete(self) -> DeviceState {
        self.with_cpu(
            self.cpu.set_interrupt_flag(self.usart.udre).set_interrupt_flag(self.usart.txc),
        )
    }
}

/// USART settings and register handlers.
impl ATMega328P {
    pub fn usart_stop_bits(&self) -> (n: usize)
        requires
            self@.cpu.data.len() >= 0x100,
        ensures
            n == self.usart.stop_bits_of(self@.cpu.data),
    {
        self.usart.stop_bits(&self.cpu.data)
    }

    pub fn usart_bits_per_char(&self) -> (n: usize)
        requires
            self@.cpu.data.len() >= 0x100,
            self@.usart_udr_defined(),
        ensures
            n == data_bits(self.usart.ucsz_of(self@.cpu.data)),
    {
        self.usart.bits_per_char(&self.cpu.data)
    }

    pub fn usart_parity_enabled(&self) -> (on: bool)
        requires
            self@.cpu.data.len() >= 0x100,
        ensures
            on == self.usart.parity_of(self@.cpu.data),
    {
        self.usart.parity_enabled(&self.cpu.data)
    }

    pub fn usart_baud_rate(&self) -> (rate: usize)
        requires
            self@.cpu.data.len() >= 0x100,
        ensures
            rate == self.usart.freq_hz as int / (self.usart.multiplier_of(self@.cpu.data) * (1
                + self.usart.ubrr_of(self@.cpu.data))),
    {
        self.usart.baud_rate(&self.cpu.data)
    }

    pub fn usart_cycles_per_char(&self) -> (n: u32)
        requires
            self@.cpu.data.len() >= 0x100,
            self@.usart_udr_defined(),
        ensures
            n == self.usart.cycles_per_char_of(self@.cpu.data),
            0 < n <= MAX_EVENT_DELAY,
    {
        self.usart.cycles_per_char(&self.cpu.data) as u32
    }

    /// Whether a character can be sent.
    pub fn usart_udr_ready(&self) -> (ok: bool)
        requires
            self@.cpu.data.len() >= 0x100,
        ensures
            ok == self@.usart_udr_defined(),
    {
        let field: u8 = ((self.cpu.data[self.usart.config.UCSRC as usize] & (UCSRC_UCSZ1
            | UCSRC_UCSZ0)) >> 1) | (self.cpu.data[self.usart.config.UCSRB as usize] & UCSRB_UCSZ2);
        field <= 3 || field == 7
    }

    /// Carries out a write to UCSRB.
    pub fn usart_ucsrb_write(&mut self, value: u8, old_value: u8) -> (handled: bool)
        requires
            old(self)@.wf(),
        ensures
            handled,
            final(self)@ == old(self)@.usart_ucsrb_write(value, old_value),
            final(self)@.wf(),
            final(self)@.cpu.cycles == old(self)@.cpu.cycles,
    {
        self.cpu.update_interrupt_enable(self.usart.udre, value);
        self.cpu.update_interrupt_enable(self.usart.txc, value);
        if value & UCSRB_TXEN != 0 && old_value & UCSRB_TXEN == 0 {
            self.cpu.set_interrupt_flag(self.usart.udre);
        }
        self.cpu.set_data(self.usart.config.UCSRB as u16, value);
        true
    }

    /// Carries out a write to UDR; the router still stores the byte.
    pub fn usart_udr_write(&mut self, value: u8) -> (handled: bool)
        requires
            old(self)@.wf(),
            old(self)@.headroom(MAX_EVENT_DELAY as int),
            old(self)@.usart_udr_defined(),
        ensures
            !handled,
            final(self)@ == old(self)@.usart_udr_write(value),
            final(self)@.wf(),
            final(self)@.cpu.cycles == old(self)@.cpu.cycles,
    {
        self.transmitted.push(value);
        let delay = self.usart_cycles_per_char();
        self.cpu.add_clock_event(
            AVRClockEventCallback::UsartTransmitComplete,
            delay,
            AVRClockEventType::USART,
        );
        let txc = self.usart.txc;
        self.cpu.clear_interrupt(&txc, true);
        let udre = self.usart.udre;
        self.cpu.clear_interrupt(&udre, true);
        false
    }

    /// The character has been sent.
    pub fn usart_transmit_complete(&mut self)
        requires
            old(self)@.wf(),
        ensures
            final(self)@ == old(self)@.usart_transmit_complete(),
            final(self)@.wf(),
            final(self)@.cpu.cycles == old(self)@.cpu.cycles,
    {
        self.cpu.set_interrupt_flag(self.usart.udre);
        self.cpu.set_interrupt_flag(self.usart.txc);
    }
}

} // verus!
