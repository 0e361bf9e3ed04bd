use avr8rs::atmega328p::{
    ATMega328P, PeripheralMemoryReadHook, PeripheralMemoryWriteHook, DEFAULT_FREQ,
};
use avr8rs::clock::{AVRClockEventCallback, AVRClockEventType};
use avr8rs::cpu::{CPU, DATA_SIZE};
use avr8rs::interrupt::{avr_interrupt, AVRInterruptConfig, MAX_INTERRUPTS};
use avr8rs::peripheral::i2c::TWI_CONFIG;
use avr8rs::peripheral::timer::TIMER_0_CONFIG;
use avr8rs::usart::USART0_CONFIG;

fn source(address: u8, inverse_flag: bool) -> AVRInterruptConfig {
    AVRInterruptConfig {
        address,
        enable_register: 0x60,
        enable_mask: 0x02,
        flag_register: 0x61,
        flag_mask: 0x04,
        inverse_flag,
    }
}

fn kinds(cpu: &CPU) -> Vec<(u32, AVRClockEventType)> {
    cpu.clock_events.iter().map(|e| (e.cycles, e.event_type)).collect()
}

#[test]
fn power_up_state() {
    let cpu = CPU::new(vec![0x0f, 0xef, 0x34, 0x12]);
    assert_eq!(cpu.data.len(), DATA_SIZE);
    assert_eq!(cpu.data.len(), 2048 + 256);
    assert_eq!(cpu.prog_mem, vec![0xef0f, 0x1234]);
    assert_eq!(cpu.pc, 0);
    assert_eq!(cpu.cycles, 0);
    assert_eq!(cpu.get_data_u16(93), 0x8ff);
    assert_eq!(cpu.next_interrupt, -1);
    assert!(!cpu.pc_22_bits);
    assert!(cpu.clock_events.is_empty());
    assert_eq!(cpu.pending_interrupts.len(), MAX_INTERRUPTS);
    assert!(cpu.data.iter().enumerate().all(|(i, b)| *b == 0 || i == 93 || i == 94));
    assert!(CPU::new(vec![0; 0x20002]).pc_22_bits);
    assert!(!CPU::new(vec![0; 0x20000]).pc_22_bits);
}

#[test]
fn reset_keeps_memory_and_clears_queues() {
    let mut cpu = CPU::new(vec![0; 4]);
    cpu.set_data(0x200, 5);
    cpu.pc = 7;
    cpu.set_sp(0x100);
    cpu.add_clock_event(AVRClockEventCallback::TimerCount, 3, AVRClockEventType::Count);
    cpu.queue_interrupt(source(5, false));
    cpu.reset();
    assert_eq!(cpu.pc, 0);
    assert_eq!(cpu.get_data_u16(93), 0x8ff);
    assert_eq!(cpu.data[0x200], 5);
    assert!(cpu.clock_events.is_empty());
    assert_eq!(cpu.next_interrupt, -1);
    assert!(cpu.pending_interrupts.iter().all(|p| p.is_none()));
}

#[test]
fn words_are_little_endian() {
    let mut cpu = CPU::new(vec![]);
    cpu.set_data_u16(0x100, 0xabcd);
    assert_eq!(cpu.get_data(0x100), 0xcd);
    assert_eq!(cpu.get_data(0x101), 0xab);
    assert_eq!(cpu.get_data_u16(0x100), 0xabcd);
    cpu.set_data(0x100, 0x01);
    assert_eq!(cpu.get_data_u16(0x100), 0xab01);
    cpu.set_sreg(0x81);
    assert_eq!(cpu.sreg(), 0x81);
    assert_eq!(cpu.data[95], 0x81);
    assert!(cpu.interrupts_enabled());
    cpu.set_sreg(0x7f);
    assert!(!cpu.interrupts_enabled());
}

/// The queue stays sorted by cycle; events due at the same cycle keep the
/// order in which they were scheduled.
#[test]
fn events_are_kept_in_order() {
    let mut cpu = CPU::new(vec![]);
    cpu.cycles = 100;
    cpu.add_clock_event(AVRClockEventCallback::TimerCount, 50, AVRClockEventType::Count);
    cpu.add_clock_event(AVRClockEventCallback::UsartTransmitComplete, 10, AVRClockEventType::USART);
    cpu.add_clock_event(AVRClockEventCallback::I2COperation, 50, AVRClockEventType::I2C);
    cpu.add_clock_event(AVRClockEventCallback::EepromWriteDone, 70, AVRClockEventType::EEPROMWriteComplete);
    cpu.add_clock_event(AVRClockEventCallback::EepromMasterWriteExpire, 10, AVRClockEventType::EEPROMFinish);
    // a delay of zero means the next cycle
    cpu.add_clock_event(AVRClockEventCallback::TimerCount, 0, AVRClockEventType::Count);
    assert_eq!(
        kinds(&cpu),
        vec![
            (101, AVRClockEventType::Count),
            (110, AVRClockEventType::USART),
            (110, AVRClockEventType::EEPROMFinish),
            (150, AVRClockEventType::Count),
            (150, AVRClockEventType::I2C),
            (170, AVRClockEventType::EEPROMWriteComplete),
        ]
    );
    assert_eq!(cpu.clock_events[4].callback, AVRClockEventCallback::I2COperation);
}

#[test]
fn cancel_removes_every_event_of_a_kind() {
    let mut cpu = CPU::new(vec![]);
    cpu.add_clock_event(AVRClockEventCallback::TimerCount, 5, AVRClockEventType::Count);
    cpu.add_clock_event(AVRClockEventCallback::I2COperation, 6, AVRClockEventType::I2C);
    cpu.add_clock_event(AVRClockEventCallback::TimerCount, 7, AVRClockEventType::Count);
    cpu.add_clock_event(AVRClockEventCallback::UsartTransmitComplete, 8, AVRClockEventType::USART);
    assert!(!cpu.clear_clock_event(AVRClockEventType::EEPROMFinish));
    assert_eq!(cpu.clock_events.len(), 4);
    assert!(cpu.clear_clock_event(AVRClockEventType::Count));
    assert_eq!(kinds(&cpu), vec![(6, AVRClockEventType::I2C), (8, AVRClockEventType::USART)]);
    assert!(!cpu.clear_clock_event(AVRClockEventType::Count));
    assert!(cpu.clear_clock_event(AVRClockEventType::USART));
    assert!(cpu.clear_clock_event(AVRClockEventType::I2C));
    assert!(cpu.clock_events.is_empty());
    assert!(!cpu.clear_clock_event(AVRClockEventType::I2C));
}

#[test]
fn update_reschedules_only_what_was_scheduled() {
    let mut cpu = CPU::new(vec![]);
    assert!(!cpu.update_clock_event(AVRClockEventCallback::TimerCount, AVRClockEventType::Count, 3));
    assert!(cpu.clock_events.is_empty());
    cpu.add_clock_event(AVRClockEventCallback::TimerCount, 9, AVRClockEventType::Count);
    cpu.add_clock_event(AVRClockEventCallback::I2COperation, 5, AVRClockEventType::I2C);
    cpu.add_clock_event(AVRClockEventCallback::TimerCount, 2, AVRClockEventType::Count);
    assert!(cpu.update_clock_event(AVRClockEventCallback::TimerCount, AVRClockEventType::Count, 7));
    assert_eq!(kinds(&cpu), vec![(5, AVRClockEventType::I2C), (7, AVRClockEventType::Count)]);
}

/// One event per tick, in order, and never before its cycle.
#[test]
fn tick_fires_one_due_event() {
    let mut atmega = ATMega328P::new("", DEFAULT_FREQ);
    atmega.cpu.add_clock_event(AVRClockEventCallback::UsartTransmitComplete, 5, AVRClockEventType::USART);
    atmega.cpu.add_clock_event(AVRClockEventCallback::EepromMasterWriteExpire, 5, AVRClockEventType::EEPROMFinish);
    atmega.cpu.add_clock_event(AVRClockEventCallback::UsartTransmitComplete, 9, AVRClockEventType::USART);
    atmega.cpu.cycles = 4;
    atmega.tick(None);
    assert_eq!(atmega.cpu.clock_events.len(), 3);
    assert_eq!(atmega.cpu.data[USART0_CONFIG().UCSRA as usize], 0);
    atmega.cpu.cycles = 8;
    atmega.tick(None);
    assert_eq!(kinds(&atmega.cpu), vec![(5, AVRClockEventType::EEPROMFinish), (9, AVRClockEventType::USART)]);
    assert_eq!(atmega.cpu.data[USART0_CONFIG().UCSRA as usize], 0x60);
    atmega.tick(None);
    assert_eq!(kinds(&atmega.cpu), vec![(9, AVRClockEventType::USART)]);
    atmega.tick(None);
    assert_eq!(atmega.cpu.clock_events.len(), 1);
    atmega.fire_due_event(None);
    assert_eq!(atmega.cpu.clock_events.len(), 1);
    atmega.cpu.cycles = 9;
    atmega.fire_due_event(None);
    assert!(atmega.cpu.clock_events.is_empty());
}

#[test]
fn lowest_vector_is_next() {
    let mut cpu = CPU::new(vec![]);
    cpu.queue_interrupt(source(40, false));
    assert_eq!(cpu.next_interrupt, 40);
    cpu.queue_interrupt(source(90, false));
    assert_eq!(cpu.next_interrupt, 40);
    cpu.queue_interrupt(source(7, false));
    assert_eq!(cpu.next_interrupt, 7);
    cpu.queue_interrupt(source(127, false));
    assert_eq!(cpu.pending_interrupts[40], Some(source(40, false)));
    cpu.clear_interrupt(&source(40, false), false);
    assert_eq!(cpu.next_interrupt, 7);
    assert!(cpu.pending_interrupts[40].is_none());
    cpu.clear_interrupt(&source(7, false), false);
    assert_eq!(cpu.next_interrupt, 90);
    cpu.clear_interrupt(&source(7, false), false);
    assert_eq!(cpu.next_interrupt, 90);
    cpu.clear_interrupt(&source(90, false), false);
    assert_eq!(cpu.next_interrupt, 127);
    cpu.clear_interrupt(&source(127, false), false);
    assert_eq!(cpu.next_interrupt, -1);
    cpu.queue_interrupt(source(0, false));
    assert_eq!(cpu.next_interrupt, 0);
    cpu.clear_interrupt(&source(0, false), false);
    assert_eq!(cpu.next_interrupt, -1);
}

#[test]
fn flags_and_enable_bits() {
    let mut cpu = CPU::new(vec![]);
    let s = source(9, false);
    // a flag without its enable bit does not queue
    cpu.set_interrupt_flag(s);
    assert_eq!(cpu.data[0x61], 0x04);
    assert_eq!(cpu.next_interrupt, -1);
    // writing the enable bit queues a raised flag
    cpu.data[0x60] = 0x02;
    cpu.update_interrupt_enable(s, 0x02);
    assert_eq!(cpu.next_interrupt, 9);
    // clearing the enable bit clears the pending entry and keeps the flag
    cpu.update_interrupt_enable(s, 0xfd);
    assert_eq!(cpu.next_interrupt, -1);
    assert_eq!(cpu.data[0x61], 0x04);
    // a raised flag with the enable bit set queues at once
    cpu.data[0x61] = 0xf0;
    cpu.set_interrupt_flag(s);
    assert_eq!(cpu.data[0x61], 0xf4);
    assert_eq!(cpu.next_interrupt, 9);
    // clearing with the flag leaves the other bits alone
    cpu.clear_interrupt(&s, true);
    assert_eq!(cpu.data[0x61], 0xf0);
    assert_eq!(cpu.next_interrupt, -1);
    // enabling with the flag clear queues nothing
    cpu.update_interrupt_enable(s, 0x02);
    assert_eq!(cpu.next_interrupt, -1);
    // writing a one to the flag clears it
    cpu.set_interrupt_flag(s);
    cpu.clear_interrupt_by_flag(&s, 0x00);
    assert_eq!(cpu.next_interrupt, 9);
    cpu.clear_interrupt_by_flag(&s, 0x04);
    assert_eq!(cpu.next_interrupt, -1);
    assert_eq!(cpu.data[0x61], 0xf0);
}

#[test]
fn inverse_flag_is_raised_by_clearing_the_bit() {
    let mut cpu = CPU::new(vec![]);
    let s = source(9, true);
    cpu.data[0x60] = 0x02;
    cpu.data[0x61] = 0xff;
    cpu.update_interrupt_enable(s, 0x02);
    assert_eq!(cpu.next_interrupt, -1);
    cpu.set_interrupt_flag(s);
    assert_eq!(cpu.data[0x61], 0xfb);
    assert_eq!(cpu.next_interrupt, 9);
    cpu.clear_interrupt(&s, false);
    cpu.update_interrupt_enable(s, 0x02);
    assert_eq!(cpu.next_interrupt, 9);
}

#[test]
fn interrupt_entry_pushes_the_program_counter() {
    let mut cpu = CPU::new(vec![0; 8]);
    cpu.pc = 0x1234;
    cpu.cycles = 10;
    cpu.set_sreg(0xff);
    avr_interrupt(&mut cpu, 0x20);
    assert_eq!(cpu.pc, 0x20);
    assert_eq!(cpu.cycles, 12);
    assert_eq!(cpu.sreg(), 0x7f);
    assert_eq!(cpu.data[0x8ff], 0x34);
    assert_eq!(cpu.data[0x8fe], 0x12);
    assert_eq!(cpu.get_data_u16(93), 0x8fd);

    let mut wide = CPU::new(vec![0; 0x20002]);
    wide.pc = 0x012345;
    avr_interrupt(&mut wide, 0x02);
    assert_eq!(wide.data[0x8ff], 0x45);
    assert_eq!(wide.data[0x8fe], 0x23);
    assert_eq!(wide.data[0x8fd], 0x01);
    assert_eq!(wide.get_data_u16(93), 0x8fc);
}

/// With SREG.I clear nothing is dispatched, whatever is pending.
#[test]
fn masked_interrupts_are_not_taken() {
    let mut atmega = ATMega328P::new("", DEFAULT_FREQ);
    atmega.cpu.queue_interrupt(source(3, false));
    atmega.cpu.queue_interrupt(source(4, false));
    for _ in 0..5 {
        atmega.tick(None);
        atmega.dispatch_interrupt();
    }
    assert_eq!(atmega.cpu.pc, 0);
    assert_eq!(atmega.cpu.cycles, 0);
    assert_eq!(atmega.cpu.next_interrupt, 3);
    atmega.cpu.set_sreg(0x80);
    atmega.tick(None);
    assert_eq!(atmega.cpu.pc, 3);
    assert_eq!(atmega.cpu.next_interrupt, 4);
    // entering the handler cleared I, so the other one waits
    atmega.tick(None);
    assert_eq!(atmega.cpu.pc, 3);
    assert_eq!(atmega.cpu.cycles, 2);
}

#[test]
fn hooks_of_the_device() {
    let atmega = ATMega328P::new("", DEFAULT_FREQ);
    assert_eq!(atmega.read_hooks.len(), 1);
    assert_eq!(atmega.read_hooks.get(&0x46), Some(&PeripheralMemoryReadHook::TimerCounter));
    assert_eq!(atmega.write_hooks.len(), 13);
    assert_eq!(atmega.write_hooks.get(&0x46), Some(&PeripheralMemoryWriteHook::TimerCounter));
    assert_eq!(atmega.write_hooks.get(&0x45), Some(&PeripheralMemoryWriteHook::TimerControlB));
    assert_eq!(atmega.write_hooks.get(&0x6e), Some(&PeripheralMemoryWriteHook::TimerInterruptMask));
    assert_eq!(atmega.write_hooks.get(&0xc1), Some(&PeripheralMemoryWriteHook::UsartControlB));
    assert_eq!(atmega.write_hooks.get(&0xc6), Some(&PeripheralMemoryWriteHook::UsartData));
    assert_eq!(atmega.write_hooks.get(&0x24), Some(&PeripheralMemoryWriteHook::PortDirection(0)));
    assert_eq!(atmega.write_hooks.get(&0x25), Some(&PeripheralMemoryWriteHook::PortData(0)));
    assert_eq!(atmega.write_hooks.get(&0x27), Some(&PeripheralMemoryWriteHook::PortDirection(1)));
    assert_eq!(atmega.write_hooks.get(&0x28), Some(&PeripheralMemoryWriteHook::PortData(1)));
    assert_eq!(atmega.write_hooks.get(&0x2a), Some(&PeripheralMemoryWriteHook::PortDirection(2)));
    assert_eq!(atmega.write_hooks.get(&0x2b), Some(&PeripheralMemoryWriteHook::PortData(2)));
    assert_eq!(atmega.write_hooks.get(&0xbc), Some(&PeripheralMemoryWriteHook::TwiControl));
    assert_eq!(atmega.write_hooks.get(&0x3f), Some(&PeripheralMemoryWriteHook::EepromControl));
    assert_eq!(atmega.eeprom.memory, vec![0xff; 1024]);
    assert_eq!(atmega.cpu.prog_bytes.len(), 0x8000);
    assert_eq!(atmega.cpu.prog_mem.len(), 0x4000);
    assert_eq!(atmega.i2c.freq_hz, DEFAULT_FREQ);
    assert_eq!(atmega.usart.freq_hz, 16_000_000);
    assert_eq!(atmega.timer0.top(), 0xff);
    assert_eq!(atmega.cpu.timer0_tccrb(), 0);
    assert_eq!(atmega.cpu.timer0_cs(), 0);
    assert_eq!(atmega.timer0.tccrb(&atmega.cpu), 0);
}

/// A write that no hook handles is stored verbatim; a write that a hook
/// handles leaves the backing byte to the hook.
#[test]
fn write_mask_semantics() {
    let mut atmega = ATMega328P::new("", DEFAULT_FREQ);
    // no hook
    atmega.write_data_with_mask(0x300, 0x5a, 0x0f);
    assert_eq!(atmega.cpu.data[0x300], 0x5a);
    // a hook that does not handle the write: the router stores the byte
    atmega.write_data_with_mask(TIMER_0_CONFIG().TCNT as u16, 0x77, 0xff);
    assert_eq!(atmega.cpu.data[TIMER_0_CONFIG().TCNT as usize], 0x77);
    assert_eq!(atmega.timer0.tcnt_next, 0x77);
    // a hook that handles the write, bound to a second address: the byte
    // behind that address stays as it was
    atmega.write_hooks.insert(0x301, PeripheralMemoryWriteHook::TwiControl);
    atmega.cpu.data[0x301] = 0x11;
    atmega.write_data_with_mask(0x301, 0x05, 0xff);
    assert_eq!(atmega.cpu.data[0x301], 0x11);
    assert_eq!(atmega.cpu.data[TWI_CONFIG().TWCR as usize], 0x05);
    // the registers r0..r31 bypass the hooks
    atmega.write_hooks.insert(0x10, PeripheralMemoryWriteHook::TwiControl);
    atmega.write_data(0x10, 0x99);
    assert_eq!(atmega.cpu.data[0x10], 0x99);
    assert_eq!(atmega.cpu.data[TWI_CONFIG().TWCR as usize], 0x05);
    atmega.read_hooks.insert(0x11, PeripheralMemoryReadHook::TimerCounter);
    atmega.cpu.data[0x11] = 0x42;
    assert_eq!(atmega.read_data(0x11), 0x42);
    // a read hook stores what it yields: here the counter, which takes
    // over the value written above
    atmega.read_hooks.insert(0x302, PeripheralMemoryReadHook::TimerCounter);
    assert_eq!(atmega.read_data(0x302), 0x77);
    assert_eq!(atmega.cpu.data[0x302], 0x77);
    assert_eq!(atmega.timer0.tcnt, 0x77);
    assert_eq!(atmega.read_data(0x300), 0x5a);
}
