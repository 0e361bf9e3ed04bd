use vstd::prelude::*;
use std::collections::HashMap;
use crate::clock::AVRClockEventCallback;
use crate::cpu::{lemma_lowest_pending, CpuState, CPU, DATA_SIZE, MAX_EVENT_DELAY};
use crate::interrupt::avr_interrupt;
use crate::peripheral::i2c::bus::{bus_before, I2CBus};
use crate::instruction::{lemma_instruction_advances_cycles, try_avr_instruction};
use crate::peripheral::eeprom::{EepromState, AVREEPROM, EEPROM_CONFIG};
use crate::peripheral::i2c::{
    AVRI2C, STATUS_DATA_RECEIVED_ACK, STATUS_DATA_SENT_ACK, STATUS_IDLE, STATUS_REPEATED_START,
    STATUS_SLAR_ACK, STATUS_SLAW_ACK, STATUS_START, TWCR_TWSTA, TWCR_TWSTO, TWI_CONFIG,
};
use crate::peripheral::timer::{AVRTimer, TIMER_0_CONFIG};
use crate::port::{AVRIOPort, PORTB_CONFIG, PORTC_CONFIG, PORTD_CONFIG};
use crate::program::{hex_image, hex_well_formed, load_hex};
use crate::usart::{AVRUSART, USART0_CONFIG};
use vstd::string::StringSliceAdditionalSpecFns;

verus! {

/// Bytes of EEPROM of the ATmega328P.
pub const EEPROM_SIZE: usize = 1024;

/// Nominal clock: 16 MHz.
pub const DEFAULT_FREQ: usize = 16_000_000;

/// The peripheral action bound to reads of a data address.
#[derive(Clone, Copy, Debug, PartialEq, Eq, Structural)]
pub enum PeripheralMemoryReadHook {
    /// Timer0 counter: bring the count up to date, then read it.
    TimerCounter,
}

/// The peripheral action bound to writes of a data address.
#[derive(Clone, Copy, Debug, PartialEq, Eq, Structural)]
pub enum PeripheralMemoryWriteHook {
    /// Timer0 counter register.
    TimerCounter,
    /// Timer0 control register B.
    TimerControlB,
    /// Timer0 interrupt mask register.
    TimerInterruptMask,
    /// USART control and status register B.
    UsartControlB,
    /// USART data register.
    UsartData,
    /// Direction register of the port with the given index.
    PortDirection(usize),
    /// Data register of the port with the given index.
    PortData(usize),
    /// Two-wire control register.
    TwiControl,
    /// EEPROM control register.
    EepromControl,
}

/// The microcontroller: CPU, peripherals and the tables that bind data
/// addresses to peripheral actions.
pub struct ATMega328P {
    pub cpu: CPU,
    pub timer0: AVRTimer,
    pub usart: AVRUSART,
    /// Ports B, C and D.
    pub ports: [AVRIOPort; 3],
    pub i2c: AVRI2C,
    pub eeprom: AVREEPROM,
    /// Every byte the USART has sent, oldest first.
    pub transmitted: Vec<u8>,
    pub read_hooks: HashMap<u16, PeripheralMemoryReadHook>,
    pub write_hooks: HashMap<u16, PeripheralMemoryWriteHook>,
}

/// The mathematical value of the microcontroller.
pub struct DeviceState {
    pub cpu: CpuState,
    pub timer0: AVRTimer,
    pub usart: AVRUSART,
    pub ports: Seq<AVRIOPort>,
    pub i2c: AVRI2C,
    pub eeprom: EepromState,
    pub transmitted: Seq<u8>,
    pub read_hooks: Map<u16, PeripheralMemoryReadHook>,
    pub write_hooks: Map<u16, PeripheralMemoryWriteHook>,
}

impl View for ATMega328P {
    type V = DeviceState;

    open spec fn view(&self) -> DeviceState {
        DeviceState {
            cpu: self.cpu@,
            timer0: self.timer0,
            usart: self.usart,
            ports: self.ports@,
            i2c: self.i2c,
            eeprom: self.eeprom@,
            transmitted: self.transmitted@,
            read_hooks: self.read_hooks@,
            write_hooks: self.write_hooks@,
        }
    }
}

impl DeviceState {
    /// The invariant of the device.
    pub open spec fn wf(self) -> bool {
        &&& self.cpu.wf()
        &&& self.ports.len() == 3
        &&& self.timer0.last_cycle <= self.cpu.cycles
        &&& self.timer0.ovf.fits(DATA_SIZE as int)
        &&& self.usart.udre.fits(DATA_SIZE as int)
        &&& self.usart.txc.fits(DATA_SIZE as int)
        &&& self.i2c.twi.fits(DATA_SIZE as int)
        &&& self.eeprom.eer.fits(DATA_SIZE as int)
        &&& self.eeprom.config.erase_cycles + self.eeprom.config.write_cycles <= MAX_EVENT_DELAY
        &&& forall|a: u16| #[trigger]
            self.write_hooks.contains_key(a) ==> match self.write_hooks[a] {
                PeripheralMemoryWriteHook::PortDirection(id) => id < 3,
                PeripheralMemoryWriteHook::PortData(id) => id < 3,
                _ => true,
            }
    }

    /// The cycle counter can grow by `n` without overflow.
    pub open spec fn headroom(self, n: int) -> bool {
        self.cpu.cycles + n <= u32::MAX
    }

    pub open spec fn with_cpu(self, cpu: CpuState) -> DeviceState {
        DeviceState { cpu, ..self }
    }

    /// The hooks on reads: the counter of Timer0.
    pub open spec fn initial_read_hooks() -> Map<u16, PeripheralMemoryReadHook> {
        Map::empty().insert(TIMER_0_CONFIG().TCNT as u16, PeripheralMemoryReadHook::TimerCounter)
    }

    /// The hooks on writes: the registers of Timer0, the USART, ports B, C
    /// and D, the two-wire interface and the EEPROM.
    pub open spec fn initial_write_hooks() -> Map<u16, PeripheralMemoryWriteHook> {
        Map::empty().insert(
            TIMER_0_CONFIG().TCNT as u16,
            PeripheralMemoryWriteHook::TimerCounter,
        ).insert(TIMER_0_CONFIG().TCCRB as u16, PeripheralMemoryWriteHook::TimerControlB).insert(
            TIMER_0_CONFIG().TIMSK as u16,
            PeripheralMemoryWriteHook::TimerInterruptMask,
        ).insert(USART0_CONFIG().UCSRB as u16, PeripheralMemoryWriteHook::UsartControlB).insert(
            USART0_CONFIG().UDR as u16,
            PeripheralMemoryWriteHook::UsartData,
        ).insert(PORTB_CONFIG().DDR as u16, PeripheralMemoryWriteHook::PortDirection(0)).insert(
            PORTB_CONFIG().PORT as u16,
            PeripheralMemoryWriteHook::PortData(0),
        ).insert(PORTC_CONFIG().DDR as u16, PeripheralMemoryWriteHook::PortDirection(1)).insert(
            PORTC_CONFIG().PORT as u16,
            PeripheralMemoryWriteHook::PortData(1),
        ).insert(PORTD_CONFIG().DDR as u16, PeripheralMemoryWriteHook::PortDirection(2)).insert(
            PORTD_CONFIG().PORT as u16,
            PeripheralMemoryWriteHook::PortData(2),
        ).insert(TWI_CONFIG().TWCR as u16, PeripheralMemoryWriteHook::TwiControl).insert(
            EEPROM_CONFIG().EECR as u16,
            PeripheralMemoryWriteHook::EepromControl,
        )
    }

    /// The device at power-up with the flash image `prog` and a clock of
    /// `freq_hz`: the CPU reset, every peripheral in its initial state, the
    /// two-wire master reporting idle, the EEPROM erased.
    pub open spec fn initial(prog: Seq<u8>, freq_hz: usize) -> DeviceState {
        DeviceState {
            cpu: AVRI2C::initial(TWI_CONFIG(), freq_hz).reported(
                CpuState::initial(prog),
                STATUS_IDLE,
            ),
            timer0: AVRTimer::initial(TIMER_0_CONFIG()),
            usart: AVRUSART::initial(USART0_CONFIG(), freq_hz),
            ports: seq![
                AVRIOPort::initial(PORTB_CONFIG()),
                AVRIOPort::initial(PORTC_CONFIG()),
                AVRIOPort::initial(PORTD_CONFIG()),
            ],
            i2c: AVRI2C::initial(TWI_CONFIG(), freq_hz),
            eeprom: EepromState::initial(EEPROM_CONFIG(), EEPROM_SIZE as nat),
            transmitted: Seq::empty(),
            read_hooks: Self::initial_read_hooks(),
            write_hooks: Self::initial_write_hooks(),
        }
    }
}

impl DeviceState {
    /// The effect of a read hook at `addr` and the byte it yields.
    pub open spec fn run_read_hook(self, hook: PeripheralMemoryReadHook, addr: u16) -> (
        DeviceState,
        u8,
    ) {
        match hook {
            PeripheralMemoryReadHook::TimerCounter => self.timer_tcnt_read(addr),
        }
    }

    /// Whether reads of `addr` go through a hook: never for the registers
    /// r0..r31.
    pub open spec fn read_hooked(self, addr: u16) -> bool {
        addr >= 32 && self.read_hooks.contains_key(addr)
    }

    /// A read of `addr` can be carried out: the address lies in the data
    /// space, and the cycle counter has room for what a hook may schedule.
    pub open spec fn read_defined(self, addr: u16) -> bool {
        &&& addr < self.cpu.data.len()
        &&& self.read_hooked(addr) ==> self.headroom(MAX_EVENT_DELAY as int)
    }

    /// A read of the data space: through the hook bound to the address, if
    /// there is one, else straight from the backing store.
    #[verifier::opaque]
    pub open spec fn read_data(self, addr: u16) -> (DeviceState, u8) {
        if self.read_hooked(addr) {
            self.run_read_hook(self.read_hooks[addr], addr)
        } else {
            (self, self.cpu.data[addr as int])
        }
    }

    /// The hook can take a write of `value`.
    pub open spec fn write_hook_defined(self, hook: PeripheralMemoryWriteHook, value: u8) -> bool {
        match hook {
            PeripheralMemoryWriteHook::UsartData => self.usart_udr_defined(),
            PeripheralMemoryWriteHook::EepromControl => self.eeprom_eecr_defined(value),
            _ => true,
        }
    }

    /// The effect of a write hook, and whether it handled the write fully.
    pub open spec fn run_write_hook(
        self,
        hook: PeripheralMemoryWriteHook,
        value: u8,
        old_value: u8,
        addr: u16,
        mask: u8,
    ) -> (DeviceState, bool) {
        match hook {
            PeripheralMemoryWriteHook::TimerCounter => (self.timer_tcnt_write(value), false),
            PeripheralMemoryWriteHook::TimerControlB => (self.timer_tccrb_write(value), true),
            PeripheralMemoryWriteHook::TimerInterruptMask => (
                self.timer_timsk_write(value),
                false,
            ),
            PeripheralMemoryWriteHook::UsartControlB => (
                self.usart_ucsrb_write(value, old_value),
                true,
            ),
            PeripheralMemoryWriteHook::UsartData => (self.usart_udr_write(value), false),
            PeripheralMemoryWriteHook::PortDirection(id) => (
                self.port_ddr_write(id as int, value),
                true,
            ),
            PeripheralMemoryWriteHook::PortData(id) => (
                self.port_port_write(id as int, value),
                true,
            ),
            PeripheralMemoryWriteHook::TwiControl => (self.i2c_twcr_write(value), true),
            PeripheralMemoryWriteHook::EepromControl => (self.eeprom_eecr_write(value), true),
        }
    }

    /// Whether writes of `addr` go through a hook: never for the registers
    /// r0..r31.
    pub open spec fn write_hooked(self, addr: u16) -> bool {
        addr >= 32 && self.write_hooks.contains_key(addr)
    }

    /// A write of `value` to `addr` can be carried out: the address lies in
    /// the data space; a hook bound to it can take the write, and the cycle
    /// counter has room for what the hook may schedule.
    #[verifier::opaque]
    pub open spec fn write_defined(self, addr: u16, value: u8) -> bool {
        &&& addr < self.cpu.data.len()
        &&& self.write_hooked(addr) ==> self.headroom(MAX_EVENT_DELAY as int + 8)
            && self.write_hook_defined(self.write_hooks[addr], value)
    }

    /// A write to the data space. A hook bound to the address sees the new
    /// and the old byte; if it reports the write handled, the backing store
    /// is left as the hook left it, else `value` is stored after the hook.
    #[verifier::opaque]
    pub open spec fn write_data_with_mask(self, addr: u16, value: u8, mask: u8) -> DeviceState {
        if self.write_hooked(addr) {
            let (after, handled) = self.run_write_hook(
                self.write_hooks[addr],
                value,
                self.cpu.data[addr as int],
                addr,
                mask,
            );
            if handled {
                after
            } else {
                after.with_cpu(after.cpu.with_data(addr as int, value))
            }
        } else {
            self.with_cpu(self.cpu.with_data(addr as int, value))
        }
    }

    /// The callback of an event can run.
    pub open spec fn callback_defined(
        self,
        callback: AVRClockEventCallback,
        bus: Option<I2CBus>,
    ) -> bool {
        match callback {
            AVRClockEventCallback::I2COperation => self.i2c_op_defined(bus),
            _ => true,
        }
    }

    /// What an event does when it fires.
    pub open spec fn run_callback(self, callback: AVRClockEventCallback, bus: Option<I2CBus>) -> (
        DeviceState,
        Option<I2CBus>,
    ) {
        match callback {
            AVRClockEventCallback::TimerCount => (self.count(true, false), bus),
            AVRClockEventCallback::UsartTransmitComplete => (self.usart_transmit_complete(), bus),
            AVRClockEventCallback::I2COperation => self.i2c_op(bus),
            AVRClockEventCallback::EepromMasterWriteExpire => (
                self.eeprom_master_write_expire(),
                bus,
            ),
            AVRClockEventCallback::EepromWriteDone => (self.eeprom_write_done(), bus),
        }
    }

    /// The head of the event queue is due.
    pub open spec fn event_due(self) -> bool {
        self.cpu.events.len() > 0 && self.cpu.events[0].cycles <= self.cpu.cycles
    }

    /// The device with the head of the event queue taken off.
    pub open spec fn pop_event(self) -> DeviceState {
        self.with_cpu(CpuState { events: self.cpu.events.drop_first(), ..self.cpu })
    }

    /// The first half of a tick: the head of the event queue fires if it is
    /// due; no other event fires.
    pub open spec fn fire_due_event(self, bus: Option<I2CBus>) -> (DeviceState, Option<I2CBus>) {
        if self.event_due() {
            self.pop_event().run_callback(self.cpu.events[0].callback, bus)
        } else {
            (self, bus)
        }
    }

    /// An interrupt is taken now: interrupts are enabled and a vector is
    /// pending.
    pub open spec fn interrupt_due(self) -> bool {
        self.cpu.interrupts_enabled() && self.cpu.next_interrupt >= 0
    }

    /// The second half of a tick: the lowest pending vector is entered, if
    /// interrupts are enabled, and its slot and flag are cleared.
    pub open spec fn dispatch_interrupt(self) -> DeviceState {
        if self.interrupt_due() {
            let interrupt = self.cpu.pending[self.cpu.next_interrupt as int]->0;
            self.with_cpu(
                self.cpu.avr_interrupt(interrupt.address).clear_interrupt(interrupt, true),
            )
        } else {
            self
        }
    }

    /// The event that is due can fire: its callback can run, and the cycle
    /// counter has room for what the callback may schedule.
    pub open spec fn event_defined(self, bus: Option<I2CBus>) -> bool {
        self.event_due() ==> self.headroom(MAX_EVENT_DELAY as int)
            && self.pop_event().callback_defined(self.cpu.events[0].callback, bus)
    }

    /// The interrupt that is due can be entered: the stack takes the return
    /// address, and the cycle counter has room for the two cycles.
    pub open spec fn dispatch_defined(self) -> bool {
        self.interrupt_due() ==> self.cpu.push_defined() && self.headroom(2)
    }

    /// A tick can be carried out: the event that is due can fire, and the
    /// interrupt that is then due can be entered.
    pub open spec fn tick_defined(self, bus: Option<I2CBus>) -> bool {
        self.event_defined(bus) && self.fire_due_event(bus).0.dispatch_defined()
    }

    /// One tick: the due event, then one interrupt.
    pub open spec fn tick(self, bus: Option<I2CBus>) -> (DeviceState, Option<I2CBus>) {
        let (fired, bus_after) = self.fire_due_event(bus);
        (fired.dispatch_interrupt(), bus_after)
    }

    /// How a tick that cannot be carried out leaves the device and the bus:
    /// untouched if the due event cannot run, else as the event left them.
    pub open spec fn tick_fault(self, bus: Option<I2CBus>) -> (DeviceState, Option<I2CBus>) {
        if self.event_defined(bus) {
            self.fire_due_event(bus)
        } else {
            (self, bus)
        }
    }

    /// How a step that cannot be carried out leaves the device and the bus.
    pub open spec fn step_fault(self, bus: Option<I2CBus>) -> (DeviceState, Option<I2CBus>) {
        if self.instruction_defined() {
            self.avr_instruction().tick_fault(bus)
        } else {
            (self.instruction_fault(), bus)
        }
    }

    /// A step can be carried out: the instruction can, and then the tick.
    pub open spec fn step_defined(self, bus: Option<I2CBus>) -> bool {
        self.instruction_defined() && self.avr_instruction().tick_defined(bus)
    }

    /// One step: one instruction, then one tick.
    pub open spec fn step(self, bus: Option<I2CBus>) -> (DeviceState, Option<I2CBus>) {
        self.avr_instruction().tick(bus)
    }
}

/// A write that no hook handles stores the value verbatim; a write that a
/// hook handles leaves the whole device, the backing byte included, as the
/// hook left it.
pub proof fn lemma_write_mask_semantics(s: DeviceState, addr: u16, value: u8, mask: u8)
    requires
        s.wf(),
        addr < DATA_SIZE,
    ensures
        ({
            let hooked = s.run_write_hook(
                s.write_hooks[addr],
                value,
                s.cpu.data[addr as int],
                addr,
                mask,
            );
            &&& s.write_hooked(addr) && hooked.1 ==> s.write_data_with_mask(addr, value, mask)
                == hooked.0
            &&& s.write_hooked(addr) && !hooked.1 ==> s.write_data_with_mask(
                addr,
                value,
                mask,
            ).cpu.data == hooked.0.cpu.data.update(addr as int, value)
            &&& !s.write_hooked(addr) ==> s.write_data_with_mask(addr, value, mask).cpu.data
                == s.cpu.data.update(addr as int, value)
        }),
{
    reveal(DeviceState::write_data_with_mask);
}

/// A read does not touch the cycle counter, the program counter or the
/// program.
pub proof fn lemma_read_keeps_cycles(s: DeviceState, addr: u16)
    ensures
        s.read_data(addr).0.cpu.cycles == s.cpu.cycles,
        s.read_data(addr).0.cpu.pc == s.cpu.pc,
        s.read_data(addr).0.cpu.prog_mem == s.cpu.prog_mem,
{
    reveal(DeviceState::read_data);
}

/// A write never turns the cycle counter back; it can cost two cycles, the
/// halt after an EEPROM write has been accepted. It does not touch the
/// program counter or the program.
pub proof fn lemma_write_cycles(s: DeviceState, addr: u16, value: u8, mask: u8)
    requires
        s.write_defined(addr, value),
    ensures
        s.cpu.cycles <= s.write_data_with_mask(addr, value, mask).cpu.cycles <= s.cpu.cycles + 2,
        s.write_data_with_mask(addr, value, mask).cpu.pc == s.cpu.pc,
        s.write_data_with_mask(addr, value, mask).cpu.prog_mem == s.cpu.prog_mem,
{
    reveal(DeviceState::write_data_with_mask);
    reveal(DeviceState::write_defined);
}

/// A tick never turns the cycle counter back; entering an interrupt costs
/// two cycles.
pub proof fn lemma_tick_cycles(s: DeviceState, bus: Option<I2CBus>)
    requires
        s.tick_defined(bus),
    ensures
        s.cpu.cycles <= s.tick(bus).0.cpu.cycles <= s.cpu.cycles + 2,
{
}

/// Every step advances the cycle counter.
pub proof fn lemma_step_advances_cycles(s: DeviceState, bus: Option<I2CBus>)
    requires
        s.step_defined(bus),
    ensures
        s.cpu.cycles < s.step(bus).0.cpu.cycles <= s.cpu.cycles + 7,
{
    lemma_instruction_advances_cycles(s);
    lemma_tick_cycles(s.avr_instruction(), bus);
}

/// While SREG.I is clear a tick takes no interrupt, whatever is pending: the
/// second half of the tick changes nothing.
pub proof fn lemma_masked_interrupts_stay_pending(s: DeviceState)
    requires
        !s.cpu.interrupts_enabled(),
    ensures
        s.dispatch_interrupt() == s,
{
}

/// A tick fires an event only if its cycle has come, and then only the head
/// of the queue.
pub proof fn lemma_tick_fires_only_due_events(s: DeviceState, bus: Option<I2CBus>)
    requires
        s.wf(),
    ensures
        !s.event_due() ==> s.fire_due_event(bus) == (s, bus),
        s.event_due() ==> s.cpu.events[0].cycles <= s.cpu.cycles && s.fire_due_event(bus)
            == s.pop_event().run_callback(s.cpu.events[0].callback, bus),
{
}

impl ATMega328P {
    /// The device at power-up, programmed with the Intel HEX text `hex` and
    /// clocked at `freq_hz`.
    pub fn new(hex: &str, freq_hz: usize) -> (device: Self)
        requires
            hex_well_formed(hex.spec_bytes()),
        ensures
            device@ == DeviceState::initial(hex_image(hex.spec_bytes()), freq_hz),
            device@.wf(),
    {
        let prog = load_hex(hex);
        let mut cpu = CPU::new(prog);
        let timer0 = AVRTimer::new(TIMER_0_CONFIG());
        let usart = AVRUSART::new(USART0_CONFIG(), freq_hz);
        let port_b = AVRIOPort::new(PORTB_CONFIG());
        let port_c = AVRIOPort::new(PORTC_CONFIG());
        let port_d = AVRIOPort::new(PORTD_CONFIG());
        let i2c = AVRI2C::new(TWI_CONFIG(), freq_hz, &mut cpu);
        let eeprom = AVREEPROM::new(EEPROM_CONFIG(), EEPROM_SIZE);
        let mut read_hooks: HashMap<u16, PeripheralMemoryReadHook> = HashMap::new();
        let mut write_hooks: HashMap<u16, PeripheralMemoryWriteHook> = HashMap::new();
        timer0.add_TCNT_read_hook(&mut read_hooks);
        timer0.add_TCNT_write_hook(&mut write_hooks);
        timer0.add_TCCRB_write_hook(&mut write_hooks);
        timer0.add_TIMSK_write_hook(&mut write_hooks);
        usart.add_ucsrb_handler(&mut write_hooks);
        usart.add_udr_handler(&mut write_hooks);
        port_b.add_ddr_handler(&mut write_hooks, 0);
        port_b.add_port_handler(&mut write_hooks, 0);
        port_c.add_ddr_handler(&mut write_hooks, 1);
        port_c.add_port_handler(&mut write_hooks, 1);
        port_d.add_ddr_handler(&mut write_hooks, 2);
        port_d.add_port_handler(&mut write_hooks, 2);
        i2c.add_TWCR_write_hook(&mut write_hooks);
        eeprom.add_EECR_write_hook(&mut write_hooks);
        let ports = [port_b, port_c, port_d];
        let device = Self {
            cpu,
            timer0,
            usart,
            ports,
            i2c,
            eeprom,
            transmitted: Vec::new(),
            read_hooks,
            write_hooks,
        };
        proof {
            let model = DeviceState::initial(hex_image(hex.spec_bytes()), freq_hz);
            assert(device@.ports =~= model.ports);
            assert(device@.transmitted =~= model.transmitted);
            assert(device@.read_hooks =~= model.read_hooks);
            assert(device@.write_hooks =~= model.write_hooks);
        }
        device
    }

    fn run_read_hook(&mut self, hook: PeripheralMemoryReadHook, addr: u16) -> (value: u8)
        requires
            old(self)@.wf(),
            old(self)@.headroom(MAX_EVENT_DELAY as int),
            addr < DATA_SIZE,
        ensures
            (final(self)@, value) == old(self)@.run_read_hook(hook, addr),
            final(self)@.wf(),
            final(self)@.cpu.cycles == old(self)@.cpu.cycles,
            final(self)@.cpu.pc == old(self)@.cpu.pc,
            final(self)@.cpu.prog_mem == old(self)@.cpu.prog_mem,
    {
        match hook {
            PeripheralMemoryReadHook::TimerCounter => self.timer_tcnt_read(addr),
        }
    }

    /// Reads a byte of the data space.
    pub fn read_data(&mut self, addr: u16) -> (value: u8)
        requires
            old(self)@.wf(),
            old(self)@.read_defined(addr),
        ensures
            (final(self)@, value) == old(self)@.read_data(addr),
            final(self)@.wf(),
            final(self)@.cpu.cycles == old(self)@.cpu.cycles,
            final(self)@.cpu.pc == old(self)@.cpu.pc,
            final(self)@.cpu.prog_mem == old(self)@.cpu.prog_mem,
    {
        reveal(DeviceState::read_data);
        if addr >= 32 {
            let hook = match self.read_hooks.get(&addr) {
                Some(h) => Some(*h),
                None => None,
            };
            match hook {
                Some(h) => {
                    return self.run_read_hook(h, addr);
                },
                None => {},
            }
        }
        self.cpu.get_data(addr)
    }

    fn run_write_hook(
        &mut self,
        hook: PeripheralMemoryWriteHook,
        value: u8,
        old_value: u8,
        addr: u16,
        mask: u8,
    ) -> (handled: bool)
        requires
            old(self)@.wf(),
            old(self)@.headroom(MAX_EVENT_DELAY as int + 8),
            old(self)@.write_hook_defined(hook, value),
            match hook {
                PeripheralMemoryWriteHook::PortDirection(id) => id < 3,
                PeripheralMemoryWriteHook::PortData(id) => id < 3,
                _ => true,
            },
        ensures
            (final(self)@, handled) == old(self)@.run_write_hook(
                hook,
                value,
                old_value,
                addr,
                mask,
            ),
            final(self)@.wf(),
            old(self)@.cpu.cycles <= final(self)@.cpu.cycles <= old(self)@.cpu.cycles + 2,
            final(self)@.cpu.pc == old(self)@.cpu.pc,
            final(self)@.cpu.prog_mem == old(self)@.cpu.prog_mem,
    {
        match hook {
            PeripheralMemoryWriteHook::TimerCounter => self.timer_tcnt_write(value),
            PeripheralMemoryWriteHook::TimerControlB => self.timer_tccrb_write(value),
            PeripheralMemoryWriteHook::TimerInterruptMask => self.timer_timsk_write(value),
            PeripheralMemoryWriteHook::UsartControlB => self.usart_ucsrb_write(value, old_value),
            PeripheralMemoryWriteHook::UsartData => self.usart_udr_write(value),
            PeripheralMemoryWriteHook::PortDirection(id) => self.port_ddr_write(id, value),
            PeripheralMemoryWriteHook::PortData(id) => self.port_port_write(id, value),
            PeripheralMemoryWriteHook::TwiControl => self.i2c_twcr_write(value),
            PeripheralMemoryWriteHook::EepromControl => self.eeprom_eecr_write(value),
        }
    }

    /// Whether a read of `addr` can be carried out.
    pub fn read_ready(&self, addr: u16) -> (ok: bool)
        requires
            self@.wf(),
        ensures
            ok == self@.read_defined(addr),
    {
        if addr as usize >= self.cpu.data.len() {
            return false;
        }
        if addr < 32 {
            return true;
        }
        match self.read_hooks.get(&addr) {
            Some(_) => self.cpu.cycles <= u32::MAX - MAX_EVENT_DELAY,
            None => true,
        }
    }

    /// Whether a write of `value` to `addr` can be carried out.
    pub fn write_ready(&self, addr: u16, value: u8) -> (ok: bool)
        requires
            self@.wf(),
        ensures
            ok == self@.write_defined(addr, value),
    {
        reveal(DeviceState::write_defined);
        if addr as usize >= self.cpu.data.len() {
            return false;
        }
        if addr < 32 {
            return true;
        }
        match self.write_hooks.get(&addr) {
            Some(hook) => {
                if self.cpu.cycles > u32::MAX - MAX_EVENT_DELAY - 8 {
                    return false;
                }
                match *hook {
                    PeripheralMemoryWriteHook::UsartData => self.usart_udr_ready(),
                    PeripheralMemoryWriteHook::EepromControl => self.eeprom_eecr_ready(value),
                    _ => true,
                }
            },
            None => true,
        }
    }

    /// Writes a byte of the data space.
    pub fn write_data(&mut self, addr: u16, data: u8)
        requires
            old(self)@.wf(),
            old(self)@.write_defined(addr, data),
        ensures
            final(self)@ == old(self)@.write_data_with_mask(addr, data, 0xff),
            final(self)@.wf(),
            old(self)@.cpu.cycles <= final(self)@.cpu.cycles <= old(self)@.cpu.cycles + 2,
            final(self)@.cpu.pc == old(self)@.cpu.pc,
            final(self)@.cpu.prog_mem == old(self)@.cpu.prog_mem,
    {
        self.write_data_with_mask(addr, data, 0xff);
    }

    /// Writes a byte of the data space; `mask` tells a hook which bits the
    /// instruction addresses.
    pub fn write_data_with_mask(&mut self, addr: u16, data: u8, mask: u8)
        requires
            old(self)@.wf(),
            old(self)@.write_defined(addr, data),
        ensures
            final(self)@ == old(self)@.write_data_with_mask(addr, data, mask),
            final(self)@.wf(),
            old(self)@.cpu.cycles <= final(self)@.cpu.cycles <= old(self)@.cpu.cycles + 2,
            final(self)@.cpu.pc == old(self)@.cpu.pc,
            final(self)@.cpu.prog_mem == old(self)@.cpu.prog_mem,
    {
        reveal(DeviceState::write_data_with_mask);
        reveal(DeviceState::write_defined);
        if addr >= 32 {
            let hook = match self.write_hooks.get(&addr) {
                Some(h) => Some(*h),
                None => None,
            };
            match hook {
                Some(h) => {
                    let cpu_data = self.cpu.get_data(addr);
                    let handled = self.run_write_hook(h, data, cpu_data, addr, mask);
                    if handled {
                        return ;
                    }
                },
                None => {},
            }
        }
        self.cpu.set_data(addr, data);
    }

    fn run_callback(&mut self, callback: AVRClockEventCallback, i2c_bus: Option<&mut I2CBus>)
        requires
            old(self)@.wf(),
            old(self)@.headroom(MAX_EVENT_DELAY as int),
            old(self)@.callback_defined(callback, bus_before(i2c_bus)),
        ensures
            (final(self)@, match i2c_bus {
                Some(b) => Some(*final(b)),
                None => None,
            }) == old(self)@.run_callback(callback, bus_before(i2c_bus)),
            final(self)@.wf(),
            final(self)@.cpu.cycles == old(self)@.cpu.cycles,
    {
        match callback {
            AVRClockEventCallback::TimerCount => self.count(i2c_bus, true, false),
            AVRClockEventCallback::UsartTransmitComplete => self.usart_transmit_complete(),
            AVRClockEventCallback::I2COperation => self.i2c_op(i2c_bus, true, false),
            AVRClockEventCallback::EepromMasterWriteExpire => self.eeprom_master_write_expire(),
            AVRClockEventCallback::EepromWriteDone => self.eeprom_write_done(),
        }
    }

    /// Whether the callback of an event can run.
    pub fn callback_ready(&self, callback: AVRClockEventCallback, bus: Option<I2CBus>) -> (ok: bool)
        requires
            self@.cpu.data.len() >= 0x100,
        ensures
            ok == self@.callback_defined(callback, bus),
    {
        match callback {
            AVRClockEventCallback::I2COperation => {
                let twcr = self.cpu.get_data(self.i2c.config.TWCR as u16);
                let status = self.i2c.status(&self.cpu.data);
                match bus {
                    Some(b) => {
                        if twcr & TWCR_TWSTA != 0 || twcr & TWCR_TWSTO != 0 || status
                            == STATUS_START || status == STATUS_REPEATED_START {
                            true
                        } else if status == STATUS_SLAW_ACK || status == STATUS_DATA_SENT_ACK {
                            !b.read
                        } else if status == STATUS_SLAR_ACK || status == STATUS_DATA_RECEIVED_ACK {
                            b.read
                        } else {
                            true
                        }
                    },
                    None => true,
                }
            },
            _ => true,
        }
    }

    /// The first half of a tick, if it can be carried out: fires the head
    /// of the event queue if it is due. If the event cannot run, nothing
    /// changes.
    pub fn try_fire_due_event(&mut self, i2c_bus: Option<&mut I2CBus>) -> (ok: bool)
        requires
            old(self)@.wf(),
        ensures
            ok == old(self)@.event_defined(bus_before(i2c_bus)),
            (final(self)@, match i2c_bus {
                Some(b) => Some(*final(b)),
                None => None,
            }) == (if ok {
                old(self)@.fire_due_event(bus_before(i2c_bus))
            } else {
                (old(self)@, bus_before(i2c_bus))
            }),
            final(self)@.wf(),
            final(self)@.cpu.cycles == old(self)@.cpu.cycles,
    {
        if self.cpu.clock_events.len() > 0 && self.cpu.clock_events[0].cycles <= self.cpu.cycles {
            if self.cpu.cycles > u32::MAX - MAX_EVENT_DELAY {
                return false;
            }
            let callback = self.cpu.clock_events[0].callback;
            match i2c_bus {
                Some(bus) => {
                    if !self.callback_ready(callback, Some(*bus)) {
                        return false;
                    }
                    self.fire_due_event(Some(bus));
                },
                None => {
                    self.fire_due_event(None);
                },
            }
        }
        true
    }

    /// The first half of a tick: fires the head of the event queue if it is
    /// due.
    pub fn fire_due_event(&mut self, i2c_bus: Option<&mut I2CBus>)
        requires
            old(self)@.wf(),
            old(self)@.event_defined(bus_before(i2c_bus)),
        ensures
            (final(self)@, match i2c_bus {
                Some(b) => Some(*final(b)),
                None => None,
            }) == old(self)@.fire_due_event(bus_before(i2c_bus)),
            final(self)@.wf(),
            final(self)@.cpu.cycles == old(self)@.cpu.cycles,
    {
        if self.cpu.clock_events.len() > 0 && self.cpu.clock_events[0].cycles <= self.cpu.cycles {
            let event = self.cpu.clock_events.remove(0);
            proof {
                assert(self.cpu@.events =~= old(self)@.cpu.events.drop_first());
                assert forall|i: int, j: int| 0 <= i <= j < self.cpu@.events.len() implies self.cpu@.events[i].cycles
                    <= self.cpu@.events[j].cycles by {
                    assert(old(self)@.cpu.events[i + 1].cycles <= old(self)@.cpu.events[j
                        + 1].cycles);
                }
            }
            self.run_callback(event.callback, i2c_bus);
        }
    }

    /// The second half of a tick: enters the lowest pending interrupt if
    /// interrupts are enabled.
    pub fn dispatch_interrupt(&mut self)
        requires
            old(self)@.wf(),
            old(self)@.dispatch_defined(),
        ensures
            final(self)@ == old(self)@.dispatch_interrupt(),
            final(self)@.wf(),
            old(self)@.cpu.cycles <= final(self)@.cpu.cycles <= old(self)@.cpu.cycles + 2,
    {
        let next_interrupt = self.cpu.next_interrupt;
        if self.cpu.interrupts_enabled() && next_interrupt >= 0 {
            proof {
                lemma_lowest_pending(self@.cpu.pending);
            }
            let interrupt = self.cpu.pending_interrupts[next_interrupt as usize].unwrap();
            avr_interrupt(&mut self.cpu, interrupt.address);
            self.cpu.clear_interrupt(&interrupt, true);
        }
    }

    /// One tick, if it can be carried out: the head of the event queue
    /// fires if it is due, then one interrupt is taken if interrupts are
    /// enabled and one is pending. Tells whether the tick was carried out;
    /// after a tick that could not be, the simulation cannot go on.
    pub fn try_tick(&mut self, i2c_bus: Option<&mut I2CBus>) -> (ok: bool)
        requires
            old(self)@.wf(),
        ensures
            ok == old(self)@.tick_defined(bus_before(i2c_bus)),
            (final(self)@, match i2c_bus {
                Some(b) => Some(*final(b)),
                None => None,
            }) == (if ok {
                old(self)@.tick(bus_before(i2c_bus))
            } else {
                old(self)@.tick_fault(bus_before(i2c_bus))
            }),
            final(self)@.wf(),
            old(self)@.cpu.cycles <= final(self)@.cpu.cycles <= old(self)@.cpu.cycles + 2,
    {
        if !self.try_fire_due_event(i2c_bus) {
            return false;
        }
        if self.cpu.interrupts_enabled() && self.cpu.next_interrupt >= 0 && !(self.cpu.push_ready()
            && self.cpu.cycles <= u32::MAX - 2) {
            return false;
        }
        self.dispatch_interrupt();
        true
    }

    /// One tick: the head of the event queue fires if it is due, then one
    /// interrupt is taken if interrupts are enabled and one is pending.
    pub fn tick(&mut self, i2c_bus: Option<&mut I2CBus>)
        requires
            old(self)@.wf(),
            old(self)@.tick_defined(bus_before(i2c_bus)),
        ensures
            (final(self)@, match i2c_bus {
                Some(b) => Some(*final(b)),
                None => None,
            }) == old(self)@.tick(bus_before(i2c_bus)),
            final(self)@.wf(),
            old(self)@.cpu.cycles <= final(self)@.cpu.cycles <= old(self)@.cpu.cycles + 2,
    {
        self.try_tick(i2c_bus);
    }

    /// One step, if it can be carried out: executes one instruction, then
    /// ticks. Tells whether the step was carried out; after a step that
    /// could not be, the simulation cannot go on.
    pub fn try_step(&mut self, i2c_bus: Option<&mut I2CBus>) -> (ok: bool)
        requires
            old(self)@.wf(),
        ensures
            ok == old(self)@.step_defined(bus_before(i2c_bus)),
            (final(self)@, match i2c_bus {
                Some(b) => Some(*final(b)),
                None => None,
            }) == (if ok {
                old(self)@.step(bus_before(i2c_bus))
            } else {
                old(self)@.step_fault(bus_before(i2c_bus))
            }),
            ok ==> old(self)@.cpu.cycles < final(self)@.cpu.cycles,
            final(self)@.wf(),
            old(self)@.cpu.cycles <= final(self)@.cpu.cycles <= old(self)@.cpu.cycles + 7,
    {
        if !try_avr_instruction(self) {
            return false;
        }
        self.try_tick(i2c_bus)
    }

    /// One step: executes one instruction, then ticks. The cycle counter
    /// always advances.
    pub fn step(&mut self, i2c_bus: Option<&mut I2CBus>)
        requires
            old(self)@.wf(),
            old(self)@.step_defined(bus_before(i2c_bus)),
        ensures
            (final(self)@, match i2c_bus {
                Some(b) => Some(*final(b)),
                None => None,
            }) == old(self)@.step(bus_before(i2c_bus)),
            final(self)@.wf(),
            old(self)@.cpu.cycles < final(self)@.cpu.cycles <= old(self)@.cpu.cycles + 7,
    {
        self.try_step(i2c_bus);
    }
}

} // verus!
