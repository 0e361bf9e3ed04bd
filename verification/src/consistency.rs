//! The invariant of the device holds along every execution: each register
//! write, each event and each instruction keeps it, and so does each step.

use vstd::prelude::*;
use crate::atmega328p::{
    lemma_read_keeps_cycles, lemma_write_cycles, DeviceState, PeripheralMemoryReadHook,
    PeripheralMemoryWriteHook,
};
use crate::clock::{
    lemma_cancel_sorted, lemma_schedule_sorted, AVRClockEventCallback, AVRClockEventEntry,
    AVRClockEventType,
};
use crate::cpu::{
    lemma_clear_interrupt, lemma_lowest_pending, lemma_queue_interrupt, lemma_same_frame_wf,
    CpuState, DATA_SIZE, MAX_EVENT_DELAY,
};
use crate::instruction::flow::is_flow_op;
use crate::instruction::instructions::{decode_spec, displacement, Instruction};
use crate::instruction::memory::{
    indirect_load, indirect_store, is_memory_op, lemma_memory_cycles, AddressMode,
};
use crate::instruction::operand::{bit3, io5, io6, lemma_operand_bounds, rd5};
use crate::instruction::registers::is_register_op;
use crate::instruction::{lemma_instruction_advances_cycles, lemma_instruction_classes};
use crate::interrupt::AVRInterruptConfig;
use crate::peripheral::eeprom::{
    EECR_WRITE_MASK, EEMPE, EEMPE_CYCLES, EEPE, EEPM0, EEPM1, EERE,
};
use crate::peripheral::i2c::bus::I2CBus;
use crate::peripheral::i2c::{TWCR_TWSTO, TWSR_TWS_MASK};
use crate::peripheral::timer::divider_for;

verus! {

/// Scheduling an event keeps the invariant of the CPU.
pub proof fn lemma_add_clock_event_wf(
    c: CpuState,
    callback: AVRClockEventCallback,
    delay: u32,
    kind: AVRClockEventType,
)
    requires
        c.wf(),
    ensures
        c.add_clock_event(callback, delay, kind).wf(),
{
    lemma_schedule_sorted(
        c.events,
        AVRClockEventEntry { cycles: c.due(delay) as u32, callback, event_type: kind },
    );
}

/// Cancelling events keeps the invariant of the CPU.
pub proof fn lemma_clear_clock_event_wf(c: CpuState, kind: AVRClockEventType)
    requires
        c.wf(),
    ensures
        c.clear_clock_event(kind).wf(),
{
    lemma_cancel_sorted(c.events, kind);
}

/// Raising a flag keeps the invariant of the CPU.
pub proof fn lemma_set_interrupt_flag_wf(c: CpuState, interrupt: AVRInterruptConfig)
    requires
        c.wf(),
        interrupt.fits(DATA_SIZE as int),
    ensures
        c.set_interrupt_flag(interrupt).wf(),
{
    let fr = interrupt.flag_register as int;
    let flagged = c.with_data(
        fr,
        if interrupt.inverse_flag {
            c.data[fr] & !interrupt.flag_mask
        } else {
            c.data[fr] | interrupt.flag_mask
        },
    );
    lemma_same_frame_wf(c, flagged);
    lemma_queue_interrupt(flagged, interrupt);
}

/// Following an enable bit keeps the invariant of the CPU.
pub proof fn lemma_update_interrupt_enable_wf(
    c: CpuState,
    interrupt: AVRInterruptConfig,
    value: u8,
)
    requires
        c.wf(),
        interrupt.fits(DATA_SIZE as int),
    ensures
        c.update_interrupt_enable(interrupt, value).wf(),
{
    lemma_queue_interrupt(c, interrupt);
    lemma_clear_interrupt(c, interrupt, false);
}

/// A count event keeps the invariant of the device.
pub proof fn lemma_count_wf(s: DeviceState, reschedule: bool, external: bool)
    requires
        s.wf(),
        s.count_defined(external),
    ensures
        s.count(reschedule, external).wf(),
        s.count(reschedule, external).cpu.cycles == s.cpu.cycles,
{
    let divider = s.timer0.divider;
    let delta = s.cpu.cycles - s.timer0.last_cycle;
    let steps = s.count_steps(external);
    assert(steps * divider <= delta) by (nonlinear_arith)
        requires
            external ==> steps == 1 && divider == 0,
            !external && divider != 0 && delta >= divider ==> steps == delta / (divider as int),
            !external && !(divider != 0 && delta >= divider) ==> steps == 0,
            delta >= 0,
            divider >= 0,
    ;
    lemma_set_interrupt_flag_wf(s.cpu, s.timer0.ovf);
    let a = s.count_advance(external);
    let t = a.count_take_write();
    assert(a.wf());
    assert(t.wf());
    lemma_add_clock_event_wf(
        t.cpu,
        AVRClockEventCallback::TimerCount,
        divider_for(t.cpu.data[t.timer0.config.TCCRB as int] & 0x7) as u32,
        AVRClockEventType::Count,
    );
    lemma_add_clock_event_wf(
        t.cpu,
        AVRClockEventCallback::TimerCount,
        (t.timer0.last_cycle + divider - t.cpu.cycles) as u32,
        AVRClockEventType::Count,
    );
}

/// A read through a hook keeps the invariant of the device.
pub proof fn lemma_read_hook_wf(s: DeviceState, hook: PeripheralMemoryReadHook, addr: u16)
    requires
        s.wf(),
        addr < DATA_SIZE,
    ensures
        s.run_read_hook(hook, addr).0.wf(),
{
    lemma_count_wf(s, false, false);
    let counted = s.count(false, false);
    lemma_same_frame_wf(
        counted.cpu,
        counted.cpu.with_data(addr as int, (counted.timer0.tcnt & 0xff) as u8),
    );
}

/// A read keeps the invariant of the device.
pub proof fn lemma_read_wf(s: DeviceState, addr: u16)
    requires
        s.wf(),
        addr < DATA_SIZE,
    ensures
        s.read_data(addr).0.wf(),
{
    reveal(DeviceState::read_data);
    if s.read_hooked(addr) {
        lemma_read_hook_wf(s, s.read_hooks[addr], addr);
    }
}

/// The writes to the registers of Timer0 keep the invariant of the device.
pub proof fn lemma_timer_writes_wf(s: DeviceState, value: u8)
    requires
        s.wf(),
    ensures
        s.timer_tcnt_write(value).wf(),
        s.timer_tccrb_write(value).wf(),
        s.timer_timsk_write(value).wf(),
{
    lemma_clear_clock_event_wf(s.cpu, AVRClockEventType::Count);
    lemma_add_clock_event_wf(
        s.cpu.clear_clock_event(AVRClockEventType::Count),
        AVRClockEventCallback::TimerCount,
        0,
        AVRClockEventType::Count,
    );
    let stored = s.cpu.with_data(s.timer0.config.TCCRB as int, value);
    lemma_same_frame_wf(s.cpu, stored);
    lemma_clear_clock_event_wf(stored, AVRClockEventType::Count);
    lemma_add_clock_event_wf(
        stored.clear_clock_event(AVRClockEventType::Count),
        AVRClockEventCallback::TimerCount,
        0,
        AVRClockEventType::Count,
    );
    lemma_update_interrupt_enable_wf(s.cpu, s.timer0.ovf, value);
}

/// The writes to the registers of the USART, and the end of a
/// transmission, keep the invariant of the device.
pub proof fn lemma_usart_wf(s: DeviceState, value: u8, old_value: u8)
    requires
        s.wf(),
    ensures
        s.usart_ucsrb_write(value, old_value).wf(),
        s.usart_udr_write(value).wf(),
        s.usart_transmit_complete().wf(),
{
    lemma_update_interrupt_enable_wf(s.cpu, s.usart.udre, value);
    let first = s.cpu.update_interrupt_enable(s.usart.udre, value);
    lemma_update_interrupt_enable_wf(first, s.usart.txc, value);
    let enabled = first.update_interrupt_enable(s.usart.txc, value);
    lemma_set_interrupt_flag_wf(enabled, s.usart.udre);
    lemma_same_frame_wf(enabled, enabled.with_data(s.usart.config.UCSRB as int, value));
    lemma_same_frame_wf(
        enabled.set_interrupt_flag(s.usart.udre),
        enabled.set_interrupt_flag(s.usart.udre).with_data(s.usart.config.UCSRB as int, value),
    );
    lemma_add_clock_event_wf(
        s.cpu,
        AVRClockEventCallback::UsartTransmitComplete,
        s.usart.cycles_per_char_of(s.cpu.data) as u32,
        AVRClockEventType::USART,
    );
    let scheduled = s.cpu.add_clock_event(
        AVRClockEventCallback::UsartTransmitComplete,
        s.usart.cycles_per_char_of(s.cpu.data) as u32,
        AVRClockEventType::USART,
    );
    lemma_clear_interrupt(scheduled, s.usart.txc, true);
    lemma_clear_interrupt(scheduled.clear_interrupt(s.usart.txc, true), s.usart.udre, true);
    lemma_set_interrupt_flag_wf(s.cpu, s.usart.udre);
    lemma_set_interrupt_flag_wf(s.cpu.set_interrupt_flag(s.usart.udre), s.usart.txc);
}

/// The writes to the registers of a port keep the invariant of the device.
pub proof fn lemma_port_wf(s: DeviceState, id: int, value: u8)
    requires
        s.wf(),
        0 <= id < 3,
    ensures
        s.port_ddr_write(id, value).wf(),
        s.port_port_write(id, value).wf(),
{
    lemma_same_frame_wf(s.cpu, s.port_ddr_write(id, value).cpu);
    lemma_same_frame_wf(s.cpu, s.port_port_write(id, value).cpu);
}

/// Reporting a status keeps the invariant of the CPU.
pub proof fn lemma_reported_wf(s: DeviceState, c: CpuState, status: u8)
    requires
        s.wf(),
        c.wf(),
    ensures
        s.i2c.reported(c, status).wf(),
{
    let twsr = s.i2c.config.TWSR as int;
    let stored = c.with_data(twsr, (c.data[twsr] & !TWSR_TWS_MASK) | status);
    lemma_same_frame_wf(c, stored);
    lemma_set_interrupt_flag_wf(stored, s.i2c.twi);
}

/// The write to TWCR and the steps of the two-wire master keep the
/// invariant of the device.
pub proof fn lemma_i2c_wf(s: DeviceState, value: u8, bus: Option<I2CBus>)
    requires
        s.wf(),
    ensures
        s.i2c_twcr_write(value).wf(),
        s.i2c_op(bus).0.wf(),
        s.i2c_op(bus).0.cpu.cycles == s.cpu.cycles,
{
    let twcr = s.i2c.config.TWCR as int;
    let stored = s.cpu.with_data(twcr, value);
    lemma_same_frame_wf(s.cpu, stored);
    lemma_clear_interrupt(stored, s.i2c.twi, true);
    let cleared = stored.clear_interrupt_by_flag(s.i2c.twi, value);
    lemma_update_interrupt_enable_wf(cleared, s.i2c.twi, value);
    lemma_add_clock_event_wf(
        cleared.update_interrupt_enable(s.i2c.twi, value),
        AVRClockEventCallback::I2COperation,
        0,
        AVRClockEventType::I2C,
    );
    lemma_add_clock_event_wf(
        s.cpu,
        AVRClockEventCallback::I2COperation,
        0,
        AVRClockEventType::I2C,
    );
    let stopped = s.cpu.with_data(twcr, s.cpu.data[twcr] & !TWCR_TWSTO);
    lemma_same_frame_wf(s.cpu, stopped);
    assert forall|status: u8| (#[trigger] s.i2c.reported(s.cpu, status)).wf() by {
        lemma_reported_wf(s, s.cpu, status);
    }
    assert forall|status: u8| (#[trigger] s.i2c.reported(stopped, status)).wf() by {
        lemma_reported_wf(s, stopped, status);
    }
    match bus {
        Some(b) => {
            let latched = s.cpu.with_data(s.i2c.config.TWDR as int, b.data);
            lemma_same_frame_wf(s.cpu, latched);
            assert forall|status: u8| (#[trigger] s.i2c.reported(latched, status)).wf() by {
                lemma_reported_wf(s, latched, status);
            }
        },
        None => {},
    }
}

/// The events of the EEPROM keep the invariant of the device.
pub proof fn lemma_eeprom_events_wf(s: DeviceState)
    requires
        s.wf(),
    ensures
        s.eeprom_master_write_expire().wf(),
        s.eeprom_write_done().wf(),
{
    let eecr = s.eeprom.config.EECR as int;
    lemma_same_frame_wf(
        s.cpu,
        s.cpu.with_data(eecr, s.cpu.data[eecr] & !EEMPE),
    );
    lemma_set_interrupt_flag_wf(s.cpu, s.eeprom.eer);
}

/// The write to EECR keeps the invariant of the device.
pub proof fn lemma_eeprom_wf(s: DeviceState, value: u8)
    requires
        s.wf(),
        s.headroom(MAX_EVENT_DELAY as int + 8),
    ensures
        s.eeprom_eecr_write(value).wf(),
{
    let eecr = s.eeprom.config.EECR as int;
    let stored = s.cpu.with_data(
        eecr,
        (s.cpu.data[eecr] & !EECR_WRITE_MASK) | (value
            & EECR_WRITE_MASK),
    );
    lemma_same_frame_wf(s.cpu, stored);
    lemma_update_interrupt_enable_wf(stored, s.eeprom.eer, value);
    let enabled = stored.update_interrupt_enable(s.eeprom.eer, value);
    lemma_clear_interrupt(enabled, s.eeprom.eer, true);
    let read = if value & EERE != 0 {
        enabled.clear_interrupt(s.eeprom.eer, true)
    } else {
        enabled
    };
    lemma_add_clock_event_wf(
        read,
        AVRClockEventCallback::EepromMasterWriteExpire,
        EEMPE_CYCLES,
        AVRClockEventType::EEPROMFinish,
    );
    let c = s.eeprom_control(value);
    assert(c.wf());
    lemma_same_frame_wf(c.cpu, c.cpu.with_data(eecr, c.cpu.data[eecr] & !EEPE));
    let busy = c.cpu.with_data(eecr, c.cpu.data[eecr] | EEPE);
    lemma_same_frame_wf(c.cpu, busy);
    let erase: int = if value & EEPM1 == 0 {
        s.eeprom.config.erase_cycles as int
    } else {
        0
    };
    let write: int = if value & EEPM0 == 0 {
        s.eeprom.config.write_cycles as int
    } else {
        0
    };
    lemma_add_clock_event_wf(
        busy,
        AVRClockEventCallback::EepromWriteDone,
        (erase + write) as u32,
        AVRClockEventType::EEPROMWriteComplete,
    );
    let scheduled = busy.add_clock_event(
        AVRClockEventCallback::EepromWriteDone,
        (erase + write) as u32,
        AVRClockEventType::EEPROMWriteComplete,
    );
    lemma_same_frame_wf(scheduled, scheduled.with_cycles((c.cpu.cycles + 2) as u32));
}

/// A write keeps the invariant of the device.
pub proof fn lemma_write_wf(s: DeviceState, addr: u16, value: u8, mask: u8)
    requires
        s.wf(),
        s.write_defined(addr, value),
    ensures
        s.write_data_with_mask(addr, value, mask).wf(),
{
    reveal(DeviceState::write_data_with_mask);
    reveal(DeviceState::write_defined);
    if s.write_hooked(addr) {
        let hook = s.write_hooks[addr];
        let old_value = s.cpu.data[addr as int];
        assert(s.write_hooks.contains_key(addr));
        lemma_timer_writes_wf(s, value);
        lemma_usart_wf(s, value, old_value);
        lemma_i2c_wf(s, value, None);
        lemma_eeprom_wf(s, value);
        match hook {
            PeripheralMemoryWriteHook::PortDirection(id) => {
                lemma_port_wf(s, id as int, value);
            },
            PeripheralMemoryWriteHook::PortData(id) => {
                lemma_port_wf(s, id as int, value);
            },
            _ => {},
        }
        let after = s.run_write_hook(hook, value, old_value, addr, mask).0;
        assert(after.wf());
        lemma_same_frame_wf(after.cpu, after.cpu.with_data(addr as int, value));
    } else {
        lemma_same_frame_wf(s.cpu, s.cpu.with_data(addr as int, value));
    }
}

/// A tick keeps the invariant of the device.
pub proof fn lemma_tick_wf(s: DeviceState, bus: Option<I2CBus>)
    requires
        s.wf(),
        s.tick_defined(bus),
    ensures
        s.tick(bus).0.wf(),
{
    let fired = s.fire_due_event(bus).0;
    if s.event_due() {
        let popped = s.pop_event();
        assert forall|i: int, j: int| 0 <= i <= j < popped.cpu.events.len() implies popped.cpu.events[i].cycles
            <= popped.cpu.events[j].cycles by {
            assert(s.cpu.events[i + 1].cycles <= s.cpu.events[j + 1].cycles);
        }
        assert(popped.wf());
        lemma_count_wf(popped, true, false);
        lemma_usart_wf(popped, 0, 0);
        lemma_i2c_wf(popped, 0, bus);
        lemma_eeprom_events_wf(popped);
    }
    assert(fired.wf());
    if fired.interrupt_due() {
        lemma_lowest_pending(fired.cpu.pending);
        let interrupt = fired.cpu.pending[fired.cpu.next_interrupt as int]->0;
        let entered = fired.cpu.avr_interrupt(interrupt.address);
        lemma_same_frame_wf(fired.cpu, entered);
        lemma_clear_interrupt(entered, interrupt, true);
    }
}

/// An instruction keeps the invariant of the device.
pub proof fn lemma_instruction_wf(s: DeviceState)
    requires
        s.wf(),
        s.instruction_defined(),
    ensures
        s.avr_instruction().wf(),
{
    let opcode = s.opcode();
    let insn = decode_spec(opcode)->0;
    lemma_instruction_classes(insn);
    lemma_operand_bounds(opcode);
    let done = s.execute(insn, opcode).0;
    if is_memory_op(insn) {
        lemma_memory_wf(s, insn, opcode);
        lemma_memory_cycles(s, insn, opcode);
    } else {
        if is_register_op(insn) {
            assert(s.cpu.same_frame(s.cpu.register_op(insn, opcode)));
            assert(s.cpu.cycles <= s.cpu.register_op(insn, opcode).cycles);
        } else if is_flow_op(insn) {
            assert(s.cpu.same_frame(s.cpu.flow_op(insn, opcode).0));
            assert(s.cpu.cycles <= s.cpu.flow_op(insn, opcode).0.cycles);
        } else {
            assert(s.cpu.same_frame(s.cpu.transfer_op(insn, opcode)));
            assert(s.cpu.cycles <= s.cpu.transfer_op(insn, opcode).cycles);
        }
        lemma_same_frame_wf(s.cpu, done.cpu);
        assert(done.wf());
    }
    assert(done.wf());
    lemma_instruction_advances_cycles(s);
    lemma_same_frame_wf(done.cpu, s.avr_instruction().cpu);
}

/// A memory instruction keeps the invariant of the device.
pub proof fn lemma_memory_wf(s: DeviceState, insn: Instruction, opcode: u16)
    requires
        s.wf(),
        s.headroom(MAX_EVENT_DELAY as int + 16),
        is_memory_op(insn),
        s.memory_defined(insn, opcode),
    ensures
        s.memory_op(insn, opcode).0.wf(),
{
    lemma_operand_bounds(opcode);
    lemma_memory_cycles(s, insn, opcode);
    let q = displacement(opcode);
    let d = rd5(opcode) as int;
    let mask = 1u8 << bit3(opcode);
    if indirect_load(insn) is Some {
        let (ptr, mode) = indirect_load(insn)->0;
        let addr = s.effective_address(ptr as int, mode, q) as u16;
        let before = if mode == AddressMode::PreDecrement {
            s.with_pointer(ptr as int, addr).add_cycles(2)
        } else {
            s.add_cycles(1)
        };
        lemma_same_frame_wf(s.cpu, before.cpu);
        lemma_read_wf(before, addr);
        lemma_read_keeps_cycles(before, addr);
        let read = before.read_data(addr);
        lemma_same_frame_wf(read.0.cpu, s.load_indirect(d, ptr as int, mode, q).cpu);
    } else if indirect_store(insn) is Some {
        let (ptr, mode) = indirect_store(insn)->0;
        let addr = s.effective_address(ptr as int, mode, q) as u16;
        let ready = s.store_ready(ptr as int, mode, q);
        lemma_same_frame_wf(s.cpu, ready.cpu);
        lemma_write_wf(ready, addr, s.cpu.data[d], 0xff);
        lemma_write_cycles(ready, addr, s.cpu.data[d], 0xff);
        let written = ready.write_data_with_mask(addr, s.cpu.data[d], 0xff);
        lemma_same_frame_wf(written.cpu, s.store_indirect(d, ptr as int, mode, q).cpu);
    } else {
        let read = s.read_data(io5(opcode));
        lemma_read_wf(s, io5(opcode));
        lemma_read_keeps_cycles(s, io5(opcode));
        match insn {
            Instruction::IN => {
                lemma_read_wf(s, io6(opcode));
                lemma_read_keeps_cycles(s, io6(opcode));
                lemma_same_frame_wf(s.read_data(io6(opcode)).0.cpu, s.memory_op(insn, opcode).0.cpu);
            },
            Instruction::OUT => {
                lemma_write_wf(s, io6(opcode), s.cpu.data[d], 0xff);
            },
            Instruction::LDS => {
                let later = s.add_cycles(1);
                lemma_same_frame_wf(s.cpu, later.cpu);
                lemma_read_wf(later, s.cpu.second_word());
                lemma_read_keeps_cycles(later, s.cpu.second_word());
                lemma_same_frame_wf(
                    later.read_data(s.cpu.second_word()).0.cpu,
                    s.memory_op(insn, opcode).0.cpu,
                );
            },
            Instruction::STS => {
                lemma_write_wf(s, s.cpu.second_word(), s.cpu.data[d], 0xff);
                lemma_write_cycles(s, s.cpu.second_word(), s.cpu.data[d], 0xff);
                let written = s.write_data_with_mask(s.cpu.second_word(), s.cpu.data[d], 0xff);
                lemma_same_frame_wf(written.cpu, written.add_cycles(1).cpu);
            },
            Instruction::SBI => {
                lemma_write_wf(read.0, io5(opcode), read.1 | mask, mask);
                lemma_write_cycles(read.0, io5(opcode), read.1 | mask, mask);
                let written = read.0.write_data_with_mask(io5(opcode), read.1 | mask, mask);
                lemma_same_frame_wf(written.cpu, written.add_cycles(1).cpu);
            },
            Instruction::CBI => {
                lemma_write_wf(read.0, io5(opcode), read.1 & !mask, mask);
            },
            Instruction::SBIC | Instruction::SBIS => {
                lemma_same_frame_wf(read.0.cpu, s.memory_op(insn, opcode).0.cpu);
            },
            _ => {},
        }
    }
}

/// The invariant of the device holds after every step.
pub proof fn lemma_step_wf(s: DeviceState, bus: Option<I2CBus>)
    requires
        s.wf(),
        s.step_defined(bus),
    ensures
        s.step(bus).0.wf(),
{
    lemma_instruction_wf(s);
    lemma_tick_wf(s.avr_instruction(), bus);
}

} // verus!
