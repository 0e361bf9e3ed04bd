use vstd::prelude::*;
use crate::clock::{
    cancel, has_kind, insertion_index, lemma_cancel_sorted, lemma_insertion_index,
    lemma_schedule_sorted, schedule, events_sorted, AVRClockEventCallback, AVRClockEventEntry,
    AVRClockEventType,
};
use crate::interrupt::{AVRInterruptConfig, MAX_INTERRUPTS};
use crate::peripheral::timer::TIMER_0_CONFIG;

verus! {

/// Bytes of SRAM behind the register file and the I/O space.
pub const SRAM_BYTES: usize = 2048;

/// Bytes taken by the 32 registers and the I/O registers.
pub const REGISTER_SPACE: usize = 0x100;

/// Size of the unified data space.
pub const DATA_SIZE: usize = SRAM_BYTES + REGISTER_SPACE;

/// Address of the stack pointer's low byte; the high byte follows.
pub const SP: u16 = 93;

/// Address of the status register.
pub const SREG: u16 = 95;

/// Longest delay, in cycles, that a peripheral of this device schedules.
pub const MAX_EVENT_DELAY: u32 = 0x100_0000;

pub struct CPU {
    /// Registers r0..r31, I/O registers, then SRAM.
    pub data: Vec<u8>,
    /// The program as 16-bit words, indexed by `pc`.
    pub prog_mem: Vec<u16>,
    /// The program as bytes.
    pub prog_bytes: Vec<u8>,
    pub pc: u32,
    pub cycles: u32,
    /// One slot per vector; an occupied slot is a pending interrupt.
    pub pending_interrupts: [Option<AVRInterruptConfig>; 128],
    /// Scheduled events, soonest first.
    pub clock_events: Vec<AVRClockEventEntry>,
    /// Whether calls and returns move a 3-byte return address.
    pub pc_22_bits: bool,
    /// Lowest pending vector, or -1.
    pub next_interrupt: i16,
    /// No vector above this one is pending.
    pub max_interrupt: i16,
}

/// The mathematical value of a `CPU`.
pub struct CpuState {
    pub data: Seq<u8>,
    pub prog_mem: Seq<u16>,
    pub prog_bytes: Seq<u8>,
    pub pc: u32,
    pub cycles: u32,
    pub pending: Seq<Option<AVRInterruptConfig>>,
    pub events: Seq<AVRClockEventEntry>,
    pub pc_22_bits: bool,
    pub next_interrupt: i16,
    pub max_interrupt: i16,
}

impl View for CPU {
    type V = CpuState;

    open spec fn view(&self) -> CpuState {
        CpuState {
            data: self.data@,
            prog_mem: self.prog_mem@,
            prog_bytes: self.prog_bytes@,
            pc: self.pc,
            cycles: self.cycles,
            pending: self.pending_interrupts@,
            events: self.clock_events@,
            pc_22_bits: self.pc_22_bits,
            next_interrupt: self.next_interrupt,
            max_interrupt: self.max_interrupt,
        }
    }
}

/// The first occupied slot at or after `from`, or -1.
pub open spec fn first_pending_from(p: Seq<Option<AVRInterruptConfig>>, from: int) -> int
    decreases p.len() - from,
{
    if from < 0 || from >= p.len() {
        -1
    } else if p[from] is Some {
        from
    } else {
        first_pending_from(p, from + 1)
    }
}

/// The lowest pending vector, or -1 when none is pending.
pub open spec fn lowest_pending(p: Seq<Option<AVRInterruptConfig>>) -> int {
    first_pending_from(p, 0)
}

/// Skipping empty slots does not change the first occupied one.
pub proof fn lemma_first_pending_skip(p: Seq<Option<AVRInterruptConfig>>, from: int, to: int)
    requires
        0 <= from <= to <= p.len(),
        forall|j: int| from <= j < to ==> p[j] is None,
    ensures
        first_pending_from(p, from) == first_pending_from(p, to),
        to < p.len() && p[to] is Some ==> first_pending_from(p, from) == to,
        to == p.len() ==> first_pending_from(p, from) == -1,
    decreases to - from,
{
    if from < to {
        lemma_first_pending_skip(p, from + 1, to);
    }
}

/// What the lowest pending vector is: every slot below it is empty and its
/// own slot is occupied; -1 means that every slot is empty.
pub proof fn lemma_lowest_pending(p: Seq<Option<AVRInterruptConfig>>)
    ensures
        -1 <= lowest_pending(p) < p.len(),
        lowest_pending(p) >= 0 ==> p[lowest_pending(p)] is Some,
        forall|j: int| 0 <= j < p.len() && (j < lowest_pending(p) || lowest_pending(p) == -1) ==> p[j] is None,
{
    lemma_first_pending_bounds(p, 0);
}

proof fn lemma_first_pending_bounds(p: Seq<Option<AVRInterruptConfig>>, from: int)
    requires
        0 <= from,
    ensures
        first_pending_from(p, from) == -1 || from <= first_pending_from(p, from) < p.len(),
        first_pending_from(p, from) >= 0 ==> p[first_pending_from(p, from)] is Some,
        forall|j: int|
            from <= j < p.len() && (j < first_pending_from(p, from) || first_pending_from(p, from)
                == -1) ==> p[j] is None,
    decreases p.len() - from,
{
    if from < p.len() && p[from] is None {
        lemma_first_pending_bounds(p, from + 1);
    }
}

/// The 16-bit words of a program image, low byte first.
pub open spec fn words_of(bytes: Seq<u8>) -> Seq<u16> {
    Seq::new(bytes.len() / 2, |i: int| (bytes[2 * i] + 256 * bytes[2 * i + 1]) as u16)
}

impl CpuState {
    /// The state right after power-up with the given program image.
    pub open spec fn initial(prog_bytes: Seq<u8>) -> CpuState {
        CpuState {
            data: Seq::new(DATA_SIZE as nat, |i: int| 0u8),
            prog_mem: words_of(prog_bytes),
            prog_bytes,
            pc: 0,
            cycles: 0,
            pending: Seq::new(MAX_INTERRUPTS as nat, |i: int| None),
            events: Seq::empty(),
            pc_22_bits: prog_bytes.len() > 0x20000,
            next_interrupt: -1i16,
            max_interrupt: 0,
        }.reset()
    }

    /// Stack pointer at the last byte of SRAM, program counter at 0, nothing
    /// pending and nothing scheduled.
    pub open spec fn reset(self) -> CpuState {
        CpuState {
            pc: 0,
            pending: Seq::new(MAX_INTERRUPTS as nat, |i: int| None),
            next_interrupt: -1i16,
            events: Seq::empty(),
            ..self.with_word(SP as int, (self.data.len() - 1) as u16)
        }
    }

    /// The invariant of the CPU state.
    pub open spec fn wf(self) -> bool {
        &&& self.data.len() == DATA_SIZE
        &&& self.pending.len() == MAX_INTERRUPTS
        &&& events_sorted(self.events)
        &&& self.next_interrupt == lowest_pending(self.pending)
        &&& 0 <= self.max_interrupt < MAX_INTERRUPTS
        &&& forall|i: int|
            0 <= i < self.pending.len() && self.pending[i] is Some ==> i <= self.max_interrupt && (
            #[trigger] self.pending[i])->0.address == i && self.pending[i]->0.fits(DATA_SIZE as int)
    }

    /// `other` differs from this state at most in the contents of the data
    /// space, the program counter and the cycle counter.
    pub open spec fn same_frame(self, other: CpuState) -> bool {
        &&& other.data.len() == self.data.len()
        &&& other.prog_mem == self.prog_mem
        &&& other.prog_bytes == self.prog_bytes
        &&& other.pending == self.pending
        &&& other.events == self.events
        &&& other.pc_22_bits == self.pc_22_bits
        &&& other.next_interrupt == self.next_interrupt
        &&& other.max_interrupt == self.max_interrupt
    }

    /// The little-endian 16-bit value at `addr` and `addr + 1`.
    pub open spec fn word(self, addr: int) -> u16 {
        (self.data[addr] + 256 * self.data[addr + 1]) as u16
    }

    pub open spec fn sp(self) -> u16 {
        self.word(SP as int)
    }

    pub open spec fn sreg(self) -> u8 {
        self.data[SREG as int]
    }

    /// SREG.I, the global interrupt enable.
    pub open spec fn interrupts_enabled(self) -> bool {
        self.sreg() & 0x80 != 0
    }

    pub open spec fn with_data(self, addr: int, value: u8) -> CpuState {
        CpuState { data: self.data.update(addr, value), ..self }
    }

    pub open spec fn with_word(self, addr: int, value: u16) -> CpuState {
        CpuState {
            data: self.data.update(addr, (value % 256) as u8).update(
                addr + 1,
                (value / 256) as u8,
            ),
            ..self
        }
    }

    pub open spec fn with_sreg(self, value: u8) -> CpuState {
        self.with_data(SREG as int, value)
    }

    pub open spec fn with_pc(self, pc: u32) -> CpuState {
        CpuState { pc, ..self }
    }

    pub open spec fn with_cycles(self, cycles: u32) -> CpuState {
        CpuState { cycles, ..self }
    }

    /// The absolute cycle at which an event scheduled now with `delay` fires.
    pub open spec fn due(self, delay: u32) -> int {
        self.cycles + (if delay < 1 { 1int } else { delay as int })
    }

    /// `schedule(kind, delay, callback)`.
    pub open spec fn add_clock_event(
        self,
        callback: AVRClockEventCallback,
        delay: u32,
        event_type: AVRClockEventType,
    ) -> CpuState {
        CpuState {
            events: schedule(
                self.events,
                AVRClockEventEntry { cycles: self.due(delay) as u32, callback, event_type },
            ),
            ..self
        }
    }

    /// `cancel(kind)`.
    pub open spec fn clear_clock_event(self, event_type: AVRClockEventType) -> CpuState {
        CpuState { events: cancel(self.events, event_type), ..self }
    }

    /// Reschedule: if an event of the kind was queued, all of that kind are
    /// replaced by one new event; otherwise nothing changes.
    pub open spec fn update_clock_event(
        self,
        callback: AVRClockEventCallback,
        event_type: AVRClockEventType,
        delay: u32,
    ) -> CpuState {
        if has_kind(self.events, event_type) {
            self.clear_clock_event(event_type).add_clock_event(callback, delay, event_type)
        } else {
            self
        }
    }

    /// Marks the vector of `interrupt` pending.
    pub open spec fn queue_interrupt(self, interrupt: AVRInterruptConfig) -> CpuState {
        let pending = self.pending.update(interrupt.address as int, Some(interrupt));
        CpuState {
            pending,
            next_interrupt: lowest_pending(pending) as i16,
            max_interrupt: if interrupt.address > self.max_interrupt {
                interrupt.address as i16
            } else {
                self.max_interrupt
            },
            ..self
        }
    }

    /// Empties the vector's slot; with `clear_flag` the flag bits are cleared
    /// in the flag register as well.
    pub open spec fn clear_interrupt(self, interrupt: AVRInterruptConfig, clear_flag: bool) -> CpuState {
        let pending = self.pending.update(interrupt.address as int, None);
        let fr = interrupt.flag_register as int;
        CpuState {
            data: if clear_flag {
                self.data.update(fr, self.data[fr] & !interrupt.flag_mask)
            } else {
                self.data
            },
            pending,
            next_interrupt: lowest_pending(pending) as i16,
            ..self
        }
    }

    /// Raises the flag of `interrupt` (for an inverse flag: clears the bits)
    /// and queues the vector if the source is enabled.
    pub open spec fn set_interrupt_flag(self, interrupt: AVRInterruptConfig) -> CpuState {
        let fr = interrupt.flag_register as int;
        let flagged = self.with_data(
            fr,
            if interrupt.inverse_flag {
                self.data[fr] & !interrupt.flag_mask
            } else {
                self.data[fr] | interrupt.flag_mask
            },
        );
        if flagged.data[interrupt.enable_register as int] & interrupt.enable_mask != 0 {
            flagged.queue_interrupt(interrupt)
        } else {
            flagged
        }
    }

    /// Whether the flag of `interrupt` is raised.
    pub open spec fn flag_raised(self, interrupt: AVRInterruptConfig) -> bool {
        let bits = self.data[interrupt.flag_register as int] & interrupt.flag_mask;
        if interrupt.inverse_flag {
            bits == 0
        } else {
            bits != 0
        }
    }

    /// Follows a write of `register_value` to the enable register: an enabled
    /// source with a raised flag becomes pending, a disabled source stops
    /// being pending and keeps its flag.
    pub open spec fn update_interrupt_enable(self, interrupt: AVRInterruptConfig, register_value: u8) -> CpuState {
        if register_value & interrupt.enable_mask != 0 {
            if self.flag_raised(interrupt) {
                self.queue_interrupt(interrupt)
            } else {
                self
            }
        } else {
            self.clear_interrupt(interrupt, false)
        }
    }

    /// Follows a write of `register_value` to the flag register: writing a
    /// one to the flag bits clears the flag and the pending vector.
    pub open spec fn clear_interrupt_by_flag(self, interrupt: AVRInterruptConfig, register_value: u8) -> CpuState {
        if register_value & interrupt.flag_mask != 0 {
            self.clear_interrupt(interrupt, true)
        } else {
            self
        }
    }
}

/// The invariant does not depend on what the data space holds, nor on the
/// program counter or the cycle counter.
pub proof fn lemma_same_frame_wf(a: CpuState, b: CpuState)
    requires
        a.wf(),
        a.same_frame(b),
    ensures
        b.wf(),
{
}

/// Queueing a valid descriptor keeps the invariant and makes the lowest
/// pending vector the smaller of the old one and the new one.
pub proof fn lemma_queue_interrupt(c: CpuState, interrupt: AVRInterruptConfig)
    requires
        c.wf(),
        interrupt.fits(DATA_SIZE as int),
    ensures
        c.queue_interrupt(interrupt).wf(),
        c.queue_interrupt(interrupt).next_interrupt == (if c.next_interrupt == -1
            || c.next_interrupt > interrupt.address {
            interrupt.address as i16
        } else {
            c.next_interrupt
        }),
{
    let p = c.pending;
    let a = interrupt.address as int;
    let q = p.update(a, Some(interrupt));
    lemma_lowest_pending(p);
    lemma_lowest_pending(q);
    let n = lowest_pending(p);
    let m = lowest_pending(q);
    if n == -1 || n > a {
        if m != a {
            if m > a {
                assert(q[a] is None);
            } else {
                if m >= 0 {
                    assert(q[m] == p[m]);
                    assert(p[m] is None);
                }
            }
        }
    } else {
        assert(q[n] is Some);
        if m < n {
            if m >= 0 {
                assert(q[m] is Some);
                assert(p[m] is None);
            } else {
                assert(q[n] is None);
            }
        } else if m > n {
            assert(q[n] is None);
        }
    }
    let r = c.queue_interrupt(interrupt);
    assert forall|i: int| 0 <= i < r.pending.len() && r.pending[i] is Some implies i
        <= r.max_interrupt && (#[trigger] r.pending[i])->0.address == i && r.pending[i]->0.fits(
        DATA_SIZE as int,
    ) by {
        if i != a {
            assert(p[i] is Some);
        }
    }
}

/// Clearing a vector keeps the invariant.
pub proof fn lemma_clear_interrupt(c: CpuState, interrupt: AVRInterruptConfig, clear_flag: bool)
    requires
        c.wf(),
        interrupt.fits(DATA_SIZE as int),
    ensures
        c.clear_interrupt(interrupt, clear_flag).wf(),
        c.clear_interrupt(interrupt, clear_flag).pending[interrupt.address as int] is None,
{
    let r = c.clear_interrupt(interrupt, clear_flag);
    lemma_lowest_pending(r.pending);
    assert forall|i: int| 0 <= i < r.pending.len() && r.pending[i] is Some implies i
        <= r.max_interrupt && (#[trigger] r.pending[i])->0.address == i && r.pending[i]->0.fits(
        DATA_SIZE as int,
    ) by {
        assert(c.pending[i] is Some);
    }
}

/// A source whose enable bit is written as zero stops being pending, and
/// its flag is not touched.
pub proof fn lemma_disable_clears_pending(
    c: CpuState,
    interrupt: AVRInterruptConfig,
    register_value: u8,
)
    requires
        c.wf(),
        interrupt.fits(DATA_SIZE as int),
        register_value & interrupt.enable_mask == 0,
    ensures
        c.update_interrupt_enable(interrupt, register_value).pending[interrupt.address as int]
            is None,
        c.update_interrupt_enable(interrupt, register_value).data == c.data,
        c.update_interrupt_enable(interrupt, register_value).wf(),
{
    lemma_clear_interrupt(c, interrupt, false);
}

impl CPU {
    /// A CPU at power-up with the given program image, whose length must be
    /// even: the image is read as 16-bit words.
    pub fn new(prog_bytes: Vec<u8>) -> (cpu: Self)
        requires
            prog_bytes@.len() % 2 == 0,
        ensures
            cpu@ == CpuState::initial(prog_bytes@),
            cpu@.wf(),
    {
        let n: usize = prog_bytes.len() / 2;
        let mut prog_mem: Vec<u16> = Vec::new();
        let mut i: usize = 0;
        while i < n
            invariant
                prog_bytes.len() == 2 * n,
                0 <= i <= n,
                prog_mem@.len() == i,
                forall|k: int| 0 <= k < i ==> prog_mem@[k] == words_of(prog_bytes@)[k],
            decreases n - i,
        {
            let lo: u16 = prog_bytes[2 * i] as u16;
            let hi: u16 = prog_bytes[2 * i + 1] as u16;
            prog_mem.push(lo + 256 * hi);
            i += 1;
        }
        assert(prog_mem@ =~= words_of(prog_bytes@));
        let pc_22_bits = prog_bytes.len() > 0x20000;
        let data: Vec<u8> = vec![0u8; DATA_SIZE];
        assert(data@ =~= Seq::new(DATA_SIZE as nat, |i: int| 0u8));
        let mut cpu = CPU {
            data,
            prog_mem,
            prog_bytes,
            pc: 0,
            cycles: 0,
            pending_interrupts: [None; 128],
            clock_events: Vec::new(),
            pc_22_bits,
            next_interrupt: -1,
            max_interrupt: 0,
        };
        cpu.reset();
        proof {
            assert(cpu@.pending =~= Seq::new(MAX_INTERRUPTS as nat, |i: int| None));
            assert(cpu@.events =~= Seq::empty());
        }
        cpu
    }

    /// Back to the power-up state; data memory other than the stack pointer
    /// keeps its contents.
    pub fn reset(&mut self)
        requires
            2 <= old(self).data@.len() <= 0x10000,
            SP + 1 < old(self).data@.len(),
        ensures
            final(self)@ == old(self)@.reset(),
            old(self).data@.len() == DATA_SIZE && 0 <= old(self).max_interrupt < MAX_INTERRUPTS
                ==> final(self)@.wf(),
    {
        let top: u16 = (self.data.len() - 1) as u16;
        self.set_sp(top);
        self.pc = 0;
        self.pending_interrupts = [None; 128];
        self.next_interrupt = -1;
        self.clock_events = Vec::new();
        proof {
            assert(self@.pending =~= Seq::new(MAX_INTERRUPTS as nat, |i: int| None));
            assert(self@.events =~= Seq::<AVRClockEventEntry>::empty());
            lemma_first_pending_skip(self@.pending, 0, MAX_INTERRUPTS as int);
        }
    }

    pub fn set_sp(&mut self, data: u16)
        requires
            SP + 1 < old(self).data@.len(),
        ensures
            final(self)@ == old(self)@.with_word(SP as int, data),
    {
        self.set_data_u16(SP, data);
    }

    pub fn get_data(&self, addr: u16) -> (r: u8)
        requires
            addr < self@.data.len(),
        ensures
            r == self@.data[addr as int],
    {
        self.data[addr as usize]
    }

    pub fn set_data(&mut self, addr: u16, data: u8)
        requires
            addr < old(self)@.data.len(),
        ensures
            final(self)@ == old(self)@.with_data(addr as int, data),
    {
        self.data[addr as usize] = data;
    }

    /// The 16-bit value at `addr`, low byte first.
    pub fn get_data_u16(&self, addr: u16) -> (r: u16)
        requires
            addr + 1 < self@.data.len(),
        ensures
            r == self@.word(addr as int),
    {
        let lo: u16 = self.data[addr as usize] as u16;
        let hi: u16 = self.data[addr as usize + 1] as u16;
        lo + 256 * hi
    }

    pub fn set_data_u16(&mut self, addr: u16, data: u16)
        requires
            addr + 1 < old(self)@.data.len(),
        ensures
            final(self)@ == old(self)@.with_word(addr as int, data),
    {
        self.data[addr as usize] = (data % 256) as u8;
        self.data[addr as usize + 1] = (data / 256) as u8;
    }

    /// Schedules `callback` to fire `max(1, cycles)` cycles from now.
    pub fn add_clock_event(
        &mut self,
        callback: AVRClockEventCallback,
        cycles: u32,
        event_type: AVRClockEventType,
    )
        requires
            events_sorted(old(self)@.events),
            old(self)@.due(cycles) <= u32::MAX,
        ensures
            final(self)@ == old(self)@.add_clock_event(callback, cycles, event_type),
            events_sorted(final(self)@.events),
            old(self)@.wf() ==> final(self)@.wf(),
    {
        let due: u32 = self.cycles + (if cycles < 1 { 1 } else { cycles });
        let entry = AVRClockEventEntry { cycles: due, callback, event_type };
        let n: usize = self.clock_events.len();
        let mut idx: usize = 0;
        while idx < n && self.clock_events[idx].cycles <= due
            invariant
                n == self.clock_events@.len(),
                0 <= idx <= n,
                self.clock_events@ == old(self)@.events,
                events_sorted(self.clock_events@),
                forall|i: int| 0 <= i < idx ==> self.clock_events@[i].cycles <= due,
            decreases n - idx,
        {
            idx += 1;
        }
        proof {
            let s = self.clock_events@;
            lemma_insertion_index(s, due);
            let k = insertion_index(s, due);
            if idx < k {
                assert(s[idx as int].cycles <= due);
            } else if idx > k {
                assert(s[k].cycles > due);
            }
            lemma_schedule_sorted(s, entry);
        }
        self.clock_events.insert(idx, entry);
    }

    /// Removes every scheduled event of the kind; tells whether there was one.
    pub fn clear_clock_event(&mut self, event_type: AVRClockEventType) -> (found: bool)
        requires
            events_sorted(old(self)@.events),
        ensures
            final(self)@ == old(self)@.clear_clock_event(event_type),
            found == has_kind(old(self)@.events, event_type),
            events_sorted(final(self)@.events),
            old(self)@.wf() ==> final(self)@.wf(),
    {
        let n: usize = self.clock_events.len();
        let mut kept: Vec<AVRClockEventEntry> = Vec::new();
        let mut found = false;
        let mut i: usize = 0;
        while i < n
            invariant
                n == self.clock_events@.len(),
                0 <= i <= n,
                self.clock_events@ == old(self)@.events,
                kept@ == cancel(self.clock_events@.take(i as int), event_type),
                found == has_kind(self.clock_events@.take(i as int), event_type),
            decreases n - i,
        {
            let e = self.clock_events[i];
            proof {
                let s = self.clock_events@;
                let t = s.take(i as int + 1);
                assert(t.drop_last() =~= s.take(i as int));
                assert(t.last() == e);
                if has_kind(s.take(i as int), event_type) {
                    let k = choose|k: int|
                        0 <= k < s.take(i as int).len() && #[trigger] s.take(
                            i as int,
                        )[k].event_type == event_type;
                    assert(t[k].event_type == event_type);
                }
                if e.event_type == event_type {
                    assert(t[i as int].event_type == event_type);
                } else if has_kind(t, event_type) {
                    let k = choose|k: int|
                        0 <= k < t.len() && #[trigger] t[k].event_type == event_type;
                    assert(s.take(i as int)[k].event_type == event_type);
                }
            }
            if e.event_type == event_type {
                found = true;
            } else {
                kept.push(e);
            }
            i += 1;
        }
        proof {
            assert(self.clock_events@.take(n as int) =~= self.clock_events@);
            lemma_cancel_sorted(self.clock_events@, event_type);
        }
        self.clock_events = kept;
        found
    }

    /// Reschedules the events of a kind, if there are any.
    pub fn update_clock_event(
        &mut self,
        callback: AVRClockEventCallback,
        event_type: AVRClockEventType,
        cycles: u32,
    ) -> (found: bool)
        requires
            events_sorted(old(self)@.events),
            old(self)@.due(cycles) <= u32::MAX,
        ensures
            final(self)@ == old(self)@.update_clock_event(callback, event_type, cycles),
            found == has_kind(old(self)@.events, event_type),
            events_sorted(final(self)@.events),
            old(self)@.wf() ==> final(self)@.wf(),
    {
        if self.clear_clock_event(event_type) {
            self.add_clock_event(callback, cycles, event_type);
            return true;
        }
        proof {
            lemma_cancel_sorted(old(self)@.events, event_type);
        }
        false
    }

    /// The value of Timer0's control register B.
    pub fn timer0_tccrb(&self) -> (r: u8)
        requires
            self@.data.len() >= REGISTER_SPACE,
        ensures
            r == self@.data[TIMER_0_CONFIG().TCCRB as int],
    {
        self.get_data(TIMER_0_CONFIG().TCCRB as u16)
    }

    /// Timer0's clock-select bits.
    pub fn timer0_cs(&self) -> (r: u8)
        requires
            self@.data.len() >= REGISTER_SPACE,
        ensures
            r == self@.data[TIMER_0_CONFIG().TCCRB as int] & 0x7,
    {
        self.timer0_tccrb() & 0x7
    }

    pub fn set_interrupt_flag(&mut self, interrupt: AVRInterruptConfig)
        requires
            old(self)@.wf(),
            interrupt.fits(DATA_SIZE as int),
        ensures
            final(self)@ == old(self)@.set_interrupt_flag(interrupt),
            final(self)@.wf(),
    {
        let flag_register = interrupt.flag_register;
        let flag_mask = interrupt.flag_mask;
        if interrupt.inverse_flag {
            self.data[flag_register as usize] = self.data[flag_register as usize] & !flag_mask;
        } else {
            self.data[flag_register as usize] = self.data[flag_register as usize] | flag_mask;
        }
        if self.get_data(interrupt.enable_register) & interrupt.enable_mask != 0 {
            self.queue_interrupt(interrupt);
        }
    }

    pub fn update_interrupt_enable(&mut self, interrupt: AVRInterruptConfig, register_value: u8)
        requires
            old(self)@.wf(),
            interrupt.fits(DATA_SIZE as int),
        ensures
            final(self)@ == old(self)@.update_interrupt_enable(interrupt, register_value),
            final(self)@.wf(),
    {
        if register_value & interrupt.enable_mask != 0 {
            let bit_set = self.get_data(interrupt.flag_register) & interrupt.flag_mask;
            if (interrupt.inverse_flag && bit_set == 0) || (!interrupt.inverse_flag && bit_set
                != 0) {
                self.queue_interrupt(interrupt);
            }
        } else {
            self.clear_interrupt(&interrupt, false);
        }
    }

    pub fn clear_interrupt_by_flag(&mut self, interrupt: &AVRInterruptConfig, register_value: u8)
        requires
            old(self)@.wf(),
            interrupt.fits(DATA_SIZE as int),
        ensures
            final(self)@ == old(self)@.clear_interrupt_by_flag(*interrupt, register_value),
            final(self)@.wf(),
    {
        if register_value & interrupt.flag_mask != 0 {
            self.clear_interrupt(interrupt, true);
        }
    }

    pub fn queue_interrupt(&mut self, interrupt: AVRInterruptConfig)
        requires
            old(self)@.wf(),
            interrupt.fits(DATA_SIZE as int),
        ensures
            final(self)@ == old(self)@.queue_interrupt(interrupt),
            final(self)@.wf(),
    {
        proof {
            lemma_queue_interrupt(self@, interrupt);
        }
        let address = interrupt.address;
        self.pending_interrupts[address as usize] = Some(interrupt);
        let address = address as i16;
        if self.next_interrupt == -1 || self.next_interrupt > address {
            self.next_interrupt = address;
        }
        if address > self.max_interrupt {
            self.max_interrupt = address;
        }
    }

    pub fn clear_interrupt(&mut self, interrupt: &AVRInterruptConfig, clear_flag: bool)
        requires
            old(self)@.wf(),
            interrupt.fits(DATA_SIZE as int),
        ensures
            final(self)@ == old(self)@.clear_interrupt(*interrupt, clear_flag),
            final(self)@.wf(),
    {
        proof {
            lemma_clear_interrupt(self@, *interrupt, clear_flag);
            lemma_lowest_pending(self@.pending);
        }
        let address = interrupt.address;
        if clear_flag {
            self.data[interrupt.flag_register as usize] = self.data[interrupt.flag_register as usize]
                & !interrupt.flag_mask;
        }
        if self.pending_interrupts[address as usize].is_none() {
            assert(self@.pending =~= self@.pending.update(address as int, None));
            return ;
        }
        self.pending_interrupts[address as usize] = None;
        if self.next_interrupt == address as i16 {
            self.next_interrupt = -1;
            let ghost p = self@.pending;
            let last: u8 = self.max_interrupt as u8;
            let mut i: u8 = address;
            while i < last
                invariant
                    address == interrupt.address,
                    address <= i <= last < 128,
                    old(self)@.clear_interrupt(*interrupt, clear_flag).wf(),
                    self@.pending == p,
                    p == old(self)@.pending.update(address as int, None),
                    p.len() == 128,
                    self.next_interrupt == -1,
                    forall|j: int| 0 <= j <= i ==> p[j] is None,
                    self.data@ == old(self)@.clear_interrupt(*interrupt, clear_flag).data,
                    self.prog_mem == old(self).prog_mem,
                    self.prog_bytes == old(self).prog_bytes,
                    self.pc == old(self).pc,
                    self.cycles == old(self).cycles,
                    self.clock_events == old(self).clock_events,
                    self.pc_22_bits == old(self).pc_22_bits,
                    self.max_interrupt == old(self).max_interrupt,
                decreases last - i,
            {
                i += 1;
                if self.pending_interrupts[i as usize].is_some() {
                    self.next_interrupt = i as i16;
                    proof {
                        lemma_first_pending_skip(p, 0, i as int);
                    }
                    return ;
                }
            }
            proof {
                assert forall|j: int| 0 <= j < p.len() implies p[j] is None by {
                    if j > last {
                        if p[j] is Some {
                            assert(old(self)@.pending[j] is Some);
                        }
                    }
                }
                lemma_first_pending_skip(p, 0, p.len() as int);
            }
        } else {
            proof {
                let p0 = old(self)@.pending;
                let p = self@.pending;
                lemma_lowest_pending(p);
                let n = lowest_pending(p0);
                let m = lowest_pending(p);
                assert(p[n] == p0[n]);
                if m < n {
                    if m >= 0 {
                        assert(p0[m] is None);
                    } else {
                        assert(p[n] is None);
                    }
                } else if m > n {
                    assert(p[n] is None);
                }
            }
        }
    }

    pub fn sreg(&self) -> (r: u8)
        requires
            SREG < self@.data.len(),
        ensures
            r == self@.sreg(),
    {
        self.data[SREG as usize]
    }

    pub fn set_sreg(&mut self, data: u8)
        requires
            SREG < old(self)@.data.len(),
        ensures
            final(self)@ == old(self)@.with_sreg(data),
    {
        self.data[SREG as usize] = data;
    }

    pub fn interrupts_enabled(&self) -> (r: bool)
        requires
            SREG < self@.data.len(),
        ensures
            r == self@.interrupts_enabled(),
    {
        self.sreg() & 0x80 != 0
    }
}

} // verus!
