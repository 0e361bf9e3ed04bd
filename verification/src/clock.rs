use vstd::prelude::*;

verus! {

/// The kind of a scheduled clock event; `cancel` removes events by kind.
#[derive(Clone, Copy, Debug, PartialEq, Eq, Structural)]
pub enum AVRClockEventType {
    Count,
    USART,
    I2C,
    EEPROMFinish,
    EEPROMWriteComplete,
}

/// The action a clock event performs on the device when it fires.
#[derive(Clone, Copy, Debug, PartialEq, Eq, Structural)]
pub enum AVRClockEventCallback {
    /// Advance Timer0 and reschedule it.
    TimerCount,
    /// A USART frame has left the shift register.
    UsartTransmitComplete,
    /// Run one step of the two-wire master state machine.
    I2COperation,
    /// The EEPROM master-write-enable window has closed.
    EepromMasterWriteExpire,
    /// An EEPROM erase/write has finished.
    EepromWriteDone,
}

/// One entry of the event queue: `callback` fires once the cycle counter has
/// reached `cycles`.
#[derive(Clone, Copy, Debug, PartialEq, Eq, Structural)]
pub struct AVRClockEventEntry {
    pub cycles: u32,
    pub callback: AVRClockEventCallback,
    pub event_type: AVRClockEventType,
}

/// The queue is ordered by non-decreasing absolute cycle.
pub open spec fn events_sorted(s: Seq<AVRClockEventEntry>) -> bool {
    forall|i: int, j: int| 0 <= i <= j < s.len() ==> s[i].cycles <= s[j].cycles
}

/// Where a new event due at `cycles` goes: behind every queued event that is
/// due no later, so that events due at the same cycle fire in the order in
/// which they were scheduled.
pub open spec fn insertion_index(s: Seq<AVRClockEventEntry>, cycles: u32) -> int
    decreases s.len(),
{
    if s.len() == 0 || s[0].cycles > cycles {
        0
    } else {
        1 + insertion_index(s.drop_first(), cycles)
    }
}

/// The queue after `entry` has been scheduled.
pub open spec fn schedule(s: Seq<AVRClockEventEntry>, entry: AVRClockEventEntry) -> Seq<
    AVRClockEventEntry,
> {
    s.insert(insertion_index(s, entry.cycles), entry)
}

/// The queue with every event of `kind` removed, the others in their order.
pub open spec fn cancel(s: Seq<AVRClockEventEntry>, kind: AVRClockEventType) -> Seq<
    AVRClockEventEntry,
>
    decreases s.len(),
{
    if s.len() == 0 {
        s
    } else if s.last().event_type == kind {
        cancel(s.drop_last(), kind)
    } else {
        cancel(s.drop_last(), kind).push(s.last())
    }
}

/// Whether some queued event is of `kind`.
pub open spec fn has_kind(s: Seq<AVRClockEventEntry>, kind: AVRClockEventType) -> bool {
    exists|i: int| 0 <= i < s.len() && #[trigger] s[i].event_type == kind
}

/// In a sorted queue the insertion index splits the events into those due no
/// later than `cycles` and those due strictly later.
pub proof fn lemma_insertion_index(s: Seq<AVRClockEventEntry>, cycles: u32)
    requires
        events_sorted(s),
    ensures
        0 <= insertion_index(s, cycles) <= s.len(),
        forall|i: int| 0 <= i < insertion_index(s, cycles) ==> s[i].cycles <= cycles,
        forall|i: int| insertion_index(s, cycles) <= i < s.len() ==> s[i].cycles > cycles,
    decreases s.len(),
{
    if s.len() == 0 || s[0].cycles > cycles {
        assert forall|i: int| 0 <= i < s.len() implies s[i].cycles > cycles by {
            assert(s[0].cycles <= s[i].cycles);
        }
    } else {
        let t = s.drop_first();
        assert forall|i: int, j: int| 0 <= i <= j < t.len() implies t[i].cycles <= t[j].cycles by {
            assert(s[i + 1].cycles <= s[j + 1].cycles);
        }
        lemma_insertion_index(t, cycles);
        let k = insertion_index(t, cycles);
        assert forall|i: int| 0 <= i < k + 1 implies s[i].cycles <= cycles by {
            if i > 0 {
                assert(t[i - 1].cycles <= cycles);
            }
        }
        assert forall|i: int| k + 1 <= i < s.len() implies s[i].cycles > cycles by {
            assert(t[i - 1].cycles > cycles);
        }
    }
}

/// Scheduling keeps the queue sorted.
pub proof fn lemma_schedule_sorted(s: Seq<AVRClockEventEntry>, entry: AVRClockEventEntry)
    requires
        events_sorted(s),
    ensures
        events_sorted(schedule(s, entry)),
        schedule(s, entry).len() == s.len() + 1,
{
    lemma_insertion_index(s, entry.cycles);
    let k = insertion_index(s, entry.cycles);
    let r = schedule(s, entry);
    assert forall|i: int, j: int| 0 <= i <= j < r.len() implies r[i].cycles <= r[j].cycles by {
        if i < k {
            assert(r[i] == s[i]);
        } else if i > k {
            assert(r[i] == s[i - 1]);
        }
        if j < k {
            assert(r[j] == s[j]);
        } else if j > k {
            assert(r[j] == s[j - 1]);
        }
    }
}

/// Every event that survives a cancellation was queued before, and the
/// survivors keep their relative order; so a sorted queue stays sorted.
pub proof fn lemma_cancel_sorted(s: Seq<AVRClockEventEntry>, kind: AVRClockEventType)
    requires
        events_sorted(s),
    ensures
        events_sorted(cancel(s, kind)),
        cancel(s, kind).len() <= s.len(),
        forall|i: int|
            0 <= i < cancel(s, kind).len() ==> (#[trigger] cancel(s, kind)[i]).event_type != kind
                && s.contains(cancel(s, kind)[i]),
        !has_kind(s, kind) ==> cancel(s, kind) == s,
        has_kind(s, kind) ==> cancel(s, kind).len() < s.len(),
    decreases s.len(),
{
    if s.len() > 0 {
        let t = s.drop_last();
        assert forall|i: int, j: int| 0 <= i <= j < t.len() implies t[i].cycles <= t[j].cycles by {
            assert(s[i].cycles <= s[j].cycles);
        }
        lemma_cancel_sorted(t, kind);
        let c = cancel(t, kind);
        let r = cancel(s, kind);
        assert forall|i: int| 0 <= i < c.len() implies s.contains(#[trigger] c[i])
            && c[i].cycles <= s.last().cycles by {
            assert(t.contains(c[i]));
            let k = choose|k: int| 0 <= k < t.len() && t[k] == c[i];
            assert(s[k] == c[i]);
            assert(s[k].cycles <= s[s.len() - 1].cycles);
        }
        if s.last().event_type != kind {
            assert(s[s.len() - 1] == s.last());
            assert forall|i: int, j: int| 0 <= i <= j < r.len() implies r[i].cycles
                <= r[j].cycles by {
                if j < c.len() {
                    assert(c[i].cycles <= c[j].cycles);
                } else if i < c.len() {
                    assert(s.contains(c[i]));
                }
            }
            assert forall|i: int| 0 <= i < r.len() implies (#[trigger] r[i]).event_type != kind
                && s.contains(r[i]) by {
                if i < c.len() {
                    assert(s.contains(c[i]));
                }
            }
        }
        if !has_kind(s, kind) {
            assert(s[s.len() - 1].event_type != kind);
            if has_kind(t, kind) {
                let k = choose|k: int| 0 <= k < t.len() && #[trigger] t[k].event_type == kind;
                assert(s[k].event_type == kind);
            }
            assert(r =~= s);
        } else {
            let k = choose|k: int| 0 <= k < s.len() && #[trigger] s[k].event_type == kind;
            if k < t.len() {
                assert(t[k].event_type == kind);
            }
        }
    }
}

/// Scheduling drops nothing and reorders nothing: the queue is the old
/// queue with the new event put in at its insertion index.
pub proof fn lemma_schedule_keeps_all(s: Seq<AVRClockEventEntry>, entry: AVRClockEventEntry)
    requires
        events_sorted(s),
    ensures
        schedule(s, entry) == s.take(insertion_index(s, entry.cycles)).push(entry) + s.skip(
            insertion_index(s, entry.cycles),
        ),
        schedule(s, entry).to_multiset() == s.to_multiset().insert(entry),
{
    lemma_insertion_index(s, entry.cycles);
    let k = insertion_index(s, entry.cycles);
    let r = s.take(k).push(entry) + s.skip(k);
    assert(schedule(s, entry) =~= r);
    broadcast use vstd::seq_lib::group_to_multiset_ensures;

    vstd::seq_lib::lemma_multiset_commutative(s.take(k).push(entry), s.skip(k));
    vstd::seq_lib::lemma_multiset_commutative(s.take(k), s.skip(k));
    assert(s.take(k) + s.skip(k) =~= s);
    assert(r.to_multiset() =~= s.to_multiset().insert(entry));
}

/// Cancelling is filtering: exactly the events of other kinds stay, in
/// their order.
pub proof fn lemma_cancel_is_filter(s: Seq<AVRClockEventEntry>, kind: AVRClockEventType)
    ensures
        cancel(s, kind) == s.filter(|e: AVRClockEventEntry| e.event_type != kind),
    decreases s.len(),
{
    reveal(Seq::filter);
    if s.len() > 0 {
        lemma_cancel_is_filter(s.drop_last(), kind);
    }
}

} // verus!
