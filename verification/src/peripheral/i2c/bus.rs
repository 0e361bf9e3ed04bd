use vstd::prelude::*;

verus! {

/// What is on the two-wire bus.
#[derive(Clone, Copy, Debug, PartialEq, Eq, Structural)]
pub enum I2CBusStatus {
    IDLE,
    START,
    STOP,
    ADDRESS,
    DATA_REQUEST,
    /// Data has been put on the bus, by the master on a write or by the
    /// slave on a read.
    DATA_AVAILABLE,
}

/// The rendezvous between the master in the microcontroller and one slave.
/// The master writes `address`, `data` and `read`; the slave answers in
/// `acked` and `data`.
#[derive(Clone, Copy, Debug, PartialEq, Eq, Structural)]
pub struct I2CBus {
    pub status: I2CBusStatus,
    pub address: u8,
    pub data: u8,
    /// The master reads from the slave (otherwise it writes).
    pub read: bool,
    pub acked: bool,
}

impl I2CBus {
    pub fn new() -> (bus: Self)
        ensures
            bus == (I2CBus {
                status: I2CBusStatus::IDLE,
                address: 0xff,
                data: 0xff,
                read: true,
                acked: false,
            }),
    {
        Self { status: I2CBusStatus::IDLE, address: 0xff, data: 0xff, read: true, acked: false }
    }
}

/// The bus a caller hands in, as a value.
pub open spec fn bus_before(bus: Option<&mut I2CBus>) -> Option<I2CBus> {
    match bus {
        Some(b) => Some(*b),
        None => None,
    }
}

} // verus!
