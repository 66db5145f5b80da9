//! The input relay: what arrives on the supervisor's own standard input is passed on to
//! the child, chunk by chunk, for as long as the child lives.
//!
//! The relay's driver reads and writes; [`relay`] decides. The read is a blocking one that
//! nothing can interrupt: a relay that is told to stop while a read is outstanding ends
//! only when that read returns. What such a read returns is dropped, not passed on.

use vstd::prelude::*;

verus! {

/// The most that is read, and so passed on, at once.
pub const CHUNK_BYTES: usize = 1024;

/// What the relay's driver reports.
#[derive(Debug, Clone, Copy, PartialEq, Eq, Structural)]
pub enum BridgeEvent {
    /// The relay was started.
    Started,
    /// A read returned `len` bytes.
    Read { len: usize },
    /// The read failed.
    ReadFailed,
    /// The chunk was written to the child's input.
    Forwarded,
    /// The chunk could not be written: the child's input is closed.
    ForwardFailed,
}

/// What the relay's driver has to do next.
#[derive(Debug, Clone, Copy, PartialEq, Eq, Structural)]
pub enum BridgeAction {
    /// Read up to `capacity` bytes from standard input; answer with `Read` or
    /// `ReadFailed`.
    Read { capacity: usize },
    /// Write the first `len` bytes of what was read to the child's input, holding the
    /// lock on it; answer with `Forwarded` or `ForwardFailed`.
    Forward { len: usize },
    /// End the relay.
    Halt,
}

/// The action that answers `event`, where `cancelled` says whether the relay was told to
/// stop.
pub open spec fn relay_decision(event: BridgeEvent, cancelled: bool) -> BridgeAction {
    match event {
        BridgeEvent::ReadFailed | BridgeEvent::ForwardFailed => BridgeAction::Halt,
        BridgeEvent::Read { len } => if cancelled {
            BridgeAction::Halt
        } else if len == 0 {
            BridgeAction::Read { capacity: CHUNK_BYTES }
        } else if len <= CHUNK_BYTES {
            BridgeAction::Forward { len }
        } else {
            BridgeAction::Forward { len: CHUNK_BYTES }
        },
        BridgeEvent::Started | BridgeEvent::Forwarded => if cancelled {
            BridgeAction::Halt
        } else {
            BridgeAction::Read { capacity: CHUNK_BYTES }
        },
    }
}

/// Decides what the relay does after `event`. A relay that was told to stop halts, and so
/// does one whose read or write failed. Otherwise what was read is passed on, an empty
/// read is tried again, and after a write the next chunk is read.
pub fn relay(event: BridgeEvent, cancelled: bool) -> (action: BridgeAction)
    ensures
        action == relay_decision(event, cancelled),
        cancelled ==> action is Halt,
        action matches BridgeAction::Forward { len } ==> 1 <= len <= CHUNK_BYTES,
        action matches BridgeAction::Read { capacity } ==> capacity == CHUNK_BYTES,
{
    if cancelled {
        return BridgeAction::Halt;
    }
    match event {
        BridgeEvent::ReadFailed | BridgeEvent::ForwardFailed => BridgeAction::Halt,
        BridgeEvent::Read { len } => {
            if len == 0 {
                BridgeAction::Read { capacity: CHUNK_BYTES }
            } else if len <= CHUNK_BYTES {
                BridgeAction::Forward { len }
            } else {
                BridgeAction::Forward { len: CHUNK_BYTES }
            }
        },
        BridgeEvent::Started | BridgeEvent::Forwarded => BridgeAction::Read {
            capacity: CHUNK_BYTES,
        },
    }
}

} // verus!
