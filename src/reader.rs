use vstd::prelude::*;
use crate::hub::BroadcastHub;

verus! {

/// Pause before reading again when the device has no data pending.
pub const READ_BACKOFF_MS: u64 = 10;

/// What one read from the serial device gave.
#[derive(Debug, Clone, PartialEq, Eq)]
pub enum ReadResult {
    /// The bytes read; empty when the read returned zero bytes.
    Bytes(Vec<u8>),
    /// No data is pending right now.
    WouldBlock,
    /// A hard device error, with its description.
    Failed(String),
}

/// What the reader loop does next.
#[derive(Debug, Clone, Copy, PartialEq, Eq)]
pub enum ReaderAction {
    /// Read again at once.
    ReadAgain,
    /// Sleep this many milliseconds, then read again.
    Backoff(u64),
    /// Stop for good: no more device data will be published.
    Stop,
}

/// The chunks a read of `bytes` publishes: one chunk per byte, in order.
pub open spec fn byte_chunks(bytes: Seq<u8>) -> Seq<Seq<u8>> {
    Seq::new(bytes.len(), |i: int| seq![bytes[i]])
}

/// The serial reader loop's state: running until the first hard error.
#[derive(Debug, Clone, Copy, PartialEq, Eq)]
pub struct SerialReader {
    stopped: bool,
}

impl SerialReader {
    /// Whether the reader has stopped after a hard error.
    pub closed spec fn has_stopped(&self) -> bool {
        self.stopped
    }

    /// A reader that has not yet read anything.
    pub fn new() -> (r: Self)
        ensures
            !r.has_stopped(),
    {
        SerialReader { stopped: false }
    }

    /// Executable form of `!has_stopped`.
    pub fn is_running(&self) -> (r: bool)
        ensures
            r == !self.has_stopped(),
    {
        !self.stopped
    }

    /// Acts on one read: publishes each byte read as a chunk of its own,
    /// retries at once after an empty read, backs off when no data is pending,
    /// and stops for good on a hard error. A stopped reader publishes nothing.
    pub fn on_read(&mut self, hub: &mut BroadcastHub, result: ReadResult) -> (act: ReaderAction)
        requires
            old(hub).wf(),
            result matches ReadResult::Bytes(b) ==> old(hub)@.history.len() + b@.len() < u64::MAX,
        ensures
            final(hub).wf(),
            final(hub)@.capacity == old(hub)@.capacity,
            old(self).has_stopped() ==> {
                &&& act == ReaderAction::Stop
                &&& final(self).has_stopped()
                &&& final(hub)@ == old(hub)@
            },
            !old(self).has_stopped() ==> match result {
                ReadResult::Bytes(b) => {
                    &&& act == ReaderAction::ReadAgain
                    &&& !final(self).has_stopped()
                    &&& final(hub)@.history == old(hub)@.history + byte_chunks(b@)
                },
                ReadResult::WouldBlock => {
                    &&& act == ReaderAction::Backoff(READ_BACKOFF_MS)
                    &&& !final(self).has_stopped()
                    &&& final(hub)@ == old(hub)@
                },
                ReadResult::Failed(_) => {
                    &&& act == ReaderAction::Stop
                    &&& final(self).has_stopped()
                    &&& final(hub)@ == old(hub)@
                },
            },
    {
        if self.stopped {
            return ReaderAction::Stop;
        }
        match result {
            ReadResult::Bytes(b) => {
                let ghost start = hub@.history;
                let mut i: usize = 0;
                while i < b.len()
                    invariant
                        0 <= i <= b@.len(),
                        hub.wf(),
                        hub@.capacity == old(hub)@.capacity,
                        start == old(hub)@.history,
                        start.len() + b@.len() < u64::MAX,
                        hub@.history == start + byte_chunks(b@.subrange(0, i as int)),
                    decreases b@.len() - i,
                {
                    let one: Vec<u8> = vec![b[i]];
                    assert(one@ =~= seq![b@[i as int]]);
                    hub.publish(one);
                    proof {
                        let before = byte_chunks(b@.subrange(0, i as int));
                        assert(byte_chunks(b@.subrange(0, i + 1)) =~= before.push(seq![b@[i as int]]));
                        assert(start + before.push(seq![b@[i as int]]) =~= (start + before).push(
                            seq![b@[i as int]],
                        ));
                    }
                    i = i + 1;
                }
                proof {
                    assert(b@.subrange(0, b@.len() as int) =~= b@);
                }
                ReaderAction::ReadAgain
            },
            ReadResult::WouldBlock => ReaderAction::Backoff(READ_BACKOFF_MS),
            ReadResult::Failed(_) => {
                self.stopped = true;
                ReaderAction::Stop
            },
        }
    }
}

} // verus!
