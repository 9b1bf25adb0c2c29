use vstd::prelude::*;
use vstd::string::StringExecFns;

verus! {

/// Serial line speed used when none is given.
pub const DEFAULT_BAUD_RATE: u32 = 9600;

/// Listen port used when none is given.
pub const DEFAULT_WEBSOCKET_PORT: u16 = 8080;

/// Size of the serial read buffer used when none is given.
pub const DEFAULT_BUFFER_SIZE: usize = 1024;

/// Per-subscriber buffer of the broadcast hub used when none is given.
pub const DEFAULT_BROADCAST_CAPACITY: usize = 16;

/// The values the bridge runs with.
#[derive(Debug, Clone)]
pub struct PorticusConfig {
    pub serial_port: String,
    pub baud_rate: u32,
    pub websocket_port: u16,
    pub buffer_size: usize,
    pub broadcast_capacity: usize,
    pub websocket_host: String,
}

impl PorticusConfig {
    /// A configuration the bridge can run with: a read buffer that can hold a
    /// byte and a hub that can hold a chunk.
    pub open spec fn is_usable(&self) -> bool {
        self.buffer_size > 0 && self.broadcast_capacity > 0
    }

    /// Executable form of `is_usable`.
    pub fn usable(&self) -> (r: bool)
        ensures
            r == self.is_usable(),
    {
        self.buffer_size > 0 && self.broadcast_capacity > 0
    }
}

impl Default for PorticusConfig {
    fn default() -> (r: Self)
        ensures
            r.serial_port@ == "/dev/ttyACM0"@,
            r.baud_rate == DEFAULT_BAUD_RATE,
            r.websocket_port == DEFAULT_WEBSOCKET_PORT,
            r.buffer_size == DEFAULT_BUFFER_SIZE,
            r.broadcast_capacity == DEFAULT_BROADCAST_CAPACITY,
            r.websocket_host@ == "127.0.0.1"@,
            r.is_usable(),
    {
        PorticusConfig {
            serial_port: String::from_str("/dev/ttyACM0"),
            baud_rate: DEFAULT_BAUD_RATE,
            websocket_port: DEFAULT_WEBSOCKET_PORT,
            buffer_size: DEFAULT_BUFFER_SIZE,
            broadcast_capacity: DEFAULT_BROADCAST_CAPACITY,
            websocket_host: String::from_str("127.0.0.1"),
        }
    }
}

} // verus!
