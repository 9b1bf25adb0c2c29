use vstd::prelude::*;

verus! {

/// What went wrong while setting the bridge up, with the transport's own
/// description of the failure.
#[derive(Debug, Clone, PartialEq, Eq)]
pub enum PorticusError {
    /// The serial device could not be opened or used.
    SerialPort(String),
    /// The message protocol's handshake or framing failed.
    WebSocket(String),
    /// The listen address could not be bound, or another I/O failure.
    Io(String),
}

impl PorticusError {
    /// The description carried by the error, whatever its kind.
    pub fn detail(&self) -> (r: &String)
        ensures
            r == match self {
                PorticusError::SerialPort(s) => s,
                PorticusError::WebSocket(s) => s,
                PorticusError::Io(s) => s,
            },
    {
        match self {
            PorticusError::SerialPort(s) => s,
            PorticusError::WebSocket(s) => s,
            PorticusError::Io(s) => s,
        }
    }
}

} // verus!
