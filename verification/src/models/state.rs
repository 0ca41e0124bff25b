use vstd::prelude::*;

verus! {

/// Content of the one slot that holds the link to the device: an open handle
/// of type `H`, or nothing.
///
/// The slot is shared by every request and by the reconnection monitor.
/// Whoever reads or changes it holds exclusive access for a whole command
/// exchange, so at most one command is on the wire at any time.
#[derive(Debug, PartialEq, Eq)]
pub enum Connection<H> {
    Connected(H),
    Disconnected,
}

impl<H> Connection<H> {
    /// Whether a handle is present.
    pub fn is_connected(&self) -> (connected: bool)
        ensures
            connected == (self is Connected),
    {
        match self {
            Connection::Connected(_) => true,
            Connection::Disconnected => false,
        }
    }

    /// Gives the handle up: the next command finds no device.
    pub fn disconnect(&mut self)
        ensures
            *final(self) == Connection::<H>::Disconnected,
    {
        *self = Connection::Disconnected;
    }

    /// Stores what a connection attempt brought. A handle that is already
    /// present is never replaced.
    pub fn restore(&mut self, found: Option<H>)
        ensures
            *final(self) == old(self).restored(found),
    {
        if let Connection::Disconnected = self {
            if let Some(handle) = found {
                *self = Connection::Connected(handle);
            }
        }
    }

    /// The slot after `restore`.
    pub open spec fn restored(self, found: Option<H>) -> Connection<H> {
        match (self, found) {
            (Connection::Disconnected, Some(handle)) => Connection::Connected(handle),
            _ => self,
        }
    }
}

} // verus!
