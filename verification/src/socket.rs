//! The handle from which operations are started.

use vstd::prelude::*;
use crate::operation::Phase;
use crate::read::{IsoTpReadFuture, ReadModel};
use crate::write::{IsoTpWriteFuture, WriteModel};

verus! {

/// Why a socket could not be set up.
#[derive(Debug)]
pub enum Error {
    /// The interface could not be found; `errno` is the system's error number.
    Lookup { errno: i32 },
    /// A system call on the socket failed.
    Io { source: std::io::Error },
}

/// A step in giving a handle up.
#[derive(Clone, Copy, PartialEq, Eq, Debug, Structural)]
pub enum Teardown {
    /// Take this descriptor out of the poller.
    Deregister { descriptor: i32 },
    /// Close this descriptor.
    Close { descriptor: i32 },
}

/// What a socket handle is to the operations started from it.
pub struct SocketModel {
    /// The number of the descriptor that the handle owns.
    pub descriptor: i32,
    /// Whether a write that finds the reported readiness false tells the
    /// poller to forget it before waiting again.
    pub clear_on_spurious_write: bool,
}

/// A socket that is non-blocking and registered with the poller.
///
/// A handle comes out of a finished [`crate::setup::Setup`] only, so none
/// exists before its descriptor was configured and registered. It owns that
/// one descriptor. Operations borrow the handle and keep no state in it.
#[derive(Debug)]
pub struct IsoTpSocket {
    descriptor: i32,
    clear_on_spurious_write: bool,
}

impl View for IsoTpSocket {
    type V = SocketModel;

    closed spec fn view(&self) -> SocketModel {
        SocketModel {
            descriptor: self.descriptor,
            clear_on_spurious_write: self.clear_on_spurious_write,
        }
    }
}

impl IsoTpSocket {
    pub(crate) fn established(descriptor: i32, clear_on_spurious_write: bool) -> (socket: Self)
        ensures
            socket@ == (SocketModel { descriptor, clear_on_spurious_write }),
    {
        IsoTpSocket { descriptor, clear_on_spurious_write }
    }

    /// The number of the descriptor that this handle owns.
    pub fn descriptor(&self) -> (fd: i32)
        ensures
            fd == self@.descriptor,
    {
        self.descriptor
    }

    /// Whether writes clear a readiness that proved false.
    pub fn clear_on_spurious_write(&self) -> (on: bool)
        ensures
            on == self@.clear_on_spurious_write,
    {
        self.clear_on_spurious_write
    }

    /// Chooses what a write does when the send would block although the
    /// poller reported readiness.
    ///
    /// With `on`, the default, the write clears that readiness and waits for
    /// a fresh notification. Without it the write asks again at once: on a
    /// kernel that keeps reporting a readiness that is not there, this spins
    /// until the send goes through.
    pub fn set_clear_on_spurious_write(&mut self, on: bool)
        ensures
            final(self)@ == (SocketModel { clear_on_spurious_write: on, ..old(self)@ }),
    {
        self.clear_on_spurious_write = on;
    }

    /// Gives the handle up and says what has to be done for it, in order:
    /// the descriptor leaves the poller first and is closed after that. The
    /// handle is gone with the call, so its descriptor is released once.
    pub fn retire(self) -> (steps: (Teardown, Teardown))
        ensures
            steps.0 == (Teardown::Deregister { descriptor: self@.descriptor }),
            steps.1 == (Teardown::Close { descriptor: self@.descriptor }),
    {
        (
            Teardown::Deregister { descriptor: self.descriptor },
            Teardown::Close { descriptor: self.descriptor },
        )
    }

    /// Starts the sending of one payload.
    pub fn write_packet<'a>(&'a self, packet: &'a [u8]) -> (started: Result<
        IsoTpWriteFuture<'a>,
        Error,
    >)
        ensures
            started matches Ok(op) && op@ == (WriteModel {
                socket: self@,
                packet: packet@,
                phase: Phase::Waiting,
            }),
    {
        Ok(IsoTpWriteFuture::new(self, packet))
    }

    /// Starts the reception of one payload.
    pub fn read_packet(&self) -> (started: Result<IsoTpReadFuture<'_>, Error>)
        ensures
            started matches Ok(op) && op@ == (ReadModel { socket: self@, phase: Phase::Waiting }),
    {
        Ok(IsoTpReadFuture::new(self))
    }
}

} // verus!
