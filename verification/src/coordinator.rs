//! Serialized access to the single shared flight-control connection.
//!
//! One caller at a time may use the device. Acquisition is non-blocking: a
//! caller that finds the coordinator busy fails at once with
//! `LockContention` and is expected to drop its action, never to wait or
//! queue. The connection handle is created once, on first use, and reused by
//! every later caller; while a caller operates on it, the handle is lent out
//! and nothing else can reach it.

use vstd::prelude::*;

verus! {

/// Non-blocking acquisition found the device already in use.
#[derive(Clone, Copy, Debug, PartialEq, Eq, Structural)]
pub struct LockContention;

/// Establishing the device connection failed.
#[derive(Clone, Copy, Debug, PartialEq, Eq, Structural)]
pub enum ConnectionError {
    /// The handshake with the remote device did not complete.
    Handshake,
    /// The single-use execution context for the round trip could not be set
    /// up.
    ExecutorSetup,
}

/// A dispatched device operation failed.
#[derive(Clone, Copy, Debug, PartialEq, Eq, Structural)]
pub enum DeviceCommandError {
    /// The single-use execution context for the round trip could not be set
    /// up.
    ExecutorSetup,
    /// The device reported failure for the operation.
    DeviceRejected,
}

/// Owns the single shared connection to the flight-control device, guarded by
/// a non-blocking mutual-exclusion flag.
///
/// `H` is the connection handle of whatever device client performs the actual
/// transport; the coordinator itself only rules who may touch it and when the
/// one handshake happens.
pub struct DeviceCoordinator<H> {
    handle: Option<H>,
    held: bool,
}

impl<H> DeviceCoordinator<H> {
    /// Whether some caller currently holds exclusive access.
    pub closed spec fn spec_held(&self) -> bool {
        self.held
    }

    /// Whether the one connection handle is present (established and not
    /// currently lent out to the holder).
    pub closed spec fn spec_connected(&self) -> bool {
        self.handle is Some
    }

    /// The handle itself, for relating what is lent out to what comes back.
    pub closed spec fn spec_handle(&self) -> Option<H> {
        self.handle
    }

    /// A fresh coordinator: no connection yet, nobody holding it.
    pub fn new() -> (c: DeviceCoordinator<H>)
        ensures
            !c.spec_held(),
            !c.spec_connected(),
    {
        DeviceCoordinator { handle: Option::None, held: false }
    }

    /// Non-blocking exclusive acquisition. If another caller holds the
    /// device, this fails immediately with `LockContention` and changes
    /// nothing; otherwise the caller becomes the holder.
    pub fn try_acquire(&mut self) -> (r: Result<(), LockContention>)
        ensures
            old(self).spec_held() ==> r == Err::<(), LockContention>(LockContention)
                && *final(self) == *old(self),
            !old(self).spec_held() ==> r == Ok::<(), LockContention>(()) && final(self).spec_held()
                && final(self).spec_handle() == old(self).spec_handle(),
    {
        if self.held {
            Err(LockContention)
        } else {
            self.held = true;
            Ok(())
        }
    }

    /// Gives exclusive access back.
    pub fn release(&mut self)
        requires
            old(self).spec_held(),
        ensures
            !final(self).spec_held(),
            final(self).spec_handle() == old(self).spec_handle(),
    {
        self.held = false;
    }

    /// Whether the one handshake still has to happen. The handle is created
    /// lazily, on first use; once present it is reused without re-handshaking.
    pub fn needs_handshake(&self) -> (b: bool)
        requires
            self.spec_held(),
        ensures
            b == !self.spec_connected(),
    {
        self.handle.is_none()
    }

    /// Installs the handle a completed handshake produced, or returns a lent
    /// handle. Only the holder may do this, and never over an existing
    /// handle: at most one live connection exists at a time.
    pub fn install_handle(&mut self, handle: H)
        requires
            old(self).spec_held(),
            !old(self).spec_connected(),
        ensures
            final(self).spec_held(),
            final(self).spec_handle() == Some(handle),
    {
        self.handle = Option::Some(handle);
    }

    /// Lends the handle out to the holder for one device round trip. While
    /// lent, the coordinator holds no handle, so no second connection can be
    /// installed beside the live one.
    pub fn take_handle(&mut self) -> (h: H)
        requires
            old(self).spec_held(),
            old(self).spec_connected(),
        ensures
            final(self).spec_held(),
            !final(self).spec_connected(),
            old(self).spec_handle() == Some(h),
    {
        let handle = self.handle.take();
        match handle {
            Option::Some(h) => h,
            Option::None => unreached(),
        }
    }
}

} // verus!
