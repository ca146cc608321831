//! Shared-bus arbitration: one physical bus port serving several logical
//! device handles, each transaction exclusive and never interleaved.

use vstd::prelude::*;

verus! {

/// A physical bus transfer failed: the device did not acknowledge, or the
/// physical layer signalled a fault.
#[derive(Clone, Copy, Debug, PartialEq, Eq)]
pub enum BusError {
    NoAcknowledge,
    PhysicalFault,
}

/// A reentrant or overlapping bus acquisition was detected.  This is a
/// programming-logic fault, never a transient hardware condition.
#[derive(Clone, Copy, Debug, PartialEq, Eq)]
pub struct ArbiterViolation {}

/// Why an exchange was refused or failed: the acquisition overlapped an
/// outstanding one (`Arbitration`), or a phase of the physical transfer
/// failed (`Bus`).
#[derive(Clone, Copy, Debug, PartialEq, Eq)]
pub enum TransactionError {
    Arbitration(ArbiterViolation),
    Bus(BusError),
}

/// One attempted operation on the physical bus, as a port records it.
/// `Write` carries the frame offered to the device and whether the device
/// acknowledged it; `Read` carries the requested length and the bytes that
/// came back, or `None` when the transfer failed.
pub enum BusEvent {
    Write { address: u8, bytes: Seq<u8>, ok: bool },
    Read { address: u8, len: nat, data: Option<Seq<u8>> },
}

/// The transaction primitive of a physical bus: a port against which writes
/// and reads are issued, one device address at a time.  Both operations block
/// until the transfer completes or the physical layer reports an error, and
/// there is no partial success: either the full byte count is transferred or
/// an error comes back.
///
/// `log` is the port's history of attempted transfers, oldest first.  Every
/// call appends exactly one event, successful or not, so a caller's contract
/// can state which operations reached the bus and in what order.
pub trait BusPort: Sized {
    spec fn log(&self) -> Seq<BusEvent>;

    /// Send `bytes` as one command frame to the device at `address`.
    fn bus_write(&mut self, address: u8, bytes: &Vec<u8>) -> (r: Result<(), BusError>)
        ensures
            final(self).log() == old(self).log().push(BusEvent::Write {
                address,
                bytes: bytes@,
                ok: r is Ok,
            }),
    ;

    /// Read exactly `len` bytes from the device at `address`.
    fn bus_read(&mut self, address: u8, len: usize) -> (r: Result<Vec<u8>, BusError>)
        ensures
            r matches Ok(data) ==> data@.len() == len && final(self).log() == old(self).log()
                .push(BusEvent::Read { address, len: len as nat, data: Some(data@) }),
            r is Err ==> final(self).log() == old(self).log().push(BusEvent::Read {
                address,
                len: len as nat,
                data: None,
            }),
    ;
}

/// How many logical device handles one arbiter can issue: the two device
/// roles, sensor and display.
pub const MAX_HANDLES: u8 = 2;

/// A logical device handle: a view of the shared bus scoped to one device
/// address.  Handles are issued only by [`SharedBus::derive_handle`], up to
/// the arbiter's fixed capacity.
#[derive(Debug)]
pub struct DeviceHandle {
    address: u8,
}

impl DeviceHandle {
    /// The device address this handle is scoped to.
    pub closed spec fn addr(&self) -> u8 {
        self.address
    }

    /// The device address this handle is scoped to.
    pub fn address(&self) -> (a: u8)
        ensures
            a == self.addr(),
    {
        self.address
    }
}

/// The shared-bus arbiter: owns the one physical port and lets at most
/// [`MAX_HANDLES`] logical device handles perform exclusive transactions on
/// it.  While one acquisition is outstanding, every further acquisition is
/// refused as an [`ArbiterViolation`] without touching the port, so two
/// logical devices can never interleave their transfers.
pub struct SharedBus<P> {
    port: P,
    owner: Option<u8>,
    handles_issued: u8,
}

impl<P: BusPort> SharedBus<P> {
    /// The port's history of attempted transfers.
    pub closed spec fn port_log(&self) -> Seq<BusEvent> {
        self.port.log()
    }

    /// The address of the handle whose acquisition is outstanding, if any.
    pub closed spec fn owner(&self) -> Option<u8> {
        self.owner
    }

    /// Whether an acquisition is outstanding.
    pub open spec fn busy(&self) -> bool {
        self.owner() is Some
    }

    /// How many logical device handles have been derived.
    pub closed spec fn handles(&self) -> u8 {
        self.handles_issued
    }

    /// Wrap a physical port into an arbiter with no handle derived yet and
    /// no acquisition outstanding.
    pub fn new(port: P) -> (bus: SharedBus<P>)
        ensures
            bus.port_log() == port.log(),
            bus.owner() is None,
            bus.handles() == 0,
    {
        SharedBus { port, owner: None, handles_issued: 0 }
    }

    /// Derive a logical device handle scoped to `address`.  Constant-time;
    /// fails exactly when the fixed capacity of [`MAX_HANDLES`] consumers is
    /// exhausted.
    pub fn derive_handle(&mut self, address: u8) -> (r: Option<DeviceHandle>)
        ensures
            r is Some <==> old(self).handles() < MAX_HANDLES,
            r matches Some(h) ==> h.addr() == address && final(self).handles() == old(self).handles() + 1,
            r is None ==> final(self).handles() == old(self).handles(),
            final(self).owner() == old(self).owner(),
            final(self).port_log() == old(self).port_log(),
    {
        if self.handles_issued < MAX_HANDLES {
            self.handles_issued = self.handles_issued + 1;
            Some(DeviceHandle { address })
        } else {
            None
        }
    }

    /// Acquire exclusive access to the bus for `handle`.  Succeeds exactly
    /// when no acquisition is outstanding; a second acquisition while one is
    /// outstanding is detected as an [`ArbiterViolation`] and leaves the
    /// outstanding one untouched.
    pub fn acquire(&mut self, handle: &DeviceHandle) -> (r: Result<(), ArbiterViolation>)
        ensures
            r is Ok <==> !old(self).busy(),
            r is Ok ==> final(self).owner() == Some(handle.addr()),
            r is Err ==> final(self).owner() == old(self).owner(),
            final(self).handles() == old(self).handles(),
            final(self).port_log() == old(self).port_log(),
    {
        match self.owner {
            Some(_) => Err(ArbiterViolation {}),
            None => {
                self.owner = Some(handle.address());
                Ok(())
            },
        }
    }

    /// Release the bus.  Unconditional: after the call no acquisition is
    /// outstanding.
    pub fn release(&mut self)
        ensures
            final(self).owner() is None,
            final(self).handles() == old(self).handles(),
            final(self).port_log() == old(self).port_log(),
    {
        self.owner = None;
    }

    /// One complete exchange for `handle`: acquire the bus, write `command`
    /// to the handle's address, read exactly `read_len` bytes back, release
    /// the bus.  The acquisition is scoped: it is released on every exit
    /// path of the exchange, success or error.  A call made while another
    /// acquisition is outstanding is refused without touching the port and
    /// leaves the outstanding acquisition in place.  A failed write
    /// short-circuits: no read is issued after it, and no phase is retried.
    pub fn transaction(&mut self, handle: &DeviceHandle, command: &Vec<u8>, read_len: usize) -> (r:
        Result<Vec<u8>, TransactionError>)
        ensures
            final(self).handles() == old(self).handles(),
            (r is Err && r->Err_0 is Arbitration) <==> old(self).busy(),
            old(self).busy() ==> final(self).owner() == old(self).owner()
                && final(self).port_log() == old(self).port_log(),
            !old(self).busy() ==> final(self).owner() is None,
            r matches Ok(data) ==> data@.len() == read_len && final(self).port_log() == old(self)
                .port_log()
                .push(BusEvent::Write { address: handle.addr(), bytes: command@, ok: true })
                .push(BusEvent::Read {
                    address: handle.addr(),
                    len: read_len as nat,
                    data: Some(data@),
                }),
            (r is Err && r->Err_0 is Bus) ==> final(self).port_log() == old(self).port_log().push(
                BusEvent::Write { address: handle.addr(), bytes: command@, ok: false },
            ) || final(self).port_log() == old(self).port_log().push(
                BusEvent::Write { address: handle.addr(), bytes: command@, ok: true },
            ).push(BusEvent::Read { address: handle.addr(), len: read_len as nat, data: None }),
    {
        match self.acquire(handle) {
            Err(v) => Err(TransactionError::Arbitration(v)),
            Ok(()) => {
                match self.port.bus_write(handle.address(), command) {
                    Err(e) => {
                        self.release();
                        Err(TransactionError::Bus(e))
                    },
                    Ok(()) => {
                        let rd = self.port.bus_read(handle.address(), read_len);
                        self.release();
                        match rd {
                            Ok(data) => Ok(data),
                            Err(e) => Err(TransactionError::Bus(e)),
                        }
                    },
                }
            },
        }
    }

    /// Whether an acquisition is outstanding right now.
    pub fn is_busy(&self) -> (b: bool)
        ensures
            b == self.busy(),
    {
        self.owner.is_some()
    }

    /// How many logical device handles have been derived.
    pub fn handle_count(&self) -> (n: u8)
        ensures
            n == self.handles(),
    {
        self.handles_issued
    }

    /// A view of the physical port, for reading its recorded state.
    pub fn port(&self) -> (p: &P)
        ensures
            p.log() == self.port_log(),
    {
        &self.port
    }
}

} // verus!
