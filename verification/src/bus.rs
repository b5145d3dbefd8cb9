//! The two-wire bus capability the driver is generic over.
//!
//! A bus handle is modelled by the ghost log of the transactions it has
//! carried, oldest first.  Each [`I2cBus`] method appends exactly one
//! transaction to that log — also when the bus reports a failure, since the
//! transaction was put on the wire (or at least attempted) either way.  The
//! driver's contracts are stated over this log, so they pin down exactly
//! which bytes every operation exchanges with the device.

use vstd::prelude::*;

verus! {

/// One bus transaction, as recorded in a bus handle's ghost log.
pub enum Transaction {
    /// A plain write: the payload `data` was sent to the device at `addr`.
    Write { addr: u8, data: Seq<u8> },
    /// A combined write-then-read: `sent` was written to the device at
    /// `addr`, then `received` was read back in the same transaction.
    WriteRead { addr: u8, sent: Seq<u8>, received: Seq<u8> },
}

/// Holds when `post` extends `pre` by exactly one write-then-read
/// transaction that sent `sent` to `addr`, whatever bytes came back.
pub open spec fn issues_write_read(
    pre: Seq<Transaction>,
    post: Seq<Transaction>,
    addr: u8,
    sent: Seq<u8>,
) -> bool {
    exists|received: Seq<u8>|
        post == pre.push(Transaction::WriteRead { addr, sent, received })
}

/// Introduces the received-bytes witness for [`issues_write_read`].
pub proof fn lemma_issues_write_read(
    pre: Seq<Transaction>,
    post: Seq<Transaction>,
    addr: u8,
    sent: Seq<u8>,
    received: Seq<u8>,
)
    requires
        post == pre.push(Transaction::WriteRead { addr, sent, received }),
    ensures
        issues_write_read(pre, post, addr, sent),
{
    assert(post == pre.push(Transaction::WriteRead { addr, sent, received }));
}

/// A blocking two-wire bus master addressed by a 7-bit device address.
///
/// Implementations must support a plain write transaction and a combined
/// write-then-read transaction, and must account for every call in their
/// transaction log: one appended entry per call, holding exactly the bytes
/// exchanged.  Whether a transaction succeeds is the bus's own affair — the
/// error type is opaque and nothing is promised about when it is returned.
pub trait I2cBus: Sized {
    /// The bus implementation's own transaction error.
    type BusError;

    /// The transactions this handle has carried, oldest first.  An
    /// implementation that leaves this at its default (an always-empty log)
    /// cannot satisfy the method contracts below, so a verified
    /// implementation must define it.
    open spec fn transactions(&self) -> Seq<Transaction> {
        Seq::empty()
    }

    /// Issues one write transaction of `bytes` to the device at `addr`.
    fn write(&mut self, addr: u8, bytes: Vec<u8>) -> (r: Result<(), Self::BusError>)
        ensures
            final(self).transactions() == old(self).transactions().push(
                Transaction::Write { addr, data: bytes@ },
            ),
    ;

    /// Issues one combined write-then-read transaction: sends `sent` to the
    /// device at `addr`, then reads `read_len` bytes back.
    fn write_read(&mut self, addr: u8, sent: Vec<u8>, read_len: usize) -> (r: Result<
        Vec<u8>,
        Self::BusError,
    >)
        ensures
            match r {
                Ok(data) => data@.len() == read_len && final(self).transactions() == old(
                    self,
                ).transactions().push(
                    Transaction::WriteRead { addr, sent: sent@, received: data@ },
                ),
                Err(_) => issues_write_read(
                    old(self).transactions(),
                    final(self).transactions(),
                    addr,
                    sent@,
                ),
            },
    ;
}

} // verus!
