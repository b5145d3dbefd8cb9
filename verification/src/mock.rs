//! A verified in-memory bus for exercising the driver without hardware.
//!
//! A [`MockBus`] is built from the list of transactions a test expects, in
//! order.  Each [`I2cBus`] call is answered from the next expectation: a
//! call that matches it succeeds (a write-then-read returns the
//! expectation's response bytes), any other call fails with
//! [`MockBusError`].  Either way the call is recorded, so the ghost
//! transaction log names exactly what the driver issued, and
//! [`MockBus::done`] reports whether the recorded transactions are
//! precisely the expected ones.

use vstd::prelude::*;

use crate::bus::I2cBus;
use crate::bus::Transaction;
use crate::bus::lemma_issues_write_read;

verus! {

/// One expected or recorded bus transaction, with concrete payloads.
#[derive(Debug)]
pub enum MockTransaction {
    /// A plain write of `bytes` to the device at `addr`.
    Write { addr: u8, bytes: Vec<u8> },
    /// A combined transaction sending `sent` to the device at `addr`; the
    /// mock answers it with `response`.
    WriteRead { addr: u8, sent: Vec<u8>, response: Vec<u8> },
}

impl View for MockTransaction {
    type V = Transaction;

    open spec fn view(&self) -> Transaction {
        match self {
            MockTransaction::Write { addr, bytes } => Transaction::Write {
                addr: *addr,
                data: bytes@,
            },
            MockTransaction::WriteRead { addr, sent, response } => Transaction::WriteRead {
                addr: *addr,
                sent: sent@,
                received: response@,
            },
        }
    }
}

/// The ghost transactions a list of concrete mock transactions stands for.
pub open spec fn txn_views(txns: Seq<MockTransaction>) -> Seq<Transaction>
    decreases txns.len(),
{
    if txns.len() == 0 {
        Seq::empty()
    } else {
        txn_views(txns.drop_last()).push(txns.last()@)
    }
}

proof fn lemma_txn_views_push(txns: Seq<MockTransaction>, t: MockTransaction)
    ensures
        txn_views(txns.push(t)) == txn_views(txns).push(t@),
{
    assert(txns.push(t).drop_last() =~= txns);
    assert(txns.push(t).last() == t);
}

proof fn lemma_txn_views_index(txns: Seq<MockTransaction>, i: int)
    requires
        0 <= i < txns.len(),
    ensures
        txn_views(txns).len() == txns.len(),
        txn_views(txns)[i] == txns[i]@,
    decreases txns.len(),
{
    lemma_txn_views_len(txns);
    if i < txns.len() - 1 {
        lemma_txn_views_index(txns.drop_last(), i);
    }
}

proof fn lemma_txn_views_len(txns: Seq<MockTransaction>)
    ensures
        txn_views(txns).len() == txns.len(),
    decreases txns.len(),
{
    if txns.len() > 0 {
        lemma_txn_views_len(txns.drop_last());
    }
}

/// Error reported by the mock bus for a call that does not match the next
/// expectation.
#[derive(Clone, Copy, Debug, PartialEq, Eq, Structural)]
pub struct MockBusError;

/// Compares two byte vectors.
fn bytes_equal(a: &Vec<u8>, b: &Vec<u8>) -> (r: bool)
    ensures
        r == (a@ == b@),
{
    if a.len() != b.len() {
        return false;
    }
    let mut i: usize = 0;
    while i < a.len()
        invariant
            0 <= i <= a@.len(),
            a@.len() == b@.len(),
            forall|j: int| 0 <= j < i ==> a@[j] == b@[j],
        decreases a@.len() - i,
    {
        if a[i] != b[i] {
            return false;
        }
        i += 1;
    }
    proof {
        assert(a@ =~= b@);
    }
    true
}

/// Compares a recorded transaction with an expected one.
fn txn_equal(a: &MockTransaction, b: &MockTransaction) -> (r: bool)
    ensures
        r == (a@ == b@),
{
    match (a, b) {
        (
            MockTransaction::Write { addr: a_addr, bytes: a_bytes },
            MockTransaction::Write { addr: b_addr, bytes: b_bytes },
        ) => *a_addr == *b_addr && bytes_equal(a_bytes, b_bytes),
        (
            MockTransaction::WriteRead { addr: a_addr, sent: a_sent, response: a_response },
            MockTransaction::WriteRead { addr: b_addr, sent: b_sent, response: b_response },
        ) => *a_addr == *b_addr && bytes_equal(a_sent, b_sent) && bytes_equal(
            a_response,
            b_response,
        ),
        _ => false,
    }
}

/// Copies a byte vector.
fn copy_bytes(src: &Vec<u8>) -> (r: Vec<u8>)
    ensures
        r@ == src@,
{
    let mut r: Vec<u8> = Vec::new();
    let mut i: usize = 0;
    while i < src.len()
        invariant
            0 <= i <= src@.len(),
            r@.len() == i,
            forall|j: int| 0 <= j < i ==> r@[j] == src@[j],
        decreases src@.len() - i,
    {
        r.push(src[i]);
        i += 1;
    }
    proof {
        assert(r@ =~= src@);
    }
    r
}

/// An in-memory bus that answers calls from a list of expected
/// transactions, in order, and records what was actually issued.
pub struct MockBus {
    expected: Vec<MockTransaction>,
    performed: Vec<MockTransaction>,
}

impl MockBus {
    /// The transactions the bus was told to expect, oldest first.
    pub closed spec fn spec_expected(self) -> Seq<Transaction> {
        txn_views(self.expected@)
    }

    /// Builds a mock bus from the transactions it should expect, in order.
    pub fn new(expected: Vec<MockTransaction>) -> (r: MockBus)
        ensures
            r.transactions() == Seq::<Transaction>::empty(),
            r.spec_expected() == txn_views(expected@),
    {
        MockBus { expected, performed: Vec::new() }
    }

    /// Reports whether the transactions issued so far are exactly the
    /// expected ones: no expectation unmet, none mismatched, none extra.
    pub fn done(self) -> (r: bool)
        ensures
            r == (self.transactions() == self.spec_expected()),
    {
        proof {
            lemma_txn_views_len(self.performed@);
            lemma_txn_views_len(self.expected@);
        }
        if self.performed.len() != self.expected.len() {
            return false;
        }
        let mut i: usize = 0;
        while i < self.performed.len()
            invariant
                0 <= i <= self.performed@.len(),
                self.performed@.len() == self.expected@.len(),
                forall|j: int| 0 <= j < i ==> self.performed@[j]@ == self.expected@[j]@,
            decreases self.performed@.len() - i,
        {
            if !txn_equal(&self.performed[i], &self.expected[i]) {
                proof {
                    lemma_txn_views_index(self.performed@, i as int);
                    lemma_txn_views_index(self.expected@, i as int);
                }
                return false;
            }
            i += 1;
        }
        proof {
            assert forall|j: int| 0 <= j < self.performed@.len() implies txn_views(
                self.performed@,
            )[j] == txn_views(self.expected@)[j] by {
                lemma_txn_views_index(self.performed@, j);
                lemma_txn_views_index(self.expected@, j);
            }
            assert(txn_views(self.performed@) =~= txn_views(self.expected@));
        }
        true
    }
}

impl I2cBus for MockBus {
    type BusError = MockBusError;

    closed spec fn transactions(&self) -> Seq<Transaction> {
        txn_views(self.performed@)
    }

    fn write(&mut self, addr: u8, bytes: Vec<u8>) -> (r: Result<(), MockBusError>) {
        let next = self.performed.len();
        let matched = if next < self.expected.len() {
            match &self.expected[next] {
                MockTransaction::Write { addr: exp_addr, bytes: exp_bytes } => *exp_addr == addr
                    && bytes_equal(exp_bytes, &bytes),
                _ => false,
            }
        } else {
            false
        };
        let ghost entry = MockTransaction::Write { addr, bytes };
        self.performed.push(MockTransaction::Write { addr, bytes });
        proof {
            lemma_txn_views_push(old(self).performed@, entry);
        }
        if matched {
            Ok(())
        } else {
            Err(MockBusError)
        }
    }

    fn write_read(&mut self, addr: u8, sent: Vec<u8>, read_len: usize) -> (r: Result<
        Vec<u8>,
        MockBusError,
    >) {
        let next = self.performed.len();
        let mut response: Option<Vec<u8>> = None;
        if next < self.expected.len() {
            match &self.expected[next] {
                MockTransaction::WriteRead {
                    addr: exp_addr,
                    sent: exp_sent,
                    response: exp_response,
                } => {
                    if *exp_addr == addr && bytes_equal(exp_sent, &sent) && exp_response.len()
                        == read_len {
                        response = Some(copy_bytes(exp_response));
                    }
                },
                _ => {},
            }
        }
        match response {
            Some(data) => {
                let recorded = copy_bytes(&data);
                let ghost entry = MockTransaction::WriteRead { addr, sent, response: recorded };
                self.performed.push(
                    MockTransaction::WriteRead { addr, sent, response: recorded },
                );
                proof {
                    lemma_txn_views_push(old(self).performed@, entry);
                }
                Ok(data)
            },
            None => {
                let empty: Vec<u8> = Vec::new();
                let ghost entry = MockTransaction::WriteRead { addr, sent, response: empty };
                self.performed.push(MockTransaction::WriteRead { addr, sent, response: empty });
                proof {
                    lemma_txn_views_push(old(self).performed@, entry);
                    lemma_issues_write_read(
                        old(self).transactions(),
                        self.transactions(),
                        addr,
                        sent@,
                        Seq::<u8>::empty(),
                    );
                }
                Err(MockBusError)
            },
        }
    }
}

} // verus!
