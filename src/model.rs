//! The values that flow through the watcher: addresses, instructions,
//! transaction records and the token pairs decoded from them.
use vstd::prelude::*;

verus! {

broadcast use vstd::array::group_array_axioms;

/// Number of bytes in an on-chain address.
pub const ADDRESS_LEN: usize = 32;

/// A 32-byte on-chain address: a program identity or an account.
#[derive(Clone, Copy, Debug)]
pub struct Address {
    pub bytes: [u8; 32],
}

impl Address {
    pub fn new(bytes: [u8; 32]) -> (r: Address)
        ensures
            r.bytes == bytes,
    {
        Address { bytes }
    }

    /// Byte-wise comparison of two addresses.
    pub fn same_as(&self, other: &Address) -> (r: bool)
        ensures
            r == (*self == *other),
    {
        let mut i: usize = 0;
        while i < ADDRESS_LEN
            invariant
                0 <= i <= ADDRESS_LEN,
                forall|j: int| 0 <= j < i ==> self.bytes[j] == other.bytes[j],
            decreases ADDRESS_LEN - i,
        {
            if self.bytes[i] != other.bytes[i] {
                return false;
            }
            i = i + 1;
        }
        assert(self.bytes =~= other.bytes);
        true
    }
}

impl PartialEq for Address {
    fn eq(&self, other: &Address) -> (r: bool) {
        self.same_as(other)
    }
}

impl vstd::std_specs::cmp::PartialEqSpecImpl for Address {
    open spec fn obeys_eq_spec() -> bool {
        true
    }

    open spec fn eq_spec(&self, other: &Address) -> bool {
        *self == *other
    }
}

impl Eq for Address {}

/// One call inside a transaction: the program it invokes and the ordered
/// accounts it touches.
#[derive(Clone, Debug)]
pub struct Instruction {
    pub issuing_program: Address,
    pub accounts: Vec<Address>,
}

impl Instruction {
    pub fn new(issuing_program: Address, accounts: Vec<Address>) -> (r: Instruction)
        ensures
            r.issuing_program == issuing_program,
            r.accounts@ == accounts@,
    {
        Instruction { issuing_program, accounts }
    }
}

/// A fully decoded transaction: its instructions in transaction order.
#[derive(Clone, Debug)]
pub struct TransactionRecord {
    pub instructions: Vec<Instruction>,
}

impl TransactionRecord {
    pub fn new(instructions: Vec<Instruction>) -> (r: TransactionRecord)
        ensures
            r.instructions@ == instructions@,
    {
        TransactionRecord { instructions }
    }
}

/// The two tokens of a newly created liquidity pool.
#[derive(Clone, Copy, Debug, PartialEq, Eq)]
pub struct PoolTokenPair {
    pub token0: Address,
    pub token1: Address,
}

/// A log notification from the stream: the transaction signature and its
/// log lines, which the watcher does not interpret.
#[derive(Clone, Debug)]
pub struct LogNotification {
    pub signature: String,
    pub logs: Vec<String>,
}

} // verus!
