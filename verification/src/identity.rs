use vstd::prelude::*;

verus! {

/// Identity of an account on the host ledger: a 256-bit address held as
/// four 64-bit words (little-endian word order, `w0` first).
#[derive(Clone, Copy, Debug, PartialEq, Eq, Structural)]
pub struct AccountId {
    pub w0: u64,
    pub w1: u64,
    pub w2: u64,
    pub w3: u64,
}

} // verus!
