use vstd::prelude::*;

verus! {

/// The user-visible reasons a call can fail.
#[derive(Clone, Copy, Debug, PartialEq, Eq, Structural)]
pub enum SwapError {
    /// A zero-amount deposit was submitted to `swap`.
    NoSolSent,
    /// The deposit times the rate exceeds the 64-bit range.
    MintAmountOverflow,
    /// A caller other than the stored owner attempted a privileged update.
    Unauthorized,
}

/// The storage layer's rejection of a second record at an occupied address.
#[derive(Clone, Copy, Debug, PartialEq, Eq, Structural)]
pub enum InitError {
    /// The singleton address already holds a configuration record.
    AlreadyInitialized,
}

} // verus!
