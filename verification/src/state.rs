use vstd::prelude::*;

use crate::errors::InitError;
use crate::identity::AccountId;

verus! {

/// The singleton configuration record: the identity allowed to mutate the
/// configuration, the exchange rate (derivative units minted per deposited
/// native unit), and the vault that receives deposits.
#[derive(Clone, Copy, Debug, PartialEq, Eq, Structural)]
pub struct ProgramState {
    /// Identity permitted to mutate the configuration; never changed after
    /// creation by the modeled instructions.
    pub owner: AccountId,
    /// Derivative units minted per deposited native unit.
    pub rate: u64,
    /// Identity of the account that receives deposited native units.
    pub vault: AccountId,
}

/// The storage slot at the deterministic singleton address.
///
/// The slot starts empty and is filled by a create-if-absent guard:
/// creation at an occupied address fails, which enforces that exactly one
/// configuration record exists for the lifetime of a deployment. The record
/// is never deleted.
pub struct ConfigStore {
    record: Option<ProgramState>,
}

impl View for ConfigStore {
    type V = Option<ProgramState>;

    closed spec fn view(&self) -> Option<ProgramState> {
        self.record
    }
}

impl ConfigStore {
    /// An empty slot: no configuration record has been created yet.
    pub fn new() -> (s: ConfigStore)
        ensures
            s@ is None,
    {
        ConfigStore { record: None }
    }

    /// Create-if-absent guard: stores `record` when the slot is empty and
    /// rejects the attempt when the address is already occupied.
    pub fn create(&mut self, record: ProgramState) -> (r: Result<(), InitError>)
        ensures
            old(self)@ is Some ==> r == Err::<(), InitError>(InitError::AlreadyInitialized)
                && final(self)@ == old(self)@,
            old(self)@ is None ==> r == Ok::<(), InitError>(()) && final(self)@ == Some(record),
    {
        match self.record {
            Some(_) => Err(InitError::AlreadyInitialized),
            None => {
                self.record = Some(record);
                Ok(())
            },
        }
    }

    /// The record held at the singleton address, if one was created.
    pub fn read(&self) -> (r: Option<ProgramState>)
        ensures
            r == self@,
    {
        self.record
    }

    /// Replace the existing record; only called once the slot is occupied,
    /// so the store never leaves its initialized state.
    pub fn overwrite(&mut self, record: ProgramState)
        requires
            old(self)@ is Some,
        ensures
            final(self)@ == Some(record),
    {
        self.record = Some(record);
    }
}

} // verus!
