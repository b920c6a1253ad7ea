use vstd::prelude::*;

use anchor_lang::prelude::Pubkey;

use crate::identity::AccountId;

verus! {

/// The fixed seed label from which the singleton record's address — and
/// with it the program's derived signing authority — is derived: the bytes
/// of `"program-state"`.
pub open spec fn state_seed() -> Seq<u8> {
    seq![112u8, 114u8, 111u8, 103u8, 114u8, 97u8, 109u8, 45u8, 115u8, 116u8, 97u8, 116u8, 101u8]
}

/// The fixed seed label, as bytes a caller can hand to the derivation.
pub fn seed_bytes() -> (r: Vec<u8>)
    ensures
        r@ == state_seed(),
{
    let mut v: Vec<u8> = Vec::new();
    v.push(112u8);
    v.push(114u8);
    v.push(111u8);
    v.push(103u8);
    v.push(114u8);
    v.push(97u8);
    v.push(109u8);
    v.push(45u8);
    v.push(115u8);
    v.push(116u8);
    v.push(97u8);
    v.push(116u8);
    v.push(101u8);
    proof {
        assert(v@ =~= state_seed());
    }
    v
}

// The address and proof counter that the host ledger's derivation assigns
// to a seed and a program identity: a fixed function of the two arguments,
// left uninterpreted here and computed by the trusted wrapper below.
pub uninterp spec fn find_address(seed: Seq<u8>, program: AccountId) -> Option<(AccountId, u8)>;

/// Relies on anchor_lang's `Pubkey::try_find_program_address`: the derived
/// address and its bump counter depend on the seed bytes and the program
/// identity alone, and `None` comes back only when no counter in the
/// allowed search range yields a valid derived address.
#[verifier::external_body]
fn derive_address(seed: &[u8], program: &AccountId) -> (r: Option<(AccountId, u8)>)
    ensures
        r == find_address(seed@, *program),
{
    let mut b = [0u8; 32];
    b[0..8].copy_from_slice(&program.w0.to_le_bytes());
    b[8..16].copy_from_slice(&program.w1.to_le_bytes());
    b[16..24].copy_from_slice(&program.w2.to_le_bytes());
    b[24..32].copy_from_slice(&program.w3.to_le_bytes());
    let r = Pubkey::try_find_program_address(&[seed], &Pubkey::new_from_array(b))?;
    let o = r.0.to_bytes();
    let w = |k: usize| u64::from_le_bytes(o[k..k + 8].try_into().unwrap());
    Some((AccountId { w0: w(0), w1: w(8), w2: w(16), w3: w(24) }, r.1))
}

/// A derived, program-controlled signing identity: no private key exists
/// for `address`; authority over it is asserted by reproducing the
/// derivation from `state_seed()`, `program` and the counter `bump`.
#[derive(Clone, Copy, Debug, PartialEq, Eq, Structural)]
pub struct DerivedAuthority {
    /// The program whose identity the derivation starts from.
    pub program: AccountId,
    /// The derived address that acts as the signing authority.
    pub address: AccountId,
    /// The proof counter found at derivation time and reused verbatim on
    /// every later authorization.
    pub bump: u8,
}

impl DerivedAuthority {
    /// The proof artifact is exactly what the ledger's derivation assigns
    /// to the fixed seed and this program.
    pub open spec fn wf(self) -> bool {
        find_address(state_seed(), self.program) == Some((self.address, self.bump))
    }
}

/// Derive the program-controlled signing authority from the fixed seed
/// label and the program's own identity.
///
/// The result is a fixed function of `program`, so repeating the
/// derivation always reproduces the same address and the same counter.
/// `None` means no valid counter exists in the allowed search range, and
/// the deployment cannot proceed.
pub fn derive_authority(program: &AccountId) -> (r: Option<DerivedAuthority>)
    ensures
        match r {
            Some(d) => d.program == *program && d.wf(),
            None => find_address(state_seed(), *program) is None,
        },
{
    let seed = seed_bytes();
    match derive_address(seed.as_slice(), program) {
        Some((address, bump)) => Some(DerivedAuthority { program: *program, address, bump }),
        None => None,
    }
}

} // verus!
