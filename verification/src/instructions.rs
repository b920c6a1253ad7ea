use vstd::prelude::*;

use crate::authority::DerivedAuthority;
use crate::errors::{InitError, SwapError};
use crate::identity::AccountId;
use crate::state::{ConfigStore, ProgramState};

verus! {

/// The account surface handed to `initialize`.
#[derive(Clone, Copy, Debug, PartialEq, Eq, Structural)]
pub struct Initialize {
    /// Funds the record's storage; plays no further part in the model.
    pub payer: AccountId,
    /// Identity stored as the configuration owner.
    pub owner: AccountId,
    /// Identity stored as the deposit vault.
    pub vault: AccountId,
}

/// The account surface handed to `swap`: the caller, the caller's
/// destination account for the derivative asset, the derivative mint, and
/// the native balances the call may move.
#[derive(Clone, Copy, Debug, PartialEq, Eq, Structural)]
pub struct Swap {
    /// The depositing caller.
    pub user: AccountId,
    /// Whether the caller's destination account for the derivative asset
    /// exists yet.
    pub destination_exists: bool,
    /// Derivative units held by the caller's destination account.
    pub destination_balance: u64,
    /// Total supply of the derivative asset.
    pub mint_supply: u64,
    /// Identity holding authority to mint the derivative asset.
    pub mint_authority: AccountId,
    /// Native units held by the caller.
    pub user_native_balance: u64,
    /// Native units held by the vault named in the configuration record,
    /// read at call time.
    pub vault_native_balance: u64,
}

/// The account surface handed to `update_config`: the signing caller, who
/// must equal the stored owner.
#[derive(Clone, Copy, Debug, PartialEq, Eq, Structural)]
pub struct UpdateConfig {
    /// The caller claiming to be the configuration owner.
    pub owner: AccountId,
}

impl Swap {
    /// A destination account holds derivative units only once it exists,
    /// and no single account holds more than the total supply.
    pub open spec fn wf(self) -> bool {
        &&& !self.destination_exists ==> self.destination_balance == 0
        &&& self.destination_balance <= self.mint_supply
    }
}

/// What `initialize` does to the singleton slot: create-if-absent, else
/// fail and change nothing.
pub open spec fn initialize_transition(slot: Option<ProgramState>, ctx: Initialize, rate: u64) -> (
    Option<ProgramState>,
    Result<(), InitError>,
) {
    if slot is Some {
        (slot, Err(InitError::AlreadyInitialized))
    } else {
        (
            Some(ProgramState { owner: ctx.owner, rate: rate, vault: ctx.vault }),
            Ok(()),
        )
    }
}

/// What `swap` does to the accounts it touches: reject a zero deposit,
/// reject a deposit whose product with the rate leaves the 64-bit range,
/// and otherwise create the destination account if absent, mint exactly
/// `sol_amount * rate` derivative units to it, and move exactly
/// `sol_amount` native units from the caller to the vault.
pub open spec fn swap_transition(st: ProgramState, ctx: Swap, sol_amount: u64) -> (
    Swap,
    Result<(), SwapError>,
) {
    if sol_amount == 0 {
        (ctx, Err(SwapError::NoSolSent))
    } else if sol_amount * st.rate > u64::MAX {
        (ctx, Err(SwapError::MintAmountOverflow))
    } else {
        (
            Swap {
                user: ctx.user,
                destination_exists: true,
                destination_balance: (ctx.destination_balance + sol_amount * st.rate) as u64,
                mint_supply: (ctx.mint_supply + sol_amount * st.rate) as u64,
                mint_authority: ctx.mint_authority,
                user_native_balance: (ctx.user_native_balance - sol_amount) as u64,
                vault_native_balance: (ctx.vault_native_balance + sol_amount) as u64,
            },
            Ok(()),
        )
    }
}

/// What `update_config` does to the record: reject a caller other than the
/// stored owner and change nothing; otherwise store the new rate and, when
/// no explicit vault is supplied, the caller's own identity as the vault.
pub open spec fn update_config_transition(
    st: ProgramState,
    ctx: UpdateConfig,
    new_rate: u64,
    new_vault: Option<AccountId>,
) -> (ProgramState, Result<(), SwapError>) {
    if ctx.owner != st.owner {
        (st, Err(SwapError::Unauthorized))
    } else {
        (
            ProgramState {
                owner: st.owner,
                rate: new_rate,
                vault: match new_vault {
                    Some(v) => v,
                    None => ctx.owner,
                },
            },
            Ok(()),
        )
    }
}

/// The machine limits under which a successful swap's balance updates fit
/// the 64-bit accounts: the hosting ledger aborts the whole call when a
/// balance would overflow or the caller cannot fund the deposit, so a
/// verified caller must establish them up front.
pub open spec fn swap_within_limits(st: ProgramState, ctx: Swap, sol_amount: u64) -> bool {
    sol_amount > 0 && sol_amount * st.rate <= u64::MAX ==> {
        &&& ctx.mint_supply + sol_amount * st.rate <= u64::MAX
        &&& ctx.vault_native_balance + sol_amount <= u64::MAX
        &&& sol_amount <= ctx.user_native_balance
    }
}

/// Create the singleton configuration record, exactly once: a second call
/// finds the address occupied and fails without changing the record.
pub fn initialize(store: &mut ConfigStore, ctx: &Initialize, rate: u64) -> (r: Result<
    (),
    InitError,
>)
    ensures
        (final(store)@, r) == initialize_transition(old(store)@, *ctx, rate),
{
    store.create(ProgramState { owner: ctx.owner, rate: rate, vault: ctx.vault })
}

/// Ensure the caller's destination account for the derivative asset
/// exists; when it already does, this is a no-op — it neither fails nor
/// creates a second account.
pub fn create_destination_if_absent(ctx: &mut Swap)
    ensures
        *final(ctx) == (Swap { destination_exists: true, ..*old(ctx) }),
{
    if !ctx.destination_exists {
        ctx.destination_exists = true;
    }
}

/// Mint `amount` derivative units into the caller's destination account.
///
/// Minting is authorized exclusively by the program's derived authority:
/// the caller must present a valid derivation proof for the identity that
/// holds authority over the mint.
pub fn mint_to(ctx: &mut Swap, authority: &DerivedAuthority, amount: u64)
    requires
        old(ctx).wf(),
        old(ctx).destination_exists,
        authority.wf(),
        authority.address == old(ctx).mint_authority,
        old(ctx).mint_supply + amount <= u64::MAX,
    ensures
        *final(ctx) == (Swap {
            destination_balance: (old(ctx).destination_balance + amount) as u64,
            mint_supply: (old(ctx).mint_supply + amount) as u64,
            ..*old(ctx)
        }),
        final(ctx).wf(),
{
    ctx.destination_balance = ctx.destination_balance + amount;
    ctx.mint_supply = ctx.mint_supply + amount;
}

/// Move `amount` native units from the caller to the vault.
pub fn transfer_native(ctx: &mut Swap, amount: u64)
    requires
        amount <= old(ctx).user_native_balance,
        old(ctx).vault_native_balance + amount <= u64::MAX,
    ensures
        *final(ctx) == (Swap {
            user_native_balance: (old(ctx).user_native_balance - amount) as u64,
            vault_native_balance: (old(ctx).vault_native_balance + amount) as u64,
            ..*old(ctx)
        }),
{
    ctx.user_native_balance = ctx.user_native_balance - amount;
    ctx.vault_native_balance = ctx.vault_native_balance + amount;
}

/// Validate and execute a deposit-to-mint exchange, as one atomic unit:
/// a rejected call leaves every account exactly as it was.
pub fn swap(
    store: &ConfigStore,
    authority: &DerivedAuthority,
    ctx: &mut Swap,
    sol_amount: u64,
) -> (r: Result<(), SwapError>)
    requires
        store@ is Some,
        old(ctx).wf(),
        authority.wf(),
        authority.address == old(ctx).mint_authority,
        swap_within_limits(store@->0, *old(ctx), sol_amount),
    ensures
        (*final(ctx), r) == swap_transition(store@->0, *old(ctx), sol_amount),
        final(ctx).wf(),
{
    let st = store.read().unwrap();
    if sol_amount == 0 {
        return Err(SwapError::NoSolSent);
    }
    let amount_to_mint = match sol_amount.checked_mul(st.rate) {
        Some(a) => a,
        None => {
            return Err(SwapError::MintAmountOverflow);
        },
    };
    create_destination_if_absent(ctx);
    mint_to(ctx, authority, amount_to_mint);
    transfer_native(ctx, sol_amount);
    Ok(())
}

/// Owner-gated mutation of the configuration: a non-owner caller is
/// rejected and the record is left unchanged; the owner stores a new rate
/// and, when no explicit vault is supplied, the caller's own identity as
/// the vault.
pub fn update_config(
    store: &mut ConfigStore,
    ctx: &UpdateConfig,
    new_rate: u64,
    new_vault: Option<AccountId>,
) -> (r: Result<(), SwapError>)
    requires
        old(store)@ is Some,
    ensures
        ({
            let (st, res) = update_config_transition(old(store)@->0, *ctx, new_rate, new_vault);
            final(store)@ == Some(st) && r == res
        }),
{
    let st = store.read().unwrap();
    if ctx.owner != st.owner {
        return Err(SwapError::Unauthorized);
    }
    let vault = match new_vault {
        Some(v) => v,
        None => ctx.owner,
    };
    store.overwrite(ProgramState { owner: st.owner, rate: new_rate, vault: vault });
    Ok(())
}

/// For every positive deposit whose product with the rate fits in 64 bits,
/// a swap succeeds, mints exactly `deposit * rate` derivative units into
/// the caller's destination account, and moves exactly `deposit` native
/// units from the caller to the vault.
pub proof fn lemma_swap_success(st: ProgramState, ctx: Swap, deposit: u64)
    requires
        ctx.wf(),
        deposit > 0,
        deposit * st.rate <= u64::MAX,
        swap_within_limits(st, ctx, deposit),
    ensures
        ({
            let (c, r) = swap_transition(st, ctx, deposit);
            &&& r == Ok::<(), SwapError>(())
            &&& c.destination_balance == ctx.destination_balance + deposit * st.rate
            &&& c.mint_supply == ctx.mint_supply + deposit * st.rate
            &&& c.user_native_balance == ctx.user_native_balance - deposit
            &&& c.vault_native_balance == ctx.vault_native_balance + deposit
            &&& c.destination_exists
            &&& c.user == ctx.user
            &&& c.mint_authority == ctx.mint_authority
        }),
{
}

/// A zero-amount deposit always fails with `NoSolSent` and changes no
/// account.
pub proof fn lemma_swap_zero_deposit(st: ProgramState, ctx: Swap)
    ensures
        swap_transition(st, ctx, 0) == (ctx, Err::<(), SwapError>(SwapError::NoSolSent)),
{
}

/// A deposit whose product with the rate leaves the 64-bit range always
/// fails with `MintAmountOverflow` and changes no account.
pub proof fn lemma_swap_overflow(st: ProgramState, ctx: Swap, deposit: u64)
    requires
        deposit > 0,
        deposit * st.rate > u64::MAX,
    ensures
        swap_transition(st, ctx, deposit) == (ctx, Err::<(), SwapError>(SwapError::MintAmountOverflow)),
{
}

/// A configuration update by any caller other than the stored owner always
/// fails with `Unauthorized` and leaves the record unchanged.
pub proof fn lemma_update_config_unauthorized(
    st: ProgramState,
    ctx: UpdateConfig,
    new_rate: u64,
    new_vault: Option<AccountId>,
)
    requires
        ctx.owner != st.owner,
    ensures
        update_config_transition(st, ctx, new_rate, new_vault) == (
            st,
            Err::<(), SwapError>(SwapError::Unauthorized),
        ),
{
}

/// An owner's update with no explicit vault stores the new rate and the
/// caller's own identity as the vault — not the previous vault value.
pub proof fn lemma_update_config_default_vault(st: ProgramState, ctx: UpdateConfig, new_rate: u64)
    requires
        ctx.owner == st.owner,
    ensures
        update_config_transition(st, ctx, new_rate, None) == (
            (ProgramState { owner: st.owner, rate: new_rate, vault: ctx.owner }),
            Ok::<(), SwapError>(()),
        ),
{
}

/// The owner identity is immutable after creation: however the
/// configuration is updated, the stored owner stays what `initialize`
/// wrote; only the rate and the vault can change.
pub proof fn lemma_owner_immutable(
    st: ProgramState,
    ctx: UpdateConfig,
    new_rate: u64,
    new_vault: Option<AccountId>,
)
    ensures
        update_config_transition(st, ctx, new_rate, new_vault).0.owner == st.owner,
{
}

/// Creating the singleton record twice: starting from an empty slot, the
/// first creation succeeds and the second always fails, so the record
/// reflects only the first call's values.
pub proof fn lemma_initialize_once(ctx1: Initialize, rate1: u64, ctx2: Initialize, rate2: u64)
    ensures
        ({
            let (s1, r1) = initialize_transition(None, ctx1, rate1);
            let (s2, r2) = initialize_transition(s1, ctx2, rate2);
            &&& r1 == Ok::<(), InitError>(())
            &&& r2 == Err::<(), InitError>(InitError::AlreadyInitialized)
            &&& s2 == s1
            &&& s1 == Some(ProgramState { owner: ctx1.owner, rate: rate1, vault: ctx1.vault })
        }),
{
}

/// Destination-account creation is idempotent: a second swap by the same
/// caller finds the destination account already in place, does not fail,
/// and keeps a single destination account.
pub proof fn lemma_swap_destination_idempotent(st: ProgramState, ctx: Swap, d1: u64, d2: u64)
    requires
        ctx.wf(),
        d1 > 0,
        d2 > 0,
        d1 * st.rate <= u64::MAX,
        d2 * st.rate <= u64::MAX,
        ctx.mint_supply + d1 * st.rate + d2 * st.rate <= u64::MAX,
        ctx.vault_native_balance + d1 + d2 <= u64::MAX,
        d1 + d2 <= ctx.user_native_balance,
    ensures
        ({
            let (c1, r1) = swap_transition(st, ctx, d1);
            let (c2, r2) = swap_transition(st, c1, d2);
            &&& r1 == Ok::<(), SwapError>(())
            &&& c1.destination_exists
            &&& r2 == Ok::<(), SwapError>(())
            &&& c2.destination_exists
            &&& c2.user == ctx.user
        }),
{
}

} // verus!
