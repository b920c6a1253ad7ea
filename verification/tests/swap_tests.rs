use swap::authority::{derive_authority, seed_bytes, DerivedAuthority};
use swap::errors::{InitError, SwapError};
use swap::identity::AccountId;
use swap::instructions::{
    create_destination_if_absent, initialize, swap as run_swap, update_config, Initialize, Swap,
    UpdateConfig,
};
use swap::state::ConfigStore;

fn id(n: u64) -> AccountId {
    AccountId { w0: n, w1: 0, w2: 0, w3: 0 }
}

fn init_store(owner: AccountId, vault: AccountId, rate: u64) -> ConfigStore {
    let mut store = ConfigStore::new();
    let ctx = Initialize { payer: id(900), owner, vault };
    assert_eq!(initialize(&mut store, &ctx, rate), Ok(()));
    store
}

fn program_id() -> AccountId {
    AccountId { w0: 11, w1: 22, w2: 33, w3: 44 }
}

fn authority() -> DerivedAuthority {
    derive_authority(&program_id()).expect("no valid counter in the search range")
}

fn fresh_swap_ctx(auth: &DerivedAuthority) -> Swap {
    Swap {
        user: id(7),
        destination_exists: false,
        destination_balance: 0,
        mint_supply: 0,
        mint_authority: auth.address,
        user_native_balance: 1_000,
        vault_native_balance: 50,
    }
}

#[test]
fn swap_mints_at_fixed_rate() {
    let owner = id(1);
    let vault = id(2);
    let store = init_store(owner, vault, 100);
    let auth = authority();
    let mut ctx = fresh_swap_ctx(&auth);

    let r = run_swap(&store, &auth, &mut ctx, 5);

    assert_eq!(r, Ok(()));
    assert!(ctx.destination_exists);
    assert_eq!(ctx.destination_balance, 500);
    assert_eq!(ctx.mint_supply, 500);
    assert_eq!(ctx.user_native_balance, 995);
    assert_eq!(ctx.vault_native_balance, 55);
    assert_eq!(ctx.user, id(7));
}

#[test]
fn swap_zero_deposit_fails_with_no_sol_sent() {
    let store = init_store(id(1), id(2), 100);
    let auth = authority();
    let mut ctx = fresh_swap_ctx(&auth);
    let before = ctx;

    let r = run_swap(&store, &auth, &mut ctx, 0);

    assert_eq!(r, Err(SwapError::NoSolSent));
    assert_eq!(ctx, before);
}

#[test]
fn swap_overflow_fails_with_mint_amount_overflow() {
    let store = init_store(id(1), id(2), 1u64 << 63);
    let auth = authority();
    let mut ctx = fresh_swap_ctx(&auth);
    let before = ctx;

    let r = run_swap(&store, &auth, &mut ctx, 4);

    assert_eq!(r, Err(SwapError::MintAmountOverflow));
    assert_eq!(ctx, before);
}

#[test]
fn swap_with_zero_rate_mints_nothing_but_takes_deposit() {
    // A zero rate is accepted by initialize and update_config; the swap then
    // mints zero derivative units while still moving the deposit.
    let store = init_store(id(1), id(2), 0);
    let auth = authority();
    let mut ctx = fresh_swap_ctx(&auth);

    let r = run_swap(&store, &auth, &mut ctx, 7);

    assert_eq!(r, Ok(()));
    assert!(ctx.destination_exists);
    assert_eq!(ctx.destination_balance, 0);
    assert_eq!(ctx.mint_supply, 0);
    assert_eq!(ctx.user_native_balance, 993);
    assert_eq!(ctx.vault_native_balance, 57);
}

#[test]
fn swap_twice_is_idempotent_on_destination_creation() {
    let store = init_store(id(1), id(2), 10);
    let auth = authority();
    let mut ctx = fresh_swap_ctx(&auth);

    assert_eq!(run_swap(&store, &auth, &mut ctx, 3), Ok(()));
    assert!(ctx.destination_exists);
    assert_eq!(ctx.destination_balance, 30);

    // The destination account already exists: the second call neither fails
    // nor creates a duplicate, it only accumulates.
    assert_eq!(run_swap(&store, &auth, &mut ctx, 4), Ok(()));
    assert!(ctx.destination_exists);
    assert_eq!(ctx.destination_balance, 70);
    assert_eq!(ctx.mint_supply, 70);
    assert_eq!(ctx.user_native_balance, 993);
    assert_eq!(ctx.vault_native_balance, 57);
}

#[test]
fn create_destination_is_a_noop_when_present() {
    let auth = authority();
    let mut ctx = fresh_swap_ctx(&auth);
    ctx.destination_exists = true;
    ctx.destination_balance = 9;
    ctx.mint_supply = 9;
    let before = ctx;

    create_destination_if_absent(&mut ctx);

    assert_eq!(ctx, before);
}

#[test]
fn update_config_by_non_owner_fails_unauthorized() {
    let owner = id(1);
    let vault = id(2);
    let mut store = init_store(owner, vault, 100);
    let intruder = UpdateConfig { owner: id(3) };

    let r = update_config(&mut store, &intruder, 42, Some(id(4)));

    assert_eq!(r, Err(SwapError::Unauthorized));
    let st = store.read().unwrap();
    assert_eq!(st.owner, owner);
    assert_eq!(st.rate, 100);
    assert_eq!(st.vault, vault);
}

#[test]
fn update_config_without_vault_defaults_to_caller_identity() {
    // With new_vault = None the stored vault becomes the caller's own
    // identity, not the previous vault value.
    let owner = id(1);
    let mut store = init_store(owner, id(2), 100);
    let caller = UpdateConfig { owner };

    let r = update_config(&mut store, &caller, 250, None);

    assert_eq!(r, Ok(()));
    let st = store.read().unwrap();
    assert_eq!(st.rate, 250);
    assert_eq!(st.vault, owner);
    assert_eq!(st.owner, owner);
}

#[test]
fn update_config_with_explicit_vault_stores_it() {
    let owner = id(1);
    let mut store = init_store(owner, id(2), 100);
    let caller = UpdateConfig { owner };

    let r = update_config(&mut store, &caller, 9, Some(id(8)));

    assert_eq!(r, Ok(()));
    let st = store.read().unwrap();
    assert_eq!(st.rate, 9);
    assert_eq!(st.vault, id(8));
    assert_eq!(st.owner, owner);
}

#[test]
fn initialize_twice_fails_and_keeps_first_values() {
    let mut store = ConfigStore::new();
    let first = Initialize { payer: id(900), owner: id(1), vault: id(2) };
    let second = Initialize { payer: id(901), owner: id(5), vault: id(6) };

    assert_eq!(initialize(&mut store, &first, 100), Ok(()));
    assert_eq!(initialize(&mut store, &second, 77), Err(InitError::AlreadyInitialized));

    let st = store.read().unwrap();
    assert_eq!(st.owner, id(1));
    assert_eq!(st.rate, 100);
    assert_eq!(st.vault, id(2));
}

#[test]
fn derive_authority_is_deterministic() {
    let a = authority();
    let b = authority();
    assert_eq!(a, b);
    assert_eq!(a.program, program_id());
    // A derived address has no private key and is never the program itself.
    assert_ne!(a.address, program_id());
}

#[test]
fn seed_bytes_spell_the_fixed_label() {
    assert_eq!(seed_bytes(), b"program-state".to_vec());
}

#[test]
fn derive_authority_matches_the_ledger_derivation() {
    // Reproduce the derivation directly with the host ledger's primitive and
    // check that the library's wrapper reports exactly its result.
    let program = program_id();
    let mut bytes = [0u8; 32];
    bytes[0..8].copy_from_slice(&program.w0.to_le_bytes());
    bytes[8..16].copy_from_slice(&program.w1.to_le_bytes());
    bytes[16..24].copy_from_slice(&program.w2.to_le_bytes());
    bytes[24..32].copy_from_slice(&program.w3.to_le_bytes());
    let pk = anchor_lang::prelude::Pubkey::new_from_array(bytes);
    let (expected, expected_bump) =
        anchor_lang::prelude::Pubkey::find_program_address(&[b"program-state"], &pk);

    let auth = authority();
    assert_eq!(auth.bump, expected_bump);
    let o = expected.to_bytes();
    let word = |k: usize| u64::from_le_bytes(o[k..k + 8].try_into().unwrap());
    assert_eq!(auth.address, AccountId { w0: word(0), w1: word(8), w2: word(16), w3: word(24) });
}
