//! Tests of the persistent state types and the derived-address helpers.

use star_damm_honorary_fee::state::{
    get_investor_fee_position_owner_pda, get_policy_pda, get_progress_pda, get_treasury_pda,
    investor_fee_pos_owner_seed, policy_seed, progress_seed, treasury_seed, vault_seed,
};

fn key(b: u8) -> Vec<u8> {
    vec![b; 32]
}

#[test]
fn seeds_spell_their_names() {
    assert_eq!(vault_seed(), b"star_vault".to_vec());
    assert_eq!(
        investor_fee_pos_owner_seed(),
        b"investor_fee_pos_owner".to_vec()
    );
    assert_eq!(policy_seed(), b"policy".to_vec());
    assert_eq!(progress_seed(), b"progress".to_vec());
    assert_eq!(treasury_seed(), b"treasury".to_vec());
}

#[test]
fn pda_derivation_is_deterministic() {
    let vault = key(1);
    let program = key(2);
    let a = get_policy_pda(&vault, &program).unwrap();
    let b = get_policy_pda(&vault, &program).unwrap();
    assert_eq!(a, b);
    assert_eq!(a.0.len(), 32);
}

#[test]
fn pda_depends_on_vault_and_seed() {
    let program = key(2);
    let policy = get_policy_pda(&key(1), &program).unwrap();
    let policy_other_vault = get_policy_pda(&key(3), &program).unwrap();
    let progress = get_progress_pda(&key(1), &program).unwrap();
    let owner = get_investor_fee_position_owner_pda(&key(1), &program).unwrap();
    assert_ne!(policy.0, policy_other_vault.0);
    assert_ne!(policy.0, progress.0);
    assert_ne!(policy.0, owner.0);
    // The derivation is a real computation, not the vault handed back.
    assert_ne!(policy.0, key(1));
}

#[test]
fn treasury_pda_depends_on_quote_mint() {
    let vault = key(1);
    let program = key(2);
    let a = get_treasury_pda(&vault, &key(4), &program).unwrap();
    let b = get_treasury_pda(&vault, &key(5), &program).unwrap();
    assert_eq!(a.0.len(), 32);
    assert_ne!(a.0, b.0);
}
