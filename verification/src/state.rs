//! Persistent state of one vault: the immutable policy, the resumable
//! distribution checkpoint, and the derivation of the program's addresses.

use vstd::prelude::*;

use crate::codec::copy_key;
use crate::utils::BPS_DENOMINATOR;

verus! {

/// Immutable distribution policy of one vault, created once at
/// initialization and never mutated thereafter.
#[derive(Clone, Debug, PartialEq)]
pub struct PolicyState {
    /// Maximum share of distributable fees investors may receive, in basis
    /// points.
    pub investor_fee_share_bps: u16,
    /// Optional daily cap in quote tokens; zero means unlimited.
    pub daily_cap: u64,
    /// Per-investor payouts below this threshold are withheld.
    pub min_payout_lamports: u64,
    /// The quote mint of this policy.
    pub quote_mint: Vec<u8>,
    /// The creator's quote token account for remainder payouts.
    pub creator_quote_ata: Vec<u8>,
    /// Total investor allocation fixed at genesis, the denominator of the
    /// locked-fraction calculation.
    pub total_investor_allocation: u64,
    /// Bump of the policy's derived address.
    pub bump: u8,
}

impl PolicyState {
    /// Well-formedness: the share ceiling is a valid fraction and the keys
    /// have the ledger's key width.
    pub open spec fn wf(&self) -> bool {
        &&& self.investor_fee_share_bps <= BPS_DENOMINATOR
        &&& self.quote_mint@.len() == 32
        &&& self.creator_quote_ata@.len() == 32
    }
}

/// Resumable checkpoint of one vault's current or most recent distribution
/// day.  It lives across unboundedly many invocations and is the sole
/// serialization point of the permissionless crank.
#[derive(Clone, Copy, Debug, PartialEq, Eq, Structural)]
pub struct ProgressState {
    /// Timestamp of the most recent day open.
    pub last_distribution_ts: i64,
    /// Cumulative amount paid to investors so far this day.
    pub daily_distributed: u64,
    /// Undistributed amount rolled over from before this day.
    pub carry_over: u64,
    /// Index of the next investor to process this day.
    pub pagination_cursor: u64,
    /// Quote amount claimed for the current day.
    pub daily_claimed_total: u64,
    /// True only between the close of one day and the open of the next.
    pub day_complete: bool,
    /// Bump of the checkpoint's derived address.
    pub bump: u8,
}

impl ProgressState {
    /// The checkpoint invariant: while a day is open, what it has paid out
    /// never exceeds what it has available.  Between days the counters are
    /// a record of the closed day and the next open re-establishes them.
    pub open spec fn wf(&self) -> bool {
        !self.day_complete ==> self.daily_distributed <= self.daily_claimed_total
            + self.carry_over
    }

    /// What the current day still has available for distribution.
    pub open spec fn spec_remaining(&self) -> int {
        self.daily_claimed_total + self.carry_over - self.daily_distributed
    }
}

/// Seed of every vault-scoped derived address.
pub open spec fn spec_vault_seed() -> Seq<u8> {
    seq![115u8, 116u8, 97u8, 114u8, 95u8, 118u8, 97u8, 117u8, 108u8, 116u8]
}

/// Seed of the position-owner authority address.
pub open spec fn spec_investor_fee_pos_owner_seed() -> Seq<u8> {
    seq![
        105u8, 110u8, 118u8, 101u8, 115u8, 116u8, 111u8, 114u8, 95u8, 102u8, 101u8, 101u8, 95u8,
        112u8, 111u8, 115u8, 95u8, 111u8, 119u8, 110u8, 101u8, 114u8,
    ]
}

/// Seed of the policy address.
pub open spec fn spec_policy_seed() -> Seq<u8> {
    seq![112u8, 111u8, 108u8, 105u8, 99u8, 121u8]
}

/// Seed of the progress address.
pub open spec fn spec_progress_seed() -> Seq<u8> {
    seq![112u8, 114u8, 111u8, 103u8, 114u8, 101u8, 115u8, 115u8]
}

/// Seed of the treasury address.
pub open spec fn spec_treasury_seed() -> Seq<u8> {
    seq![116u8, 114u8, 101u8, 97u8, 115u8, 117u8, 114u8, 121u8]
}

/// The bytes of `"star_vault"`.
pub fn vault_seed() -> (r: Vec<u8>)
    ensures
        r@ == spec_vault_seed(),
{
    let r: Vec<u8> = vec![115, 116, 97, 114, 95, 118, 97, 117, 108, 116];
    proof {
        assert(r@ =~= spec_vault_seed());
    }
    r
}

/// The bytes of `"investor_fee_pos_owner"`.
pub fn investor_fee_pos_owner_seed() -> (r: Vec<u8>)
    ensures
        r@ == spec_investor_fee_pos_owner_seed(),
{
    let r: Vec<u8> = vec![
        105, 110, 118, 101, 115, 116, 111, 114, 95, 102, 101, 101, 95, 112, 111, 115, 95, 111,
        119, 110, 101, 114,
    ];
    proof {
        assert(r@ =~= spec_investor_fee_pos_owner_seed());
    }
    r
}

/// The bytes of `"policy"`.
pub fn policy_seed() -> (r: Vec<u8>)
    ensures
        r@ == spec_policy_seed(),
{
    let r: Vec<u8> = vec![112, 111, 108, 105, 99, 121];
    proof {
        assert(r@ =~= spec_policy_seed());
    }
    r
}

/// The bytes of `"progress"`.
pub fn progress_seed() -> (r: Vec<u8>)
    ensures
        r@ == spec_progress_seed(),
{
    let r: Vec<u8> = vec![112, 114, 111, 103, 114, 101, 115, 115];
    proof {
        assert(r@ =~= spec_progress_seed());
    }
    r
}

/// The bytes of `"treasury"`.
pub fn treasury_seed() -> (r: Vec<u8>)
    ensures
        r@ == spec_treasury_seed(),
{
    let r: Vec<u8> = vec![116, 114, 101, 97, 115, 117, 114, 121];
    proof {
        assert(r@ =~= spec_treasury_seed());
    }
    r
}

/// The derived address and bump the ledger assigns to a seed list under a
/// program id.  The derivation is a pure function of its arguments; it is
/// `None` in the statistically improbable event that no bump works.
pub uninterp spec fn pda_of(seeds: Seq<Seq<u8>>, program_id: Seq<u8>) -> Option<(Seq<u8>, u8)>;

/// An address/bump pair as its mathematical value.
pub open spec fn spec_pda_result(r: Option<(Vec<u8>, u8)>) -> Option<(Seq<u8>, u8)> {
    match r {
        Some(p) => Some((p.0@, p.1)),
        None => None,
    }
}

/// Relies on `Pubkey::try_find_program_address`: the derived address and
/// bump depend on the seeds and the program id alone, the call never
/// panics, and an address is 32 bytes.
#[verifier::external_body]
fn try_find_pda(seeds: &Vec<Vec<u8>>, program_id: &Vec<u8>) -> (r: Option<(Vec<u8>, u8)>)
    requires
        program_id@.len() == 32,
    ensures
        spec_pda_result(r) == pda_of(seeds.deep_view(), program_id@),
        r matches Some(p) ==> p.0@.len() == 32,
{
    let pid = anchor_lang::prelude::Pubkey::try_from(program_id.as_slice()).unwrap();
    let seed_refs: Vec<&[u8]> = seeds.iter().map(|s| s.as_slice()).collect();
    anchor_lang::prelude::Pubkey::try_find_program_address(&seed_refs, &pid).map(
        |p: (anchor_lang::prelude::Pubkey, u8)| (p.0.to_bytes().to_vec(), p.1),
    )
}

/// The derived authority that owns the honorary position.
pub fn get_investor_fee_position_owner_pda(vault: &Vec<u8>, program_id: &Vec<u8>) -> (r: Option<
    (Vec<u8>, u8),
>)
    requires
        vault@.len() == 32,
        program_id@.len() == 32,
    ensures
        spec_pda_result(r) == pda_of(
            seq![spec_vault_seed(), vault@, spec_investor_fee_pos_owner_seed()],
            program_id@,
        ),
        r matches Some(p) ==> p.0@.len() == 32,
{
    let mut seeds: Vec<Vec<u8>> = Vec::new();
    seeds.push(vault_seed());
    seeds.push(copy_key(vault));
    seeds.push(investor_fee_pos_owner_seed());
    proof {
        assert(seeds.deep_view() =~~= seq![
            spec_vault_seed(),
            vault@,
            spec_investor_fee_pos_owner_seed(),
        ]);
    }
    try_find_pda(&seeds, program_id)
}

/// The derived address of the vault's policy record.
pub fn get_policy_pda(vault: &Vec<u8>, program_id: &Vec<u8>) -> (r: Option<(Vec<u8>, u8)>)
    requires
        vault@.len() == 32,
        program_id@.len() == 32,
    ensures
        spec_pda_result(r) == pda_of(
            seq![spec_vault_seed(), vault@, spec_policy_seed()],
            program_id@,
        ),
        r matches Some(p) ==> p.0@.len() == 32,
{
    let mut seeds: Vec<Vec<u8>> = Vec::new();
    seeds.push(vault_seed());
    seeds.push(copy_key(vault));
    seeds.push(policy_seed());
    proof {
        assert(seeds.deep_view() =~~= seq![spec_vault_seed(), vault@, spec_policy_seed()]);
    }
    try_find_pda(&seeds, program_id)
}

/// The derived address of the vault's progress checkpoint.
pub fn get_progress_pda(vault: &Vec<u8>, program_id: &Vec<u8>) -> (r: Option<(Vec<u8>, u8)>)
    requires
        vault@.len() == 32,
        program_id@.len() == 32,
    ensures
        spec_pda_result(r) == pda_of(
            seq![spec_vault_seed(), vault@, spec_progress_seed()],
            program_id@,
        ),
        r matches Some(p) ==> p.0@.len() == 32,
{
    let mut seeds: Vec<Vec<u8>> = Vec::new();
    seeds.push(vault_seed());
    seeds.push(copy_key(vault));
    seeds.push(progress_seed());
    proof {
        assert(seeds.deep_view() =~~= seq![spec_vault_seed(), vault@, spec_progress_seed()]);
    }
    try_find_pda(&seeds, program_id)
}

/// The derived address of the vault's fee treasury for a quote mint.
pub fn get_treasury_pda(vault: &Vec<u8>, quote_mint: &Vec<u8>, program_id: &Vec<u8>) -> (r: Option<
    (Vec<u8>, u8),
>)
    requires
        vault@.len() == 32,
        quote_mint@.len() == 32,
        program_id@.len() == 32,
    ensures
        spec_pda_result(r) == pda_of(
            seq![spec_vault_seed(), vault@, spec_treasury_seed(), quote_mint@],
            program_id@,
        ),
        r matches Some(p) ==> p.0@.len() == 32,
{
    let mut seeds: Vec<Vec<u8>> = Vec::new();
    seeds.push(vault_seed());
    seeds.push(copy_key(vault));
    seeds.push(treasury_seed());
    seeds.push(copy_key(quote_mint));
    proof {
        assert(seeds.deep_view() =~~= seq![
            spec_vault_seed(),
            vault@,
            spec_treasury_seed(),
            quote_mint@,
        ]);
    }
    try_find_pda(&seeds, program_id)
}

} // verus!
