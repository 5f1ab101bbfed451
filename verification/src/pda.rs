use crate::address::Address;
use crate::constants::{
    bonding_curve_seed, creator_vault_seed, global_seed, metadata_seed, mint_authority_seed,
    mpl_token_metadata, pumpfun_program_id, spec_bonding_curve_seed, spec_creator_vault_seed,
    spec_global_seed, spec_metadata_seed, spec_mint_authority_seed, spec_mpl_token_metadata,
    spec_pumpfun_program_id,
};
use crate::error::SniperError;
use vstd::prelude::*;

verus! {

/// The program-derived address the chain runtime computes from the given
/// seeds under the given program id, when the bump search finds one.
/// A function of the seeds and program id alone.
pub uninterp spec fn pda_of(seeds: Seq<Seq<u8>>, program_id: Seq<u8>) -> Option<Seq<u8>>;

/// Relies on `Pubkey::try_find_program_address` of the chain SDK: the
/// derived address depends on the seeds and program id alone, and is
/// `None` only when the whole bump space is exhausted.
#[verifier::external_body]
fn try_find_pda(seeds: &Vec<Vec<u8>>, program_id: &Address) -> (r: Option<Address>)
    ensures
        r matches Some(a) ==> pda_of(seeds.deep_view(), program_id@) == Some(a@),
        r is None ==> pda_of(seeds.deep_view(), program_id@) is None,
{
    let seed_slices: Vec<&[u8]> = seeds.iter().map(|s| s.as_slice()).collect();
    let program_bytes = program_id.to_bytes();
    let program = solana_pubkey::Pubkey::try_from(program_bytes.as_slice()).unwrap();
    solana_pubkey::Pubkey::try_find_program_address(&seed_slices, &program).map(
        |p: (solana_pubkey::Pubkey, u8)| Address::from_bytes(&p.0.to_bytes()),
    )
}

/// The associated token account address of a wallet for a mint.
/// A function of the two addresses alone.
pub uninterp spec fn ata_of(wallet: Seq<u8>, mint: Seq<u8>) -> Seq<u8>;

/// Relies on `get_associated_token_address` of the associated-token
/// account crate: the address depends on the wallet and mint alone.
#[verifier::external_body]
pub fn associated_token_address(wallet: &Address, mint: &Address) -> (r: Address)
    ensures
        r@ == ata_of(wallet@, mint@),
{
    #[allow(deprecated)]
    let key = spl_associated_token_account::get_associated_token_address(
        &solana_pubkey::Pubkey::try_from(wallet.to_bytes().as_slice()).unwrap(),
        &solana_pubkey::Pubkey::try_from(mint.to_bytes().as_slice()).unwrap(),
    );
    Address::from_bytes(&key.to_bytes())
}

/// Derived bonding-curve address for `mint`.
pub open spec fn spec_bonding_curve_pda(mint: Address) -> Option<Seq<u8>> {
    pda_of(seq![spec_bonding_curve_seed(), mint@], spec_pumpfun_program_id()@)
}

/// Derived global-configuration address.
pub open spec fn spec_global_pda() -> Option<Seq<u8>> {
    pda_of(seq![spec_global_seed()], spec_pumpfun_program_id()@)
}

/// Derived mint-authority address.
pub open spec fn spec_mint_authority_pda() -> Option<Seq<u8>> {
    pda_of(seq![spec_mint_authority_seed()], spec_pumpfun_program_id()@)
}

/// Derived metadata address for `mint`, under the metadata program.
pub open spec fn spec_metadata_pda(mint: Address) -> Option<Seq<u8>> {
    pda_of(
        seq![spec_metadata_seed(), spec_mpl_token_metadata()@, mint@],
        spec_mpl_token_metadata()@,
    )
}

/// Derived per-creator vault address.
pub open spec fn spec_creator_vault_pda(creator: Address) -> Option<Seq<u8>> {
    pda_of(seq![spec_creator_vault_seed(), creator@], spec_pumpfun_program_id()@)
}

/// Derive the bonding-curve address for a mint from the fixed seed tag,
/// the mint and the owning program. Deterministic: equal inputs give the
/// equal derived address. Fails only when the bump space is exhausted.
pub fn derive_bonding_curve_pda(mint: &Address) -> (r: Result<Address, SniperError>)
    ensures
        spec_bonding_curve_pda(*mint) matches Some(a) ==> (r matches Ok(addr) && addr@ == a),
        spec_bonding_curve_pda(*mint) is None ==> (r matches Err(e) && e is RpcError),
{
    let mut seeds: Vec<Vec<u8>> = Vec::new();
    seeds.push(bonding_curve_seed());
    seeds.push(mint.to_bytes());
    proof {
        assert(seeds.deep_view() =~~= seq![spec_bonding_curve_seed(), mint@]);
    }
    match try_find_pda(&seeds, &pumpfun_program_id()) {
        Some(a) => Ok(a),
        None => Err(
            SniperError::RpcError(String::from_str("bonding curve address derivation failed")),
        ),
    }
}

/// Derive the global-configuration address from its fixed seed tag and
/// the owning program. Deterministic across calls.
pub fn derive_global_pda() -> (r: Result<Address, SniperError>)
    ensures
        spec_global_pda() matches Some(a) ==> (r matches Ok(addr) && addr@ == a),
        spec_global_pda() is None ==> (r matches Err(e) && e is RpcError),
{
    let mut seeds: Vec<Vec<u8>> = Vec::new();
    seeds.push(global_seed());
    proof {
        assert(seeds.deep_view() =~~= seq![spec_global_seed()]);
    }
    match try_find_pda(&seeds, &pumpfun_program_id()) {
        Some(a) => Ok(a),
        None => Err(SniperError::RpcError(String::from_str("global address derivation failed"))),
    }
}

/// Derive the mint-authority address from its fixed seed tag and the
/// owning program. Deterministic across calls.
pub fn derive_mint_authority_pda() -> (r: Result<Address, SniperError>)
    ensures
        spec_mint_authority_pda() matches Some(a) ==> (r matches Ok(addr) && addr@ == a),
        spec_mint_authority_pda() is None ==> (r matches Err(e) && e is RpcError),
{
    let mut seeds: Vec<Vec<u8>> = Vec::new();
    seeds.push(mint_authority_seed());
    proof {
        assert(seeds.deep_view() =~~= seq![spec_mint_authority_seed()]);
    }
    match try_find_pda(&seeds, &pumpfun_program_id()) {
        Some(a) => Ok(a),
        None => Err(
            SniperError::RpcError(String::from_str("mint authority address derivation failed")),
        ),
    }
}

/// Derive the metadata address for a mint: the metadata program's id is
/// both a seed component and the deriving authority. Deterministic.
pub fn derive_metadata_pda(mint: &Address) -> (r: Result<Address, SniperError>)
    ensures
        spec_metadata_pda(*mint) matches Some(a) ==> (r matches Ok(addr) && addr@ == a),
        spec_metadata_pda(*mint) is None ==> (r matches Err(e) && e is RpcError),
{
    let mut seeds: Vec<Vec<u8>> = Vec::new();
    seeds.push(metadata_seed());
    seeds.push(mpl_token_metadata().to_bytes());
    seeds.push(mint.to_bytes());
    proof {
        assert(seeds.deep_view() =~~= seq![
            spec_metadata_seed(),
            spec_mpl_token_metadata()@,
            mint@,
        ]);
    }
    match try_find_pda(&seeds, &mpl_token_metadata()) {
        Some(a) => Ok(a),
        None => Err(
            SniperError::RpcError(String::from_str("metadata address derivation failed")),
        ),
    }
}

/// Derive the per-creator vault address from the fixed seed tag, the
/// creator and the owning program. Deterministic across calls.
pub fn derive_creator_vault_pda(creator: &Address) -> (r: Result<Address, SniperError>)
    ensures
        spec_creator_vault_pda(*creator) matches Some(a) ==> (r matches Ok(addr) && addr@ == a),
        spec_creator_vault_pda(*creator) is None ==> (r matches Err(e) && e is RpcError),
{
    let mut seeds: Vec<Vec<u8>> = Vec::new();
    seeds.push(creator_vault_seed());
    seeds.push(creator.to_bytes());
    proof {
        assert(seeds.deep_view() =~~= seq![spec_creator_vault_seed(), creator@]);
    }
    match try_find_pda(&seeds, &pumpfun_program_id()) {
        Some(a) => Ok(a),
        None => Err(
            SniperError::RpcError(String::from_str("creator vault address derivation failed")),
        ),
    }
}

/// Address derivation is deterministic: each derived address is a pure
/// function of the fixed seed tag, the auxiliary key and the owning
/// program, so repeated derivations from identical inputs return the
/// identical address — which the ensures of the derive functions pin to
/// these spec functions.
pub proof fn lemma_derivation_deterministic(first: Address, second: Address)
    requires
        first == second,
    ensures
        spec_bonding_curve_pda(first) == spec_bonding_curve_pda(second),
        spec_metadata_pda(first) == spec_metadata_pda(second),
        spec_creator_vault_pda(first) == spec_creator_vault_pda(second),
{
}

} // verus!
