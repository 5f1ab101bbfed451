use crate::address::Address;
use vstd::prelude::*;

verus! {

/// Base58 form of the owning program's identifier.
pub const PUMPFUN_PROGRAM_ID: &'static str = "6EF8rrecthR5Dkzon8Nwu78hRvfCKubJ14M5uBEwF6P";

/// Byte size of a bonding-curve account: an 8-byte discriminator, five
/// 8-byte integers, a 1-byte completion flag and a 32-byte creator address.
pub const CURVE_ACCOUNT_SIZE: u64 = 81;

/// Leading 8 bytes of a token-creation instruction payload.
pub open spec fn spec_create_discriminator() -> Seq<u8> {
    seq![24u8, 30u8, 200u8, 40u8, 5u8, 28u8, 7u8, 119u8]
}

/// Leading 8 bytes of a buy instruction payload.
pub open spec fn spec_buy_discriminator() -> Seq<u8> {
    seq![102u8, 6u8, 61u8, 18u8, 1u8, 218u8, 235u8, 234u8]
}

/// The creation discriminator as bytes.
pub fn create_discriminator() -> (r: [u8; 8])
    ensures
        r@ == spec_create_discriminator(),
{
    let r: [u8; 8] = [24, 30, 200, 40, 5, 28, 7, 119];
    proof {
        assert(r@ =~= spec_create_discriminator());
    }
    r
}

/// The buy discriminator as bytes.
pub fn buy_discriminator() -> (r: [u8; 8])
    ensures
        r@ == spec_buy_discriminator(),
{
    let r: [u8; 8] = [102, 6, 61, 18, 1, 218, 235, 234];
    proof {
        assert(r@ =~= spec_buy_discriminator());
    }
    r
}

/// Seed tag `"global"`.
pub open spec fn spec_global_seed() -> Seq<u8> {
    seq![103u8, 108u8, 111u8, 98u8, 97u8, 108u8]
}

/// Seed tag `"mint-authority"`.
pub open spec fn spec_mint_authority_seed() -> Seq<u8> {
    seq![
        109u8,
        105u8,
        110u8,
        116u8,
        45u8,
        97u8,
        117u8,
        116u8,
        104u8,
        111u8,
        114u8,
        105u8,
        116u8,
        121u8,
    ]
}

/// Seed tag `"bonding-curve"`.
pub open spec fn spec_bonding_curve_seed() -> Seq<u8> {
    seq![98u8, 111u8, 110u8, 100u8, 105u8, 110u8, 103u8, 45u8, 99u8, 117u8, 114u8, 118u8, 101u8]
}

/// Seed tag `"metadata"`.
pub open spec fn spec_metadata_seed() -> Seq<u8> {
    seq![109u8, 101u8, 116u8, 97u8, 100u8, 97u8, 116u8, 97u8]
}

/// Seed tag `"creator-vault"`.
pub open spec fn spec_creator_vault_seed() -> Seq<u8> {
    seq![99u8, 114u8, 101u8, 97u8, 116u8, 111u8, 114u8, 45u8, 118u8, 97u8, 117u8, 108u8, 116u8]
}

/// The `"global"` seed as bytes.
pub fn global_seed() -> (r: Vec<u8>)
    ensures
        r@ == spec_global_seed(),
{
    let r: Vec<u8> = vec![103, 108, 111, 98, 97, 108];
    proof {
        assert(r@ =~= spec_global_seed());
    }
    r
}

/// The `"mint-authority"` seed as bytes.
pub fn mint_authority_seed() -> (r: Vec<u8>)
    ensures
        r@ == spec_mint_authority_seed(),
{
    let r: Vec<u8> = vec![109, 105, 110, 116, 45, 97, 117, 116, 104, 111, 114, 105, 116, 121];
    proof {
        assert(r@ =~= spec_mint_authority_seed());
    }
    r
}

/// The `"bonding-curve"` seed as bytes.
pub fn bonding_curve_seed() -> (r: Vec<u8>)
    ensures
        r@ == spec_bonding_curve_seed(),
{
    let r: Vec<u8> = vec![98, 111, 110, 100, 105, 110, 103, 45, 99, 117, 114, 118, 101];
    proof {
        assert(r@ =~= spec_bonding_curve_seed());
    }
    r
}

/// The `"metadata"` seed as bytes.
pub fn metadata_seed() -> (r: Vec<u8>)
    ensures
        r@ == spec_metadata_seed(),
{
    let r: Vec<u8> = vec![109, 101, 116, 97, 100, 97, 116, 97];
    proof {
        assert(r@ =~= spec_metadata_seed());
    }
    r
}

/// The `"creator-vault"` seed as bytes.
pub fn creator_vault_seed() -> (r: Vec<u8>)
    ensures
        r@ == spec_creator_vault_seed(),
{
    let r: Vec<u8> = vec![99, 114, 101, 97, 116, 111, 114, 45, 118, 97, 117, 108, 116];
    proof {
        assert(r@ =~= spec_creator_vault_seed());
    }
    r
}

/// The owning program's identifier.
pub open spec fn spec_pumpfun_program_id() -> Address {
    Address { w0: 0xcf5a6693f6e05601, w1: 0xaa5b17bf6815db44, w2: 0x3bffd2f597cb8951, w3: 0xb0186dfdb62b5d65 }
}

/// The token-metadata program's identifier.
pub open spec fn spec_mpl_token_metadata() -> Address {
    Address { w0: 0x457cd1e3b165700b, w1: 0xcdc3046b7f529d38, w2: 0xb5fda01a736cb858, w3: 0x4629f803bcd1b649 }
}

/// The system program's identifier.
pub open spec fn spec_system_program() -> Address {
    Address { w0: 0, w1: 0, w2: 0, w3: 0 }
}

/// The token program's identifier.
pub open spec fn spec_token_program() -> Address {
    Address { w0: 0x93a165d7e1f6dd06, w1: 0xac79ebce46e1cbd9, w2: 0x91375b5fed85b41c, w3: 0xa900ff7e85f58c3a }
}

/// The associated-token program's identifier.
pub open spec fn spec_associated_token_program() -> Address {
    Address { w0: 0xf189244e8f25978c, w1: 0x830d8e1429103dbb, w2: 0x8410ffda99135a0b, w3: 0x59f8e9dbd87b8e04 }
}

/// The rent sysvar's identifier.
pub open spec fn spec_rent_sysvar() -> Address {
    Address { w0: 0x515c2c1917d5a706, w1: 0x7ff14a3d4cc98c21, w2: 0x44fda19b08eeda58, w3: 0x8ad9dbe3 }
}

/// The protocol's event-authority identifier.
pub open spec fn spec_event_authority() -> Address {
    Address { w0: 0x4e1cfc01eb36f1ac, w1: 0xb54a84b5c8233d88, w2: 0xe9c557dd6af6379a, w3: 0x645cd359e0533bac }
}

/// The compute-budget program's identifier.
pub open spec fn spec_compute_budget_program() -> Address {
    Address { w0: 0x321721e56f460603, w1: 0xe79bc372baadecff, w2: 0x6b12f7c5bbe58cbc, w3: 0x403a9b432c }
}

/// Owning program id, `6EF8rrecthR5Dkzon8Nwu78hRvfCKubJ14M5uBEwF6P`.
pub fn pumpfun_program_id() -> (r: Address)
    ensures
        r == spec_pumpfun_program_id(),
{
    Address { w0: 0xcf5a6693f6e05601, w1: 0xaa5b17bf6815db44, w2: 0x3bffd2f597cb8951, w3: 0xb0186dfdb62b5d65 }
}

/// Token-metadata program id, `metaqbxxUerdq28cj1RbAWkYQm3ybzjb6a8bt518x1s`.
pub fn mpl_token_metadata() -> (r: Address)
    ensures
        r == spec_mpl_token_metadata(),
{
    Address { w0: 0x457cd1e3b165700b, w1: 0xcdc3046b7f529d38, w2: 0xb5fda01a736cb858, w3: 0x4629f803bcd1b649 }
}

/// System program id, `11111111111111111111111111111111`.
pub fn system_program() -> (r: Address)
    ensures
        r == spec_system_program(),
{
    Address { w0: 0, w1: 0, w2: 0, w3: 0 }
}

/// Token program id, `TokenkegQfeZyiNwAJbNbGKPFXCWuBvf9Ss623VQ5DA`.
pub fn token_program() -> (r: Address)
    ensures
        r == spec_token_program(),
{
    Address { w0: 0x93a165d7e1f6dd06, w1: 0xac79ebce46e1cbd9, w2: 0x91375b5fed85b41c, w3: 0xa900ff7e85f58c3a }
}

/// Associated-token program id, `ATokenGPvbdGVxr1b2hvZbsiqW5xWH25efTNsLJA8knL`.
pub fn associated_token_program() -> (r: Address)
    ensures
        r == spec_associated_token_program(),
{
    Address { w0: 0xf189244e8f25978c, w1: 0x830d8e1429103dbb, w2: 0x8410ffda99135a0b, w3: 0x59f8e9dbd87b8e04 }
}

/// Rent sysvar id, `SysvarRent111111111111111111111111111111111`.
pub fn rent_sysvar() -> (r: Address)
    ensures
        r == spec_rent_sysvar(),
{
    Address { w0: 0x515c2c1917d5a706, w1: 0x7ff14a3d4cc98c21, w2: 0x44fda19b08eeda58, w3: 0x8ad9dbe3 }
}

/// Event-authority id, `Ce6TQqeHC9p8KetsN6JsjHK7UTZk7nasjjnr7XxXp9F1`.
pub fn event_authority() -> (r: Address)
    ensures
        r == spec_event_authority(),
{
    Address { w0: 0x4e1cfc01eb36f1ac, w1: 0xb54a84b5c8233d88, w2: 0xe9c557dd6af6379a, w3: 0x645cd359e0533bac }
}

/// Compute-budget program id, `ComputeBudget111111111111111111111111111111`.
pub fn compute_budget_program() -> (r: Address)
    ensures
        r == spec_compute_budget_program(),
{
    Address { w0: 0x321721e56f460603, w1: 0xe79bc372baadecff, w2: 0x6b12f7c5bbe58cbc, w3: 0x403a9b432c }
}

} // verus!
