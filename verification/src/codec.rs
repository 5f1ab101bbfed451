use crate::address::{spec_address_from_bytes, Address};
use crate::bonding_curve::BondingCurveAccount;
use crate::error::SniperError;
use crate::global::GlobalAccount;
use vstd::bytes::{spec_u32_from_le_bytes, spec_u64_from_le_bytes, u32_from_le_bytes, u64_from_le_bytes};
use vstd::prelude::*;
use vstd::slice::{slice_index_get, slice_subrange};
use vstd::utf8::{decode_utf8, valid_utf8};

verus! {

/// Little-endian 64-bit integer at `off`.
pub fn read_u64_le(data: &[u8], off: usize) -> (r: u64)
    requires
        off + 8 <= data@.len(),
    ensures
        r == spec_u64_from_le_bytes(data@.subrange(off as int, off as int + 8)),
{
    let n = data.len();
    u64_from_le_bytes(slice_subrange(data, off, off + 8))
}

/// Little-endian 32-bit integer at `off`.
pub fn read_u32_le(data: &[u8], off: usize) -> (r: u32)
    requires
        off + 4 <= data@.len(),
    ensures
        r == spec_u32_from_le_bytes(data@.subrange(off as int, off as int + 4)),
{
    let n = data.len();
    u32_from_le_bytes(slice_subrange(data, off, off + 4))
}

/// 32-byte address at `off`.
pub fn read_address(data: &[u8], off: usize) -> (r: Address)
    requires
        off + 32 <= data@.len(),
    ensures
        r == spec_address_from_bytes(data@.subrange(off as int, off as int + 32)),
        r@ == data@.subrange(off as int, off as int + 32),
{
    let n = data.len();
    Address::from_bytes(slice_subrange(data, off, off + 32))
}

/// Relies on `String::from_utf8`: it succeeds exactly on valid UTF-8 input
/// and returns the string those bytes encode.
#[verifier::external_body]
fn string_from_utf8(v: Vec<u8>) -> (r: Option<String>)
    ensures
        r matches Some(s) ==> valid_utf8(v@) && s@ == decode_utf8(v@),
        r is None ==> !valid_utf8(v@),
{
    String::from_utf8(v).ok()
}

/// Length claimed by the 4-byte prefix of a length-prefixed string at `off`.
pub open spec fn spec_str_len(data: Seq<u8>, off: int) -> int {
    spec_u32_from_le_bytes(data.subrange(off, off + 4)) as int
}

/// True when a length-prefixed string starting at `off` lies within `data`
/// and its payload is valid UTF-8.
pub open spec fn spec_str_ok(data: Seq<u8>, off: int) -> bool {
    &&& off + 4 <= data.len()
    &&& off + 4 + spec_str_len(data, off) <= data.len()
    &&& valid_utf8(data.subrange(off + 4, off + 4 + spec_str_len(data, off)))
}

/// The characters of the length-prefixed string at `off`.
pub open spec fn spec_str_chars(data: Seq<u8>, off: int) -> Seq<char> {
    decode_utf8(data.subrange(off + 4, off + 4 + spec_str_len(data, off)))
}

/// Offset of whatever follows the length-prefixed string at `off`.
pub open spec fn spec_str_next(data: Seq<u8>, off: int) -> int {
    off + 4 + spec_str_len(data, off)
}

/// Read a length-prefixed UTF-8 string at `off`: a little-endian 32-bit
/// byte count, then that many bytes. Returns the string and the offset of
/// the next field, or nothing when the bytes run out or are not UTF-8.
pub fn read_prefixed_string(data: &[u8], off: usize) -> (r: Option<(String, usize)>)
    requires
        off <= data@.len(),
    ensures
        r matches Some(p) ==> ({
            &&& spec_str_ok(data@, off as int)
            &&& p.0@ == spec_str_chars(data@, off as int)
            &&& p.1 == spec_str_next(data@, off as int)
            &&& p.1 <= data@.len()
        }),
        r is None ==> !spec_str_ok(data@, off as int),
{
    let remaining = data.len() - off;
    if remaining < 4 {
        return None;
    }
    let claimed = read_u32_le(data, off);
    if (remaining - 4) < (claimed as usize) {
        return None;
    }
    let start = off + 4;
    let end = start + (claimed as usize);
    let payload = slice_subrange(data, start, end);
    let mut bytes: Vec<u8> = Vec::new();
    let mut i: usize = 0;
    while i < payload.len()
        invariant
            i <= payload@.len(),
            bytes@ == payload@.subrange(0, i as int),
        decreases payload@.len() - i,
    {
        bytes.push(*slice_index_get(payload, i));
        proof {
            assert(bytes@ =~= payload@.subrange(0, i + 1));
        }
        i += 1;
    }
    proof {
        assert(bytes@ =~= payload@);
    }
    match string_from_utf8(bytes) {
        Some(s) => Some((s, end)),
        None => None,
    }
}

/// True when `data` decodes as a bonding-curve account: at least the fixed
/// layout's 81 bytes, with a well-formed completion flag. Trailing bytes
/// are ignored.
pub open spec fn spec_curve_decode_ok(data: Seq<u8>) -> bool {
    data.len() >= 81 && (data[48] == 0 || data[48] == 1)
}

/// The bonding-curve account encoded at the head of `data`.
pub open spec fn spec_decoded_curve(data: Seq<u8>) -> BondingCurveAccount {
    BondingCurveAccount {
        discriminator: spec_u64_from_le_bytes(data.subrange(0, 8)),
        virtual_token_reserves: spec_u64_from_le_bytes(data.subrange(8, 16)),
        virtual_sol_reserves: spec_u64_from_le_bytes(data.subrange(16, 24)),
        real_token_reserves: spec_u64_from_le_bytes(data.subrange(24, 32)),
        real_sol_reserves: spec_u64_from_le_bytes(data.subrange(32, 40)),
        token_total_supply: spec_u64_from_le_bytes(data.subrange(40, 48)),
        complete: data[48] == 1,
        creator: spec_address_from_bytes(data.subrange(49, 81)),
    }
}

/// Decode a raw account payload as a bonding-curve account: an 8-byte
/// discriminator, five little-endian 64-bit reserves and supply fields, a
/// completion flag and the 32-byte creator. Fails exactly when the payload
/// is shorter than the layout or the flag byte is not 0 or 1.
pub fn decode_bonding_curve_account(data: &[u8]) -> (r: Result<BondingCurveAccount, SniperError>)
    ensures
        spec_curve_decode_ok(data@) ==> (r matches Ok(c) && c == spec_decoded_curve(data@)),
        !spec_curve_decode_ok(data@) ==> (r matches Err(e) && e is SerializationError),
{
    if data.len() < 81 {
        return Err(
            SniperError::SerializationError(String::from_str("bonding curve payload too short")),
        );
    }
    let flag = *slice_index_get(data, 48);
    if flag > 1 {
        return Err(
            SniperError::SerializationError(
                String::from_str("bonding curve completion flag is not a boolean"),
            ),
        );
    }
    Ok(
        BondingCurveAccount {
            discriminator: read_u64_le(data, 0),
            virtual_token_reserves: read_u64_le(data, 8),
            virtual_sol_reserves: read_u64_le(data, 16),
            real_token_reserves: read_u64_le(data, 24),
            real_sol_reserves: read_u64_le(data, 32),
            token_total_supply: read_u64_le(data, 40),
            complete: flag == 1,
            creator: read_address(data, 49),
        },
    )
}

/// True when `data` decodes as the global configuration account: at least
/// the fixed layout's 418 bytes, with well-formed boolean flags.
pub open spec fn spec_global_decode_ok(data: Seq<u8>) -> bool {
    data.len() >= 418 && (data[8] == 0 || data[8] == 1) && (data[145] == 0 || data[145] == 1)
}

/// Decode a raw account payload as the protocol's global configuration
/// account. Fails exactly when the payload is shorter than the layout or
/// either flag byte is not 0 or 1; trailing bytes are ignored.
pub fn decode_global_account(data: &[u8]) -> (r: Result<GlobalAccount, SniperError>)
    ensures
        spec_global_decode_ok(data@) ==> (r matches Ok(g) && {
            &&& g.discriminator == spec_u64_from_le_bytes(data@.subrange(0, 8))
            &&& g.initialized == (data@[8] == 1)
            &&& g.authority == spec_address_from_bytes(data@.subrange(9, 41))
            &&& g.fee_recipient == spec_address_from_bytes(data@.subrange(41, 73))
            &&& g.initial_virtual_token_reserves == spec_u64_from_le_bytes(
                data@.subrange(73, 81),
            )
            &&& g.initial_virtual_sol_reserves == spec_u64_from_le_bytes(data@.subrange(81, 89))
            &&& g.initial_real_token_reserves == spec_u64_from_le_bytes(data@.subrange(89, 97))
            &&& g.token_total_supply == spec_u64_from_le_bytes(data@.subrange(97, 105))
            &&& g.fee_basis_points == spec_u64_from_le_bytes(data@.subrange(105, 113))
            &&& g.withdraw_authority == spec_address_from_bytes(data@.subrange(113, 145))
            &&& g.enable_migrate == (data@[145] == 1)
            &&& g.pool_migration_fee == spec_u64_from_le_bytes(data@.subrange(146, 154))
            &&& g.creator_fee_basis_points == spec_u64_from_le_bytes(data@.subrange(154, 162))
            &&& forall|k: int|
                0 <= k < 7 ==> g.fee_recipients@[k] == spec_address_from_bytes(
                    data@.subrange(162 + 32 * k, 194 + 32 * k),
                )
            &&& g.set_creator_authority == spec_address_from_bytes(data@.subrange(386, 418))
        }),
        !spec_global_decode_ok(data@) ==> (r matches Err(e) && e is SerializationError),
{
    if data.len() < 418 {
        return Err(
            SniperError::SerializationError(String::from_str("global payload too short")),
        );
    }
    let initialized_flag = *slice_index_get(data, 8);
    let migrate_flag = *slice_index_get(data, 145);
    if initialized_flag > 1 || migrate_flag > 1 {
        return Err(
            SniperError::SerializationError(
                String::from_str("global account flag is not a boolean"),
            ),
        );
    }
    let fee_recipients: [Address; 7] = [
        read_address(data, 162),
        read_address(data, 194),
        read_address(data, 226),
        read_address(data, 258),
        read_address(data, 290),
        read_address(data, 322),
        read_address(data, 354),
    ];
    Ok(
        GlobalAccount {
            discriminator: read_u64_le(data, 0),
            initialized: initialized_flag == 1,
            authority: read_address(data, 9),
            fee_recipient: read_address(data, 41),
            initial_virtual_token_reserves: read_u64_le(data, 73),
            initial_virtual_sol_reserves: read_u64_le(data, 81),
            initial_real_token_reserves: read_u64_le(data, 89),
            token_total_supply: read_u64_le(data, 97),
            fee_basis_points: read_u64_le(data, 105),
            withdraw_authority: read_address(data, 113),
            enable_migrate: migrate_flag == 1,
            pool_migration_fee: read_u64_le(data, 146),
            creator_fee_basis_points: read_u64_le(data, 154),
            fee_recipients,
            set_creator_authority: read_address(data, 386),
        },
    )
}

} // verus!
