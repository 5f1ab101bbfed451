use crate::address::{spec_address_from_bytes, Address};
use crate::codec::spec_str_chars;
use crate::instructions::{
    spec_create_creator_off, spec_create_instr_ok, spec_create_name_off, spec_create_symbol_off,
    spec_create_uri_off, CreateInstruction,
};
use crate::pda::{derive_bonding_curve_pda, spec_bonding_curve_pda};
use crate::token_info::TokenInfo;
use vstd::prelude::*;
use vstd::slice::slice_index_get;

verus! {

/// One compiled instruction of a chain transaction: indexes into the
/// transaction's account-key table, and the raw payload.
#[derive(Debug)]
pub struct CompiledInstruction {
    pub accounts: Vec<u8>,
    pub data: Vec<u8>,
}

/// The part of a chain transaction message the parser reads: the
/// account-key table and the instruction list.
#[derive(Debug)]
pub struct TxMessage {
    pub account_keys: Vec<Vec<u8>>,
    pub instructions: Vec<CompiledInstruction>,
}

/// True when an instruction payload is tagged as a token creation.
pub open spec fn spec_is_create_tagged(d: Seq<u8>) -> bool {
    d.len() >= 8 && d.subrange(0, 8) == crate::constants::spec_create_discriminator()
}

/// True when some instruction of the message is tagged as a creation.
pub open spec fn spec_has_create(msg: TxMessage) -> bool {
    exists|i: int|
        0 <= i < msg.instructions@.len() && #[trigger] spec_is_create_tagged(
            msg.instructions@[i].data@,
        )
}

/// True exactly when some instruction payload carries the creation
/// discriminator. Short payloads are skipped, not errors.
pub fn is_create_transaction(msg: &TxMessage) -> (r: bool)
    ensures
        r == spec_has_create(*msg),
{
    let n = msg.instructions.len();
    let mut k: usize = 0;
    while k < n
        invariant
            n == msg.instructions@.len(),
            k <= n,
            forall|i: int|
                0 <= i < k ==> !#[trigger] spec_is_create_tagged(msg.instructions@[i].data@),
        decreases n - k,
    {
        if crate::instructions::has_create_discriminator(msg.instructions[k].data.as_slice()) {
            proof {
                assert(spec_is_create_tagged(msg.instructions@[k as int].data@));
            }
            return true;
        }
        k += 1;
    }
    false
}

/// The mint address referenced by instruction `i`: the first account index
/// of the instruction, looked up in the account-key table, when that
/// index exists and the key has 32 bytes.
pub open spec fn spec_extract_mint(msg: TxMessage, i: int) -> Option<Address> {
    let ix = msg.instructions@[i];
    if ix.accounts@.len() == 0 {
        None
    } else {
        let key_index = ix.accounts@[0] as int;
        if key_index >= msg.account_keys@.len() {
            None
        } else if msg.account_keys@[key_index]@.len() == 32 {
            Some(spec_address_from_bytes(msg.account_keys@[key_index]@))
        } else {
            None
        }
    }
}

/// Resolve the mint referenced by instruction `instruction_index`.
pub fn extract_mint_from_instruction(msg: &TxMessage, instruction_index: usize) -> (r: Option<
    Address,
>)
    requires
        instruction_index < msg.instructions@.len(),
    ensures
        r == spec_extract_mint(*msg, instruction_index as int),
{
    let ix = &msg.instructions[instruction_index];
    if ix.accounts.len() == 0 {
        return None;
    }
    let key_index = *slice_index_get(ix.accounts.as_slice(), 0) as usize;
    if key_index >= msg.account_keys.len() {
        return None;
    }
    let key = &msg.account_keys[key_index];
    if key.len() == 32 {
        Some(Address::from_bytes(key.as_slice()))
    } else {
        None
    }
}

/// True when instruction `i` yields a token: its payload parses as a
/// creation, its mint resolves, and the curve address derives.
pub open spec fn spec_parse_step_ok(msg: TxMessage, i: int) -> bool {
    &&& spec_create_instr_ok(msg.instructions@[i].data@)
    &&& spec_extract_mint(msg, i) is Some
    &&& spec_bonding_curve_pda(spec_extract_mint(msg, i)->Some_0) is Some
}

/// Index of the first instruction at or after `i` that yields a token.
pub open spec fn spec_first_parse_ok_from(msg: TxMessage, i: int) -> Option<int>
    decreases msg.instructions@.len() - i,
    when 0 <= i <= msg.instructions@.len()
{
    if i >= msg.instructions@.len() {
        None
    } else if spec_parse_step_ok(msg, i) {
        Some(i)
    } else {
        spec_first_parse_ok_from(msg, i + 1)
    }
}

/// Scan the message for the first creation instruction that decodes,
/// whose mint resolves, and whose curve address derives, and return the
/// populated token record; nothing when no instruction yields all three.
/// `signature` and `created_at` are recorded as given.
pub fn parse_token_creation(
    msg: &TxMessage,
    signature: String,
    created_at: u64,
) -> (r: Option<TokenInfo>)
    ensures
        spec_first_parse_ok_from(*msg, 0) matches Some(i) ==> (r matches Some(t) && {
            let d = msg.instructions@[i].data@;
            let mint = spec_extract_mint(*msg, i)->Some_0;
            &&& t.mint == mint
            &&& t.name@ == spec_str_chars(d, spec_create_name_off(d))
            &&& t.symbol@ == spec_str_chars(d, spec_create_symbol_off(d))
            &&& t.uri@ == spec_str_chars(d, spec_create_uri_off(d))
            &&& t.creator == spec_address_from_bytes(
                d.subrange(spec_create_creator_off(d), d.len() as int),
            )
            &&& t.bonding_curve@ == spec_bonding_curve_pda(mint)->Some_0
            &&& t.creation_signature@ == signature@
            &&& t.created_at == created_at
        }),
        spec_first_parse_ok_from(*msg, 0) is None ==> r is None,
{
    let n = msg.instructions.len();
    let mut k: usize = 0;
    while k < n
        invariant
            n == msg.instructions@.len(),
            k <= n,
            spec_first_parse_ok_from(*msg, 0) == spec_first_parse_ok_from(*msg, k as int),
        decreases n - k,
    {
        let data = msg.instructions[k].data.as_slice();
        match CreateInstruction::from_bytes(data) {
            Ok(create_data) => {
                match extract_mint_from_instruction(msg, k) {
                    Some(mint) => {
                        match derive_bonding_curve_pda(&mint) {
                            Ok(bonding_curve) => {
                                proof {
                                    assert(spec_parse_step_ok(*msg, k as int));
                                }
                                return Some(
                                    TokenInfo::new(
                                        mint,
                                        create_data.name,
                                        create_data.symbol,
                                        create_data.creator,
                                        create_data.uri,
                                        bonding_curve,
                                        signature,
                                        created_at,
                                    ),
                                );
                            },
                            Err(_) => {},
                        }
                    },
                    None => {},
                }
            },
            Err(_) => {},
        }
        proof {
            assert(!spec_parse_step_ok(*msg, k as int));
        }
        k += 1;
    }
    None
}

} // verus!
