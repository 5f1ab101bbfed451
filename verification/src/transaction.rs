use crate::address::Address;
use crate::bonding_curve::{spec_buy_price, BondingCurveAccount};
use crate::codec::{decode_bonding_curve_account, spec_curve_decode_ok, spec_decoded_curve};
use crate::config::Config;
use crate::constants::{
    associated_token_program, compute_budget_program, pumpfun_program_id, spec_associated_token_program,
    spec_compute_budget_program, spec_pumpfun_program_id, spec_system_program, spec_token_program,
    system_program, token_program,
};
use crate::error::SniperError;
use crate::instructions::{spec_buy_payload, BuyInstruction};
use crate::pda::{
    associated_token_address, ata_of, derive_bonding_curve_pda, derive_creator_vault_pda,
    derive_global_pda, spec_bonding_curve_pda, spec_creator_vault_pda, spec_global_pda,
};
use crate::token_info::TokenInfo;
use vstd::bytes::{spec_u32_to_le_bytes, spec_u64_to_le_bytes, u32_to_le_bytes, u64_to_le_bytes};
use vstd::prelude::*;

verus! {

/// One account reference of a planned instruction.
#[derive(Debug, Clone, Copy, PartialEq, Eq, Structural)]
pub struct AccountMetaSpec {
    pub address: Address,
    pub is_signer: bool,
    pub is_writable: bool,
}

/// A planned instruction as plain values: the program to invoke, the
/// accounts it references in order, and its payload. The signing layer
/// turns a list of these into one signed transaction.
#[derive(Debug)]
pub struct InstructionSpec {
    pub program_id: Address,
    pub accounts: Vec<AccountMetaSpec>,
    pub data: Vec<u8>,
}

/// A writable, signing account reference.
pub open spec fn spec_meta_signer(address: Address) -> AccountMetaSpec {
    AccountMetaSpec { address, is_signer: true, is_writable: true }
}

/// A writable account reference.
pub open spec fn spec_meta_writable(address: Address) -> AccountMetaSpec {
    AccountMetaSpec { address, is_signer: false, is_writable: true }
}

/// A read-only account reference.
pub open spec fn spec_meta_readonly(address: Address) -> AccountMetaSpec {
    AccountMetaSpec { address, is_signer: false, is_writable: false }
}

/// True when `ix` sets the compute-unit price to `price` microlamports:
/// the compute-budget program, no accounts, and a payload of the variant
/// tag 3 followed by the price in little-endian.
pub open spec fn spec_is_compute_price_ix(ix: InstructionSpec, price: u64) -> bool {
    &&& ix.program_id == spec_compute_budget_program()
    &&& ix.accounts@.len() == 0
    &&& ix.data@ == seq![3u8] + spec_u64_to_le_bytes(price)
}

/// True when `ix` sets the compute-unit limit to `limit`: the
/// compute-budget program, no accounts, and a payload of the variant tag 2
/// followed by the limit in little-endian.
pub open spec fn spec_is_compute_limit_ix(ix: InstructionSpec, limit: u32) -> bool {
    &&& ix.program_id == spec_compute_budget_program()
    &&& ix.accounts@.len() == 0
    &&& ix.data@ == seq![2u8] + spec_u32_to_le_bytes(limit)
}

/// True when `ix` creates the associated token account of `wallet` for
/// `mint`, funded by `funding`.
pub open spec fn spec_is_create_ata_ix(
    ix: InstructionSpec,
    funding: Address,
    wallet: Address,
    mint: Address,
) -> bool {
    &&& ix.program_id == spec_associated_token_program()
    &&& ix.data@ == seq![0u8]
    &&& ix.accounts@.len() == 6
    &&& ix.accounts@[0] == spec_meta_signer(funding)
    &&& ix.accounts@[1].address@ == ata_of(wallet@, mint@)
    &&& ix.accounts@[1].is_signer == false && ix.accounts@[1].is_writable == true
    &&& ix.accounts@[2] == spec_meta_readonly(wallet)
    &&& ix.accounts@[3] == spec_meta_readonly(mint)
    &&& ix.accounts@[4] == spec_meta_readonly(spec_system_program())
    &&& ix.accounts@[5] == spec_meta_readonly(spec_token_program())
}

/// True when `ix` is the protocol's buy instruction for `mint`, paying
/// with `payer`, expecting `amount` tokens at a worst cost of
/// `max_sol_cost`, and referencing every protocol account in order.
pub open spec fn spec_is_buy_ix(
    ix: InstructionSpec,
    payer: Address,
    mint: Address,
    fee_recipient: Address,
    creator: Address,
    amount: u64,
    max_sol_cost: u64,
) -> bool {
    &&& ix.program_id == spec_pumpfun_program_id()
    &&& ix.data@ == spec_buy_payload(BuyInstruction { amount, max_sol_cost })
    &&& ix.accounts@.len() == 12
    &&& ix.accounts@[0].address@ == spec_global_pda()->Some_0
    &&& ix.accounts@[0].is_signer == false && ix.accounts@[0].is_writable == false
    &&& ix.accounts@[1] == spec_meta_writable(fee_recipient)
    &&& ix.accounts@[2] == spec_meta_readonly(mint)
    &&& ix.accounts@[3].address@ == spec_bonding_curve_pda(mint)->Some_0
    &&& ix.accounts@[3].is_signer == false && ix.accounts@[3].is_writable == true
    &&& ix.accounts@[4].address@ == ata_of(spec_bonding_curve_pda(mint)->Some_0, mint@)
    &&& ix.accounts@[4].is_signer == false && ix.accounts@[4].is_writable == true
    &&& ix.accounts@[5].address@ == ata_of(payer@, mint@)
    &&& ix.accounts@[5].is_signer == false && ix.accounts@[5].is_writable == true
    &&& ix.accounts@[6] == spec_meta_signer(payer)
    &&& ix.accounts@[7] == spec_meta_readonly(spec_system_program())
    &&& ix.accounts@[8] == spec_meta_readonly(spec_token_program())
    &&& ix.accounts@[9].address@ == spec_creator_vault_pda(creator)->Some_0
    &&& ix.accounts@[9].is_signer == false && ix.accounts@[9].is_writable == true
    &&& ix.accounts@[10] == spec_meta_readonly(crate::constants::spec_event_authority())
    &&& ix.accounts@[11] == spec_meta_readonly(spec_pumpfun_program_id())
}

/// Build the compute-budget instruction that sets the compute-unit price.
pub fn set_compute_unit_price(price: u64) -> (r: InstructionSpec)
    ensures
        spec_is_compute_price_ix(r, price),
{
    let mut data: Vec<u8> = vec![3u8];
    let mut price_bytes = u64_to_le_bytes(price);
    data.append(&mut price_bytes);
    proof {
        assert(data@ =~= seq![3u8] + spec_u64_to_le_bytes(price));
    }
    InstructionSpec { program_id: compute_budget_program(), accounts: Vec::new(), data }
}

/// Build the compute-budget instruction that sets the compute-unit limit.
pub fn set_compute_unit_limit(limit: u32) -> (r: InstructionSpec)
    ensures
        spec_is_compute_limit_ix(r, limit),
{
    let mut data: Vec<u8> = vec![2u8];
    let mut limit_bytes = u32_to_le_bytes(limit);
    data.append(&mut limit_bytes);
    proof {
        assert(data@ =~= seq![2u8] + spec_u32_to_le_bytes(limit));
    }
    InstructionSpec { program_id: compute_budget_program(), accounts: Vec::new(), data }
}

/// Build the instruction that creates `wallet`'s associated token account
/// for `mint`, funded by `funding`.
pub fn create_associated_token_account(
    funding: &Address,
    wallet: &Address,
    mint: &Address,
) -> (r: InstructionSpec)
    ensures
        spec_is_create_ata_ix(r, *funding, *wallet, *mint),
{
    let ata = associated_token_address(wallet, mint);
    let mut accounts: Vec<AccountMetaSpec> = Vec::new();
    accounts.push(AccountMetaSpec { address: *funding, is_signer: true, is_writable: true });
    accounts.push(AccountMetaSpec { address: ata, is_signer: false, is_writable: true });
    accounts.push(AccountMetaSpec { address: *wallet, is_signer: false, is_writable: false });
    accounts.push(AccountMetaSpec { address: *mint, is_signer: false, is_writable: false });
    accounts.push(
        AccountMetaSpec { address: system_program(), is_signer: false, is_writable: false },
    );
    accounts.push(
        AccountMetaSpec { address: token_program(), is_signer: false, is_writable: false },
    );
    let data: Vec<u8> = vec![0u8];
    proof {
        assert(data@ =~= seq![0u8]);
    }
    InstructionSpec { program_id: associated_token_program(), accounts, data }
}

impl BuyInstruction {
    /// Build the buy instruction: derive the curve, global and
    /// creator-vault addresses and lay out the twelve account references.
    /// Fails only when a derivation exhausts its bump space.
    pub fn create_instruction(
        &self,
        payer: &Address,
        mint: &Address,
        fee_recipient: &Address,
        creator: &Address,
    ) -> (r: Result<InstructionSpec, SniperError>)
        ensures
            spec_bonding_curve_pda(*mint) is Some && spec_global_pda() is Some
                && spec_creator_vault_pda(*creator) is Some ==> (r matches Ok(ix)
                && spec_is_buy_ix(
                ix,
                *payer,
                *mint,
                *fee_recipient,
                *creator,
                self.amount,
                self.max_sol_cost,
            )),
            spec_bonding_curve_pda(*mint) is None || spec_global_pda() is None
                || spec_creator_vault_pda(*creator) is None ==> (r matches Err(e)
                && e is RpcError),
    {
        let bonding_curve = match derive_bonding_curve_pda(mint) {
            Ok(a) => a,
            Err(e) => {
                return Err(e);
            },
        };
        let global_pda = match derive_global_pda() {
            Ok(a) => a,
            Err(e) => {
                return Err(e);
            },
        };
        let creator_vault = match derive_creator_vault_pda(creator) {
            Ok(a) => a,
            Err(e) => {
                return Err(e);
            },
        };
        let mut accounts: Vec<AccountMetaSpec> = Vec::new();
        accounts.push(
            AccountMetaSpec { address: global_pda, is_signer: false, is_writable: false },
        );
        accounts.push(
            AccountMetaSpec { address: *fee_recipient, is_signer: false, is_writable: true },
        );
        accounts.push(AccountMetaSpec { address: *mint, is_signer: false, is_writable: false });
        accounts.push(
            AccountMetaSpec { address: bonding_curve, is_signer: false, is_writable: true },
        );
        accounts.push(
            AccountMetaSpec {
                address: associated_token_address(&bonding_curve, mint),
                is_signer: false,
                is_writable: true,
            },
        );
        accounts.push(
            AccountMetaSpec {
                address: associated_token_address(payer, mint),
                is_signer: false,
                is_writable: true,
            },
        );
        accounts.push(AccountMetaSpec { address: *payer, is_signer: true, is_writable: true });
        accounts.push(
            AccountMetaSpec { address: system_program(), is_signer: false, is_writable: false },
        );
        accounts.push(
            AccountMetaSpec { address: token_program(), is_signer: false, is_writable: false },
        );
        accounts.push(
            AccountMetaSpec { address: creator_vault, is_signer: false, is_writable: true },
        );
        accounts.push(
            AccountMetaSpec {
                address: crate::constants::event_authority(),
                is_signer: false,
                is_writable: false,
            },
        );
        accounts.push(
            AccountMetaSpec {
                address: pumpfun_program_id(),
                is_signer: false,
                is_writable: false,
            },
        );
        Ok(InstructionSpec { program_id: pumpfun_program_id(), accounts, data: self.data() })
    }
}

/// Delay in milliseconds before each attempt of the account-read retry
/// schedule: 0, then 100, then 200.
pub fn retry_delay_ms(attempt: usize) -> (r: u64)
    requires
        attempt < 3,
    ensures
        attempt == 0 ==> r == 0,
        attempt == 1 ==> r == 100,
        attempt == 2 ==> r == 200,
{
    if attempt == 0 {
        0
    } else if attempt == 1 {
        100
    } else {
        200
    }
}

/// Index of the first attempt at or after `i` that returned a payload.
pub open spec fn spec_first_reply(attempts: Seq<Option<Vec<u8>>>, i: int) -> Option<int>
    decreases attempts.len() - i,
    when 0 <= i <= attempts.len()
{
    if i >= attempts.len() {
        None
    } else if attempts[i] is Some {
        Some(i)
    } else {
        spec_first_reply(attempts, i + 1)
    }
}

/// Resolve the retry schedule over the three attempts' outcomes: the
/// first attempt that returned a payload decides — its payload is decoded
/// as a bonding curve, and a malformed payload is a decode error, not
/// retried. When every attempt failed, the classified read error is
/// returned and nothing further is tried.
pub fn resolve_curve_fetch(attempts: &Vec<Option<Vec<u8>>>) -> (r: Result<
    BondingCurveAccount,
    SniperError,
>)
    requires
        attempts@.len() == 3,
    ensures
        spec_first_reply(attempts@, 0) matches Some(i) ==> {
            let data = attempts@[i]->Some_0@;
            &&& spec_curve_decode_ok(data) ==> (r matches Ok(c) && c == spec_decoded_curve(data))
            &&& !spec_curve_decode_ok(data) ==> (r matches Err(e) && e is SerializationError)
        },
        spec_first_reply(attempts@, 0) is None ==> (r matches Err(e) && e is RpcError),
{
    let mut k: usize = 0;
    while k < 3
        invariant
            attempts@.len() == 3,
            k <= 3,
            spec_first_reply(attempts@, 0) == spec_first_reply(attempts@, k as int),
        decreases 3 - k,
    {
        match &attempts[k] {
            Some(data) => {
                return decode_bonding_curve_account(data.as_slice());
            },
            None => {},
        }
        k += 1;
    }
    Err(SniperError::RpcError(String::from_str("Account not found after 3 attempts")))
}

/// Plan the buy: compute the expected token amount and the slippage-bound
/// worst cost, and lay out the four instructions — priority fee, compute
/// limit, associated-account creation, and the buy itself.
/// Fails with the terminal curve error on a completed curve and with a
/// derivation error when a protocol address cannot be derived.
pub fn build_buy_transaction(
    payer: &Address,
    token_info: &TokenInfo,
    bonding_curve_data: &BondingCurveAccount,
    sol_amount: u64,
    fee_recipient: &Address,
    config: &Config,
) -> (r: Result<Vec<InstructionSpec>, SniperError>)
    requires
        !bonding_curve_data.complete && sol_amount > 0
            ==> bonding_curve_data.virtual_token_reserves > 0,
        config.max_slippage_bps <= 10000,
        sol_amount * config.max_slippage_bps <= u64::MAX,
        sol_amount + sol_amount * config.max_slippage_bps / 10000 <= u64::MAX,
        config.priority_fee_sol * 1_000_000 <= u64::MAX,
        config.compute_unit_limit > 0,
    ensures
        bonding_curve_data.complete ==> (r matches Err(e) && e is BondingCurveComplete),
        !bonding_curve_data.complete && spec_bonding_curve_pda(token_info.mint) is Some
            && spec_global_pda() is Some && spec_creator_vault_pda(token_info.creator) is Some
            ==> (r matches Ok(plan) && {
            let expected = spec_buy_price(*bonding_curve_data, sol_amount);
            let max_cost = sol_amount + sol_amount * config.max_slippage_bps / 10000;
            let price = config.priority_fee_sol * 1_000_000 / (config.compute_unit_limit as int);
            &&& plan@.len() == 4
            &&& spec_is_compute_price_ix(plan@[0], price as u64)
            &&& spec_is_compute_limit_ix(plan@[1], config.compute_unit_limit)
            &&& spec_is_create_ata_ix(plan@[2], *payer, *payer, token_info.mint)
            &&& spec_is_buy_ix(
                plan@[3],
                *payer,
                token_info.mint,
                *fee_recipient,
                token_info.creator,
                expected as u64,
                max_cost as u64,
            )
        }),
        !bonding_curve_data.complete && (spec_bonding_curve_pda(token_info.mint) is None
            || spec_global_pda() is None || spec_creator_vault_pda(token_info.creator) is None)
            ==> (r matches Err(e) && e is RpcError),
{
    let expected_tokens = match bonding_curve_data.get_buy_price(sol_amount) {
        Ok(v) => v,
        Err(e) => {
            return Err(e);
        },
    };
    let max_sol_cost = sol_amount + (sol_amount * config.max_slippage_bps) / 10000;
    let buy_instruction_data = BuyInstruction { amount: expected_tokens, max_sol_cost };
    let buy_instruction = match buy_instruction_data.create_instruction(
        payer,
        &token_info.mint,
        fee_recipient,
        &token_info.creator,
    ) {
        Ok(ix) => ix,
        Err(e) => {
            return Err(e);
        },
    };
    let mut instructions: Vec<InstructionSpec> = Vec::new();
    let priority_fee_microlamports = (config.priority_fee_sol * 1_000_000) / (
    config.compute_unit_limit as u64);
    instructions.push(set_compute_unit_price(priority_fee_microlamports));
    instructions.push(set_compute_unit_limit(config.compute_unit_limit));
    instructions.push(create_associated_token_account(payer, payer, &token_info.mint));
    instructions.push(buy_instruction);
    Ok(instructions)
}

} // verus!
