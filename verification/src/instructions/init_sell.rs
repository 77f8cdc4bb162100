//! Initializing a sale: validates storage, timing and custody, then turns an
//! uninitialized record into the active configuration.

use vstd::prelude::*;

use crate::access::{derive_sale_authority, pda_of, sale_authority_seeds};
use crate::codec::le_u64_at;
use crate::error::TokensellError;
use crate::state::{Address, Key, SellData};
use crate::token::{spl_account_bytes_ok, unpack_token_account};

verus! {

/// Payload of the sale-initialization request.
#[derive(Clone, Copy, Debug, PartialEq, Eq)]
pub struct InitSellArgs {
    pub instruction: u8,
    pub exchange_rate: u64,
    pub start_time: i64,
    pub end_time: i64,
    pub initial_perc: u64,
    pub total_months: u64,
    pub min_deposit: u64,
    pub total_amount: u64,
}

/// What initializing a sale returns for every input: the first failing check
/// in order, or the active record to persist.
pub open spec fn spec_process_init_sell(
    program_id: Address,
    args: InitSellArgs,
    payer_key: Address,
    sell_key: Address,
    sell_account_owner: Address,
    sell_rent_exempt: bool,
    sell: SellData,
    vault_bytes: Seq<u8>,
    target_mint_key: Address,
    source_mint_key: Address,
    target_key: Address,
    target_bytes: Seq<u8>,
    now: i64,
) -> Result<SellData, TokensellError> {
    if sell_account_owner@ != program_id@ {
        Err(TokensellError::InvalidOwner)
    } else if vault_bytes.len() < 165 || !spl_account_bytes_ok(vault_bytes) {
        Err(TokensellError::DeserializationFailed)
    } else if target_bytes.len() < 165 || !spl_account_bytes_ok(target_bytes) {
        Err(TokensellError::DeserializationFailed)
    } else if !sell_rent_exempt {
        Err(TokensellError::NotRentExempt)
    } else if sell.key != Key::Uninitialized {
        Err(TokensellError::AccountInitialized)
    } else if now > args.end_time {
        Err(TokensellError::InvalidEndTimestamp)
    } else if args.end_time < args.start_time {
        Err(TokensellError::InvalidEndTimestamp)
    } else {
        let pda = pda_of(sale_authority_seeds(program_id@, sell_key@), program_id@);
        if pda is None {
            Err(TokensellError::InvalidAccount)
        } else if vault_bytes.subrange(32, 64) != pda.unwrap().0 {
            Err(TokensellError::InvalidOwner)
        } else if le_u64_at(vault_bytes, 64) == 0 {
            Err(TokensellError::NoTokensInVault)
        } else if vault_bytes.subrange(0, 32) != target_mint_key@ {
            Err(TokensellError::WrongMint)
        } else if target_bytes.subrange(0, 32) != source_mint_key@ {
            Err(TokensellError::WrongMint)
        } else {
            Ok(
                SellData {
                    key: Key::SellData,
                    owner: payer_key,
                    source_mint: source_mint_key,
                    target_mint: None,
                    source_vault: None,
                    target_acc: target_key,
                    exchange_rate: args.exchange_rate,
                    start_time: args.start_time,
                    end_time: args.end_time,
                    tge: None,
                    initial_perc: args.initial_perc,
                    total_months: args.total_months,
                    min_deposit: args.min_deposit,
                    amount_total: args.total_amount,
                    amount_left: args.total_amount,
                },
            )
        }
    }
}

/// Validates and builds the active sale record. The caller persists the
/// returned record; on any error nothing may be written.
///
/// The sale-token vault's bytes and the payment-destination account's bytes
/// are read as the token ledger's packed layout; the vault must be owned by
/// the derived sale authority, hold a positive balance, and match the
/// declared sale-token mint, and the payment destination must match the
/// declared payment mint.
pub fn process_init_sell(
    program_id: &Address,
    args: &InitSellArgs,
    payer_key: &Address,
    sell_key: &Address,
    sell_account_owner: &Address,
    sell_rent_exempt: bool,
    sell: &SellData,
    token_vault_data: &Vec<u8>,
    target_mint_key: &Address,
    source_mint_key: &Address,
    target_key: &Address,
    target_acc_data: &Vec<u8>,
    now: i64,
) -> (r: Result<SellData, TokensellError>)
    ensures
        r == spec_process_init_sell(
            *program_id,
            *args,
            *payer_key,
            *sell_key,
            *sell_account_owner,
            sell_rent_exempt,
            *sell,
            token_vault_data@,
            *target_mint_key,
            *source_mint_key,
            *target_key,
            target_acc_data@,
            now,
        ),
        r matches Ok(s) ==> {
            &&& s.key == Key::SellData
            &&& s.tge is None
            &&& s.target_mint is None
            &&& s.source_vault is None
            &&& s.start_time == args.start_time
            &&& s.end_time == args.end_time
            &&& s.start_time <= s.end_time
            &&& now <= s.end_time
        },
{
    if !sell_account_owner.equals(program_id) {
        return Err(TokensellError::InvalidOwner);
    }
    if token_vault_data.len() < 165 {
        return Err(TokensellError::DeserializationFailed);
    }
    let token_vault = match unpack_token_account(token_vault_data) {
        Some(a) => a,
        None => {
            return Err(TokensellError::DeserializationFailed);
        },
    };
    if target_acc_data.len() < 165 {
        return Err(TokensellError::DeserializationFailed);
    }
    let target_acc = match unpack_token_account(target_acc_data) {
        Some(a) => a,
        None => {
            return Err(TokensellError::DeserializationFailed);
        },
    };
    if !sell_rent_exempt {
        return Err(TokensellError::NotRentExempt);
    }
    if sell.key != Key::Uninitialized {
        return Err(TokensellError::AccountInitialized);
    }
    if now > args.end_time {
        return Err(TokensellError::InvalidEndTimestamp);
    }
    if args.end_time < args.start_time {
        return Err(TokensellError::InvalidEndTimestamp);
    }
    let (sell_authority, _bump) = match derive_sale_authority(program_id, sell_key) {
        Some(p) => p,
        None => {
            return Err(TokensellError::InvalidAccount);
        },
    };
    if !token_vault.owner.equals(&sell_authority) {
        return Err(TokensellError::InvalidOwner);
    }
    if token_vault.amount == 0 {
        return Err(TokensellError::NoTokensInVault);
    }
    if !token_vault.mint.equals(target_mint_key) {
        return Err(TokensellError::WrongMint);
    }
    if !target_acc.mint.equals(source_mint_key) {
        return Err(TokensellError::WrongMint);
    }
    Ok(
        SellData {
            key: Key::SellData,
            owner: *payer_key,
            source_mint: *source_mint_key,
            target_mint: None,
            source_vault: None,
            target_acc: *target_key,
            exchange_rate: args.exchange_rate,
            start_time: args.start_time,
            end_time: args.end_time,
            tge: None,
            initial_perc: args.initial_perc,
            total_months: args.total_months,
            min_deposit: args.min_deposit,
            amount_total: args.total_amount,
            amount_left: args.total_amount,
        },
    )
}

} // verus!
