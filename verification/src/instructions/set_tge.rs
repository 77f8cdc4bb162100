//! Fixing the token-generation event: the sale's administrator reveals the
//! sale-token mint and custody vault and sets (or unsets) the unlock epoch.

use vstd::prelude::*;

use crate::access::{derive_sale_authority, pda_of, sale_authority_seeds};
use crate::codec::le_u64_at;
use crate::error::TokensellError;
use crate::state::{Address, Key, SellData};
use crate::token::{spl_account_bytes_ok, unpack_token_account};

verus! {

/// Payload of the set-TGE request. The unlock epoch may be absent: the
/// administrator can take a sale back to the locked state.
#[derive(Clone, Copy, Debug, PartialEq, Eq)]
pub struct SetTgeArgs {
    pub instruction: u8,
    pub tge: Option<i64>,
}

/// What setting the TGE returns for every input: the first failing check in
/// order, or the updated sale record.
pub open spec fn spec_process_set_tge(
    program_id: Address,
    args: SetTgeArgs,
    payer_key: Address,
    payer_is_signer: bool,
    sell_key: Address,
    sell_account_owner: Address,
    sell: SellData,
    target_mint_key: Address,
    source_vault_key: Address,
    vault_bytes: Seq<u8>,
) -> Result<SellData, TokensellError> {
    if !payer_is_signer {
        Err(TokensellError::SignatureRequired)
    } else if sell_account_owner@ != program_id@ {
        Err(TokensellError::InvalidOwner)
    } else if vault_bytes.len() < 165 || !spl_account_bytes_ok(vault_bytes) {
        Err(TokensellError::DeserializationFailed)
    } else if sell.key != Key::SellData {
        Err(TokensellError::InvalidAccount)
    } else if sell.owner@ != payer_key@ {
        Err(TokensellError::InvalidAccount)
    } else {
        let pda = pda_of(sale_authority_seeds(program_id@, sell_key@), program_id@);
        if pda is None {
            Err(TokensellError::InvalidAccount)
        } else if vault_bytes.subrange(32, 64) != pda.unwrap().0 {
            Err(TokensellError::InvalidOwner)
        } else if le_u64_at(vault_bytes, 64) < sell.amount_total {
            Err(TokensellError::NoTokensInVault)
        } else if vault_bytes.subrange(0, 32) != target_mint_key@ {
            Err(TokensellError::WrongMint)
        } else {
            Ok(
                SellData {
                    key: sell.key,
                    owner: sell.owner,
                    source_mint: sell.source_mint,
                    target_mint: Some(target_mint_key),
                    source_vault: Some(source_vault_key),
                    target_acc: sell.target_acc,
                    exchange_rate: sell.exchange_rate,
                    start_time: sell.start_time,
                    end_time: sell.end_time,
                    tge: args.tge,
                    initial_perc: sell.initial_perc,
                    total_months: sell.total_months,
                    min_deposit: sell.min_deposit,
                    amount_total: sell.amount_total,
                    amount_left: sell.amount_left,
                },
            )
        }
    }
}

/// Validates the administrator's request and builds the updated sale record.
/// Only the administrator that created the sale may call this; everything but
/// the unlock epoch, the sale-token mint and the custody vault stays as it
/// was. A non-administrator signer always fails with `InvalidAccount` and
/// the record is left untouched.
pub fn process_set_tge(
    program_id: &Address,
    args: &SetTgeArgs,
    payer_key: &Address,
    payer_is_signer: bool,
    sell_key: &Address,
    sell_account_owner: &Address,
    sell: &SellData,
    target_mint_key: &Address,
    source_vault_key: &Address,
    source_vault_data: &Vec<u8>,
) -> (r: Result<SellData, TokensellError>)
    ensures
        r == spec_process_set_tge(
            *program_id,
            *args,
            *payer_key,
            payer_is_signer,
            *sell_key,
            *sell_account_owner,
            *sell,
            *target_mint_key,
            *source_vault_key,
            source_vault_data@,
        ),
        payer_is_signer && sell_account_owner@ == program_id@ && source_vault_data@.len() >= 165
            && spl_account_bytes_ok(source_vault_data@) && sell.key == Key::SellData
            && sell.owner@ != payer_key@ ==> r == Err::<SellData, TokensellError>(
            TokensellError::InvalidAccount,
        ),
        r matches Ok(s) ==> {
            &&& s.tge == args.tge
            &&& s.target_mint == Some(*target_mint_key)
            &&& s.source_vault == Some(*source_vault_key)
            &&& s.owner == sell.owner
            &&& s.exchange_rate == sell.exchange_rate
            &&& s.start_time == sell.start_time
            &&& s.end_time == sell.end_time
            &&& s.initial_perc == sell.initial_perc
            &&& s.total_months == sell.total_months
            &&& s.min_deposit == sell.min_deposit
        },
{
    if !payer_is_signer {
        return Err(TokensellError::SignatureRequired);
    }
    if !sell_account_owner.equals(program_id) {
        return Err(TokensellError::InvalidOwner);
    }
    if source_vault_data.len() < 165 {
        return Err(TokensellError::DeserializationFailed);
    }
    let token_vault = match unpack_token_account(source_vault_data) {
        Some(a) => a,
        None => {
            return Err(TokensellError::DeserializationFailed);
        },
    };
    if sell.key != Key::SellData {
        return Err(TokensellError::InvalidAccount);
    }
    if !sell.owner.equals(payer_key) {
        return Err(TokensellError::InvalidAccount);
    }
    let (sell_authority, _bump) = match derive_sale_authority(program_id, sell_key) {
        Some(p) => p,
        None => {
            return Err(TokensellError::InvalidAccount);
        },
    };
    if !token_vault.owner.equals(&sell_authority) {
        return Err(TokensellError::InvalidOwner);
    }
    if token_vault.amount < sell.amount_total {
        return Err(TokensellError::NoTokensInVault);
    }
    if !token_vault.mint.equals(target_mint_key) {
        return Err(TokensellError::WrongMint);
    }
    Ok(
        SellData {
            key: sell.key,
            owner: sell.owner,
            source_mint: sell.source_mint,
            target_mint: Some(*target_mint_key),
            source_vault: Some(*source_vault_key),
            target_acc: sell.target_acc,
            exchange_rate: sell.exchange_rate,
            start_time: sell.start_time,
            end_time: sell.end_time,
            tge: args.tge,
            initial_perc: sell.initial_perc,
            total_months: sell.total_months,
            min_deposit: sell.min_deposit,
            amount_total: sell.amount_total,
            amount_left: sell.amount_left,
        },
    )
}

} // verus!
