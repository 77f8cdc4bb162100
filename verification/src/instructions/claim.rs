//! Claiming unlocked sale tokens: validates every identity, evaluates the
//! entitlement schedule at the current time, and builds the transfer and the
//! updated ledger entry as one effect.

use vstd::prelude::*;

use crate::access::{
    derive_participant_address, derive_sale_authority, participant_seeds, pda_of,
    sale_authority_seeds,
};
use crate::error::TokensellError;
use crate::schedule::{spec_unlocked, spec_unlocked_overflows, unlocked_amount};
use crate::state::{Address, Key, ParticipantData, SellData};
use crate::token::{spl_mint_bytes_ok, unpack_mint_decimals};

verus! {

/// Everything a successful claim asks of the caller: transfer `amount` sale
/// tokens out of the vault under the derived authority with `bump`, and only
/// after the transfer succeeds persist the updated participant record.
#[derive(Clone, Copy, Debug, PartialEq, Eq)]
pub struct ClaimEffect {
    pub participant: ParticipantData,
    pub amount: u64,
    /// Bump seed proving authority over the sale vault.
    pub bump: u8,
}

/// What a claim returns for every input: the first failing check in order,
/// or the effect to apply.
pub open spec fn spec_process_claim(
    program_id: Address,
    payer_key: Address,
    payer_is_signer: bool,
    sell_key: Address,
    sell_account_owner: Address,
    sell: SellData,
    target_mint_key: Address,
    mint_bytes: Seq<u8>,
    sell_authority_key: Address,
    sell_vault_key: Address,
    participant_key: Address,
    participant: ParticipantData,
    now: i64,
) -> Result<ClaimEffect, TokensellError> {
    if !payer_is_signer {
        Err(TokensellError::SignatureRequired)
    } else if sell_account_owner@ != program_id@ {
        Err(TokensellError::InvalidOwner)
    } else if sell.key != Key::SellData {
        Err(TokensellError::InvalidAccount)
    } else if sell.tge is None || sell.source_vault is None || sell.target_mint is None {
        Err(TokensellError::NothingToClaim)
    } else if target_mint_key@ != sell.target_mint.unwrap()@ {
        Err(TokensellError::InvalidAccount)
    } else {
        let ppda = pda_of(participant_seeds(program_id@, sell_key@, payer_key@), program_id@);
        if ppda is None {
            Err(TokensellError::InvalidAccount)
        } else if ppda.unwrap().0 != participant_key@ {
            Err(TokensellError::InvalidAccount)
        } else if sell.source_vault.unwrap()@ != sell_vault_key@ {
            Err(TokensellError::InvalidAccount)
        } else if !spl_mint_bytes_ok(mint_bytes) {
            Err(TokensellError::DeserializationFailed)
        } else {
            let decimals = mint_bytes[44];
            if spec_unlocked_overflows(
                participant.amount as int,
                participant.claimed as int,
                sell.tge.unwrap() as int,
                now as int,
                sell.initial_perc as int,
                sell.total_months as int,
                decimals as nat,
            ) {
                Err(TokensellError::Overflow)
            } else {
                let amount = spec_unlocked(
                    participant.amount as int,
                    participant.claimed as int,
                    sell.tge.unwrap() as int,
                    now as int,
                    sell.initial_perc as int,
                    sell.total_months as int,
                    decimals as nat,
                );
                if amount == 0 {
                    Err(TokensellError::NothingToClaim)
                } else {
                    let apda = pda_of(sale_authority_seeds(program_id@, sell_key@), program_id@);
                    if apda is None {
                        Err(TokensellError::InvalidAccount)
                    } else if apda.unwrap().0 != sell_authority_key@ {
                        Err(TokensellError::InvalidAccount)
                    } else {
                        Ok(
                            ClaimEffect {
                                participant: ParticipantData {
                                    key: participant.key,
                                    owner: participant.owner,
                                    sell: participant.sell,
                                    amount: participant.amount,
                                    claimed: (participant.claimed + amount) as u64,
                                },
                                amount: amount as u64,
                                bump: apda.unwrap().1,
                            },
                        )
                    }
                }
            }
        }
    }
}

/// Claiming cannot double pay: after a successful claim, a second claim with
/// the resulting record at the same instant finds nothing to claim.
pub proof fn lemma_second_claim_yields_nothing(
    program_id: Address,
    payer_key: Address,
    sell_key: Address,
    sell_account_owner: Address,
    sell: SellData,
    target_mint_key: Address,
    mint_bytes: Seq<u8>,
    sell_authority_key: Address,
    sell_vault_key: Address,
    participant_key: Address,
    participant: ParticipantData,
    now: i64,
    effect: ClaimEffect,
)
    requires
        participant.wf(),
        spec_process_claim(
            program_id,
            payer_key,
            true,
            sell_key,
            sell_account_owner,
            sell,
            target_mint_key,
            mint_bytes,
            sell_authority_key,
            sell_vault_key,
            participant_key,
            participant,
            now,
        ) == Ok::<ClaimEffect, TokensellError>(effect),
    ensures
        spec_process_claim(
            program_id,
            payer_key,
            true,
            sell_key,
            sell_account_owner,
            sell,
            target_mint_key,
            mint_bytes,
            sell_authority_key,
            sell_vault_key,
            participant_key,
            effect.participant,
            now,
        ) == Err::<ClaimEffect, TokensellError>(TokensellError::NothingToClaim),
{
    let tge = sell.tge.unwrap() as int;
    let decimals = mint_bytes[44] as nat;
    let p = participant.amount as int;
    let c = participant.claimed as int;
    let months = sell.total_months as int;
    let u = crate::schedule::spec_unlocked(
        p,
        c,
        tge,
        now as int,
        sell.initial_perc as int,
        months,
        decimals,
    );
    // The claim succeeded, so the schedule's 64-bit evaluation did not
    // overflow and the unlocked amount was positive; it is also bounded by
    // what was still unclaimed, so recording it cannot truncate.
    assert(now > tge);
    let m = crate::schedule::spec_months_passed(now as int, tge);
    vstd::arithmetic::div_mod::lemma_div_pos_is_pos(now - tge, crate::MONTH_SECONDS as int);
    if m < months {
        let initial = p * sell.initial_perc / 100;
        let rest = p - initial;
        crate::schedule::lemma_month_within_rest(rest, m, months);
        crate::schedule::lemma_pow10_pos(decimals);
        vstd::arithmetic::mul::lemma_mul_nonnegative(
            rest - rest * m / months,
            crate::schedule::spec_pow10(decimals),
        );
    }
    assert(0 < u <= p - c);
    assert(effect.participant.claimed == c + u);
    crate::schedule::lemma_second_claim_is_zero(
        p,
        c,
        tge,
        now as int,
        sell.initial_perc as int,
        months,
        decimals,
    );
}

/// Validates a claim and builds its effect: the exact unlocked amount at
/// `now` and the ledger entry recording it as claimed. The caller must
/// sequence the transfer first and persist the record only on its success;
/// on any error nothing may move and nothing may be written.
///
/// After a successful claim the recorded total never exceeds the
/// entitlement, and the purchased amount is untouched.
pub fn process_claim(
    program_id: &Address,
    payer_key: &Address,
    payer_is_signer: bool,
    sell_key: &Address,
    sell_account_owner: &Address,
    sell: &SellData,
    target_mint_key: &Address,
    target_mint_data: &Vec<u8>,
    sell_authority_key: &Address,
    sell_vault_key: &Address,
    participant_key: &Address,
    participant: &ParticipantData,
    now: i64,
) -> (r: Result<ClaimEffect, TokensellError>)
    requires
        participant.wf(),
    ensures
        r == spec_process_claim(
            *program_id,
            *payer_key,
            payer_is_signer,
            *sell_key,
            *sell_account_owner,
            *sell,
            *target_mint_key,
            target_mint_data@,
            *sell_authority_key,
            *sell_vault_key,
            *participant_key,
            *participant,
            now,
        ),
        r matches Ok(e) ==> {
            &&& e.amount > 0
            &&& e.participant.claimed == participant.claimed + e.amount
            &&& e.participant.claimed <= e.participant.amount
            &&& e.participant.amount == participant.amount
            &&& e.participant.wf()
        },
{
    if !payer_is_signer {
        return Err(TokensellError::SignatureRequired);
    }
    if !sell_account_owner.equals(program_id) {
        return Err(TokensellError::InvalidOwner);
    }
    if sell.key != Key::SellData {
        return Err(TokensellError::InvalidAccount);
    }
    let (tge, source_vault, target_mint) = match (sell.tge, &sell.source_vault, &sell.target_mint) {
        (Some(t), Some(v), Some(m)) => (t, v, m),
        _ => {
            return Err(TokensellError::NothingToClaim);
        },
    };
    if !target_mint_key.equals(target_mint) {
        return Err(TokensellError::InvalidAccount);
    }
    let (derived_participant, _pbump) = match derive_participant_address(
        program_id,
        sell_key,
        payer_key,
    ) {
        Some(p) => p,
        None => {
            return Err(TokensellError::InvalidAccount);
        },
    };
    if !derived_participant.equals(participant_key) {
        return Err(TokensellError::InvalidAccount);
    }
    if !source_vault.equals(sell_vault_key) {
        return Err(TokensellError::InvalidAccount);
    }
    let decimals: u8 = match unpack_mint_decimals(target_mint_data) {
        Some(d) => d,
        None => {
            return Err(TokensellError::DeserializationFailed);
        },
    };
    let amount: u64 = match unlocked_amount(
        participant.amount,
        participant.claimed,
        tge,
        now,
        sell.initial_perc,
        sell.total_months,
        decimals,
    ) {
        Ok(v) => v,
        Err(e) => {
            return Err(e);
        },
    };
    if amount == 0 {
        return Err(TokensellError::NothingToClaim);
    }
    let (sell_authority, bump) = match derive_sale_authority(program_id, sell_key) {
        Some(p) => p,
        None => {
            return Err(TokensellError::InvalidAccount);
        },
    };
    if !sell_authority.equals(sell_authority_key) {
        return Err(TokensellError::InvalidAccount);
    }
    Ok(
        ClaimEffect {
            participant: ParticipantData {
                key: participant.key,
                owner: participant.owner,
                sell: participant.sell,
                amount: participant.amount,
                claimed: participant.claimed + amount,
            },
            amount,
            bump,
        },
    )
}

} // verus!
