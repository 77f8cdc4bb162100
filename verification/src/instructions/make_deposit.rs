//! Depositing payment tokens during the sale window: opens or grows a
//! participant record and asks the caller to transfer the payment.

use vstd::prelude::*;

use crate::access::{derive_participant_address, participant_seeds, pda_of};
use crate::error::TokensellError;
use crate::state::{Address, Key, ParticipantData, SellData};
use crate::token::{spl_token_id_seq, spl_token_program_id};

verus! {

/// Payload of the deposit request.
#[derive(Clone, Copy, Debug, PartialEq, Eq)]
pub struct MakeDepositArgs {
    pub instruction: u8,
    pub amount: u64,
}

/// Everything a successful deposit asks of the caller: persist the record,
/// create its account first where `created` says so, and transfer
/// `usdt_amount` payment-token units from the payer to the sale's payment
/// account.
#[derive(Clone, Copy, Debug, PartialEq, Eq)]
pub struct DepositEffect {
    pub participant: ParticipantData,
    pub created: bool,
    /// Bump seed of the participant record's derived address.
    pub bump: u8,
    pub usdt_amount: u64,
}

/// What a deposit returns for every input: the first failing check in order,
/// or the effect to apply.
pub open spec fn spec_process_make_deposit(
    program_id: Address,
    args: MakeDepositArgs,
    payer_key: Address,
    payer_is_signer: bool,
    token_program_key: Address,
    sell_key: Address,
    sell_account_owner: Address,
    sell: SellData,
    usdt_target_key: Address,
    participant_key: Address,
    participant: Option<ParticipantData>,
    now: i64,
) -> Result<DepositEffect, TokensellError> {
    if !payer_is_signer {
        Err(TokensellError::SignatureRequired)
    } else if token_program_key@ != spl_token_id_seq() {
        Err(TokensellError::InvalidAccount)
    } else if sell_account_owner@ != program_id@ {
        Err(TokensellError::InvalidOwner)
    } else if sell.key != Key::SellData {
        Err(TokensellError::InvalidAccount)
    } else if now < sell.start_time {
        Err(TokensellError::SellNotStarted)
    } else if now > sell.end_time {
        Err(TokensellError::SellEnded)
    } else if usdt_target_key@ != sell.target_acc@ {
        Err(TokensellError::InvalidAccount)
    } else if sell.exchange_rate * args.amount > u64::MAX {
        Err(TokensellError::Overflow)
    } else {
        let usdt_amount = sell.exchange_rate * args.amount;
        let pda = pda_of(participant_seeds(program_id@, sell_key@, payer_key@), program_id@);
        if pda is None {
            Err(TokensellError::InvalidAccount)
        } else if pda.unwrap().0 != participant_key@ {
            Err(TokensellError::InvalidAccount)
        } else {
            match participant {
                Option::None => {
                    if usdt_amount < sell.min_deposit {
                        Err(TokensellError::MinimalDeposit)
                    } else {
                        Ok(
                            DepositEffect {
                                participant: ParticipantData {
                                    key: Key::ParticipantData,
                                    owner: payer_key,
                                    sell: sell_key,
                                    amount: args.amount,
                                    claimed: 0,
                                },
                                created: true,
                                bump: pda.unwrap().1,
                                usdt_amount: usdt_amount as u64,
                            },
                        )
                    }
                },
                Option::Some(p) => {
                    if p.amount + args.amount > u64::MAX {
                        Err(TokensellError::Overflow)
                    } else {
                        Ok(
                            DepositEffect {
                                participant: ParticipantData {
                                    key: p.key,
                                    owner: p.owner,
                                    sell: p.sell,
                                    amount: (p.amount + args.amount) as u64,
                                    claimed: p.claimed,
                                },
                                created: false,
                                bump: pda.unwrap().1,
                                usdt_amount: usdt_amount as u64,
                            },
                        )
                    }
                },
            }
        }
    }
}

/// The purchased amount never shrinks: every successful deposit against an
/// existing record leaves it at least as large as before, so across any
/// sequence of successful deposits it is non-decreasing.
pub proof fn lemma_purchased_monotonic(
    program_id: Address,
    args: MakeDepositArgs,
    payer_key: Address,
    payer_is_signer: bool,
    token_program_key: Address,
    sell_key: Address,
    sell_account_owner: Address,
    sell: SellData,
    usdt_target_key: Address,
    participant_key: Address,
    participant: ParticipantData,
    now: i64,
    effect: DepositEffect,
)
    requires
        spec_process_make_deposit(
            program_id,
            args,
            payer_key,
            payer_is_signer,
            token_program_key,
            sell_key,
            sell_account_owner,
            sell,
            usdt_target_key,
            participant_key,
            Some(participant),
            now,
        ) == Ok::<DepositEffect, TokensellError>(effect),
    ensures
        effect.participant.amount >= participant.amount,
        effect.participant.claimed == participant.claimed,
{
}

/// Validates a deposit and builds its effect. The caller applies the whole
/// effect or, on any error, nothing: no record is written and no payment
/// moves. Outside the deposit window the request always fails with the
/// window's own error, whatever the amount; a first deposit below the
/// minimum fails with `MinimalDeposit` and creates no record; a repeated
/// deposit only ever grows the purchased amount.
pub fn process_make_deposit(
    program_id: &Address,
    args: &MakeDepositArgs,
    payer_key: &Address,
    payer_is_signer: bool,
    token_program_key: &Address,
    sell_key: &Address,
    sell_account_owner: &Address,
    sell: &SellData,
    usdt_target_key: &Address,
    participant_key: &Address,
    participant: &Option<ParticipantData>,
    now: i64,
) -> (r: Result<DepositEffect, TokensellError>)
    ensures
        r == spec_process_make_deposit(
            *program_id,
            *args,
            *payer_key,
            payer_is_signer,
            *token_program_key,
            *sell_key,
            *sell_account_owner,
            *sell,
            *usdt_target_key,
            *participant_key,
            *participant,
            now,
        ),
        payer_is_signer && token_program_key@ == spl_token_id_seq() && sell_account_owner@
            == program_id@ && sell.key == Key::SellData && now < sell.start_time ==> r == Err::<
            DepositEffect,
            TokensellError,
        >(TokensellError::SellNotStarted),
        payer_is_signer && token_program_key@ == spl_token_id_seq() && sell_account_owner@
            == program_id@ && sell.key == Key::SellData && now >= sell.start_time && now
            > sell.end_time ==> r == Err::<DepositEffect, TokensellError>(
            TokensellError::SellEnded,
        ),
        r matches Ok(e) ==> (participant matches Some(p) ==> {
            &&& e.participant.amount == p.amount + args.amount
            &&& e.participant.amount >= p.amount
            &&& e.participant.claimed == p.claimed
            &&& !e.created
        }),
        r matches Ok(e) ==> (participant is None ==> {
            &&& e.participant.amount == args.amount
            &&& e.participant.claimed == 0
            &&& e.participant.key == Key::ParticipantData
            &&& e.created
        }),
{
    if !payer_is_signer {
        return Err(TokensellError::SignatureRequired);
    }
    if !token_program_key.equals(&spl_token_program_id()) {
        return Err(TokensellError::InvalidAccount);
    }
    if !sell_account_owner.equals(program_id) {
        return Err(TokensellError::InvalidOwner);
    }
    if sell.key != Key::SellData {
        return Err(TokensellError::InvalidAccount);
    }
    if now < sell.start_time {
        return Err(TokensellError::SellNotStarted);
    }
    if now > sell.end_time {
        return Err(TokensellError::SellEnded);
    }
    if !usdt_target_key.equals(&sell.target_acc) {
        return Err(TokensellError::InvalidAccount);
    }
    let usdt_amount: u64 = match sell.exchange_rate.checked_mul(args.amount) {
        Some(v) => v,
        None => {
            return Err(TokensellError::Overflow);
        },
    };
    let (derived, bump) = match derive_participant_address(program_id, sell_key, payer_key) {
        Some(p) => p,
        None => {
            return Err(TokensellError::InvalidAccount);
        },
    };
    if !derived.equals(participant_key) {
        return Err(TokensellError::InvalidAccount);
    }
    match participant {
        None => {
            if usdt_amount < sell.min_deposit {
                return Err(TokensellError::MinimalDeposit);
            }
            Ok(
                DepositEffect {
                    participant: ParticipantData {
                        key: Key::ParticipantData,
                        owner: *payer_key,
                        sell: *sell_key,
                        amount: args.amount,
                        claimed: 0,
                    },
                    created: true,
                    bump,
                    usdt_amount,
                },
            )
        },
        Some(p) => {
            let new_amount: u64 = match p.amount.checked_add(args.amount) {
                Some(v) => v,
                None => {
                    return Err(TokensellError::Overflow);
                },
            };
            Ok(
                DepositEffect {
                    participant: ParticipantData {
                        key: p.key,
                        owner: p.owner,
                        sell: p.sell,
                        amount: new_amount,
                        claimed: p.claimed,
                    },
                    created: false,
                    bump,
                    usdt_amount,
                },
            )
        },
    }
}

} // verus!
