//! Accounting and access-control core of a token sale with monthly vesting.
//!
//! Investors deposit a payment token during a fixed sale window; an
//! administrator later fixes a token-generation-event (TGE) timestamp;
//! investors then claim the sale token on an unlocking schedule, with a
//! configurable up-front percentage released at TGE.

use vstd::prelude::*;

mod access;
mod codec;
mod error;
mod instructions;
mod processor;
mod schedule;
mod state;
mod token;

pub use access::{pda_of, prefix_seq, prefix_bytes, sale_authority_seeds, participant_seeds, derive_sale_authority, derive_participant_address};
pub use error::TokensellError;
pub use processor::{Instruction, parse_instruction, spec_parse_instruction};
pub use instructions::claim::{ClaimEffect, lemma_second_claim_yields_nothing, process_claim, spec_process_claim};
pub use instructions::init_sell::{InitSellArgs, process_init_sell, spec_process_init_sell};
pub use instructions::make_deposit::{DepositEffect, MakeDepositArgs, lemma_purchased_monotonic, process_make_deposit, spec_process_make_deposit};
pub use instructions::set_tge::{SetTgeArgs, process_set_tge, spec_process_set_tge};
pub use token::{spl_token_id_seq, spl_account_bytes_ok, spl_mint_bytes_ok, coption_tag_ok};
pub use schedule::{spec_months_passed, spec_pow10, spec_unlocked, spec_unlocked_overflows, unlocked_amount, pow10_u64, lemma_nothing_unlocked_before_tge, lemma_unlocked_within_entitlement, lemma_second_claim_is_zero};
pub use state::{Address, Key, ParticipantData, SellData, lemma_participant_roundtrip, lemma_sell_roundtrip, spec_participant_bytes, spec_sell_bytes, PARTICIPANT_SIZE, TOKENSELL_SELL_SIZE};

verus! {

/// Number of seconds in the fixed 30-day month used by the vesting schedule.
pub const MONTH_SECONDS: u64 = 30 * 24 * 3600;

} // verus!
