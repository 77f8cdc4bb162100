//! The four operations end to end on concrete accounts, with the real
//! derivation and token-layout parsing linked in.

use solana_program::pubkey::Pubkey;
use tokensell::{
    derive_participant_address, derive_sale_authority, process_claim, process_init_sell,
    process_make_deposit, process_set_tge, Address, InitSellArgs, Key, MakeDepositArgs,
    ParticipantData, SellData, SetTgeArgs, TokensellError,
};

const MONTH: i64 = 30 * 24 * 3600;

fn addr(n: u8) -> Address {
    Address { bytes: [n; 32] }
}

/// A packed token-account image: `mint`, `owner`, `amount`, no delegate,
/// state Initialized, not native, no close authority.
fn token_account_bytes(mint: &Address, owner: &Address, amount: u64) -> Vec<u8> {
    let mut b = vec![0u8; 165];
    b[0..32].copy_from_slice(&mint.bytes);
    b[32..64].copy_from_slice(&owner.bytes);
    b[64..72].copy_from_slice(&amount.to_le_bytes());
    b[108] = 1;
    b
}

/// A packed mint image with the given decimal precision, initialized.
fn mint_bytes(decimals: u8) -> Vec<u8> {
    let mut b = vec![0u8; 82];
    b[44] = decimals;
    b[45] = 1;
    b
}

fn spl_token_program() -> Address {
    Address {
        bytes: spl_token::id().to_bytes(),
    }
}

fn sale_authority(program: &Address, sell: &Address) -> (Address, u8) {
    derive_sale_authority(program, sell).unwrap()
}

fn participant_address(program: &Address, sell: &Address, payer: &Address) -> (Address, u8) {
    derive_participant_address(program, sell, payer).unwrap()
}

fn active_sale(program: &Address, sell_key: &Address) -> SellData {
    let admin = addr(11);
    let vault_owner = sale_authority(program, sell_key).0;
    let vault = token_account_bytes(&addr(21), &vault_owner, 5000);
    let target = token_account_bytes(&addr(22), &addr(23), 0);
    let args = InitSellArgs {
        instruction: 1,
        exchange_rate: 2,
        start_time: 100,
        end_time: 200,
        initial_perc: 20,
        total_months: 10,
        min_deposit: 50,
        total_amount: 5000,
    };
    let uninit = SellData {
        key: Key::Uninitialized,
        owner: addr(0),
        source_mint: addr(0),
        target_mint: None,
        source_vault: None,
        target_acc: addr(0),
        exchange_rate: 0,
        start_time: 0,
        end_time: 0,
        tge: None,
        initial_perc: 0,
        total_months: 0,
        min_deposit: 0,
        amount_total: 0,
        amount_left: 0,
    };
    process_init_sell(
        program,
        &args,
        &admin,
        sell_key,
        program,
        true,
        &uninit,
        &vault,
        &addr(21),
        &addr(22),
        &addr(23),
        &target,
        150,
    )
    .unwrap()
}

#[test]
fn derivations_agree_with_the_ledger_and_are_deterministic() {
    let program = addr(1);
    let sell = addr(2);
    let payer = addr(3);
    let program_pk = Pubkey::new_from_array(program.bytes);
    let (expected, expected_bump) = Pubkey::find_program_address(
        &[b"tokensell", program_pk.as_ref(), &sell.bytes],
        &program_pk,
    );
    let (got, bump) = sale_authority(&program, &sell);
    assert_eq!(got.bytes, expected.to_bytes());
    assert_eq!(bump, expected_bump);
    let again = sale_authority(&program, &sell);
    assert_eq!(again.0.bytes, got.bytes);

    let (expected_p, _) = Pubkey::find_program_address(
        &[b"tokensell", program_pk.as_ref(), &sell.bytes, &payer.bytes],
        &program_pk,
    );
    let (got_p, _) = participant_address(&program, &sell, &payer);
    assert_eq!(got_p.bytes, expected_p.to_bytes());
    assert_ne!(got_p.bytes, got.bytes);
}

#[test]
fn token_program_identity_matches_the_ledger() {
    let expected: [u8; 32] = [
        6, 221, 246, 225, 215, 101, 161, 147, 217, 203, 225, 70, 206, 235, 121, 172, 28, 180, 133,
        237, 95, 91, 55, 145, 58, 140, 245, 133, 126, 255, 0, 169,
    ];
    assert_eq!(spl_token::id().to_bytes(), expected);
}

#[test]
fn init_sell_builds_the_active_record() {
    let program = addr(1);
    let sell_key = addr(2);
    let sale = active_sale(&program, &sell_key);
    assert_eq!(sale.key, Key::SellData);
    assert_eq!(sale.owner, addr(11));
    assert_eq!(sale.source_mint, addr(22));
    assert_eq!(sale.target_acc, addr(23));
    assert!(sale.tge.is_none());
    assert!(sale.target_mint.is_none());
    assert!(sale.source_vault.is_none());
    assert_eq!(sale.amount_total, 5000);
    assert_eq!(sale.amount_left, 5000);
}

#[test]
fn init_sell_rejects_bad_windows_and_vaults() {
    let program = addr(1);
    let sell_key = addr(2);
    let vault_owner = sale_authority(&program, &sell_key).0;
    let vault = token_account_bytes(&addr(21), &vault_owner, 5000);
    let target = token_account_bytes(&addr(22), &addr(23), 0);
    let args = InitSellArgs {
        instruction: 1,
        exchange_rate: 2,
        start_time: 100,
        end_time: 200,
        initial_perc: 20,
        total_months: 10,
        min_deposit: 50,
        total_amount: 5000,
    };
    let uninit = SellData {
        key: Key::Uninitialized,
        owner: addr(0),
        source_mint: addr(0),
        target_mint: None,
        source_vault: None,
        target_acc: addr(0),
        exchange_rate: 0,
        start_time: 0,
        end_time: 0,
        tge: None,
        initial_perc: 0,
        total_months: 0,
        min_deposit: 0,
        amount_total: 0,
        amount_left: 0,
    };
    // Sale record not owned by the program.
    let r = process_init_sell(
        &program, &args, &addr(11), &sell_key, &addr(99), true, &uninit, &vault, &addr(21),
        &addr(22), &addr(23), &target, 150,
    );
    assert_eq!(r, Err(TokensellError::InvalidOwner));
    // Current time already past the declared end.
    let r = process_init_sell(
        &program, &args, &addr(11), &sell_key, &program, true, &uninit, &vault, &addr(21),
        &addr(22), &addr(23), &target, 201,
    );
    assert_eq!(r, Err(TokensellError::InvalidEndTimestamp));
    // End before start.
    let bad = InitSellArgs {
        start_time: 300,
        ..args
    };
    let r = process_init_sell(
        &program, &bad, &addr(11), &sell_key, &program, true, &uninit, &vault, &addr(21),
        &addr(22), &addr(23), &target, 150,
    );
    assert_eq!(r, Err(TokensellError::InvalidEndTimestamp));
    // Not rent exempt.
    let r = process_init_sell(
        &program, &args, &addr(11), &sell_key, &program, false, &uninit, &vault, &addr(21),
        &addr(22), &addr(23), &target, 150,
    );
    assert_eq!(r, Err(TokensellError::NotRentExempt));
    // Already initialized.
    let active = SellData {
        key: Key::SellData,
        ..uninit
    };
    let r = process_init_sell(
        &program, &args, &addr(11), &sell_key, &program, true, &active, &vault, &addr(21),
        &addr(22), &addr(23), &target, 150,
    );
    assert_eq!(r, Err(TokensellError::AccountInitialized));
    // Vault owned by someone other than the derived authority.
    let foreign_vault = token_account_bytes(&addr(21), &addr(88), 5000);
    let r = process_init_sell(
        &program, &args, &addr(11), &sell_key, &program, true, &uninit, &foreign_vault,
        &addr(21), &addr(22), &addr(23), &target, 150,
    );
    assert_eq!(r, Err(TokensellError::InvalidOwner));
    // Empty vault.
    let empty_vault = token_account_bytes(&addr(21), &vault_owner, 0);
    let r = process_init_sell(
        &program, &args, &addr(11), &sell_key, &program, true, &uninit, &empty_vault, &addr(21),
        &addr(22), &addr(23), &target, 150,
    );
    assert_eq!(r, Err(TokensellError::NoTokensInVault));
    // Vault holds the wrong mint.
    let r = process_init_sell(
        &program, &args, &addr(11), &sell_key, &program, true, &uninit, &vault, &addr(77),
        &addr(22), &addr(23), &target, 150,
    );
    assert_eq!(r, Err(TokensellError::WrongMint));
}

#[test]
fn deposit_outside_window_always_fails() {
    let program = addr(1);
    let sell_key = addr(2);
    let sale = active_sale(&program, &sell_key);
    let payer = addr(31);
    let pkey = participant_address(&program, &sell_key, &payer).0;
    for amount in [0u64, 1, 1_000_000] {
        let args = MakeDepositArgs {
            instruction: 0,
            amount,
        };
        let r = process_make_deposit(
            &program,
            &args,
            &payer,
            true,
            &spl_token_program(),
            &sell_key,
            &program,
            &sale,
            &addr(23),
            &pkey,
            &None,
            99,
        );
        assert_eq!(r, Err(TokensellError::SellNotStarted));
        let r = process_make_deposit(
            &program,
            &args,
            &payer,
            true,
            &spl_token_program(),
            &sell_key,
            &program,
            &sale,
            &addr(23),
            &pkey,
            &None,
            201,
        );
        assert_eq!(r, Err(TokensellError::SellEnded));
    }
}

#[test]
fn first_deposit_below_minimum_creates_nothing() {
    let program = addr(1);
    let sell_key = addr(2);
    let sale = active_sale(&program, &sell_key);
    let payer = addr(31);
    let pkey = participant_address(&program, &sell_key, &payer).0;
    // 20 units at rate 2 pay 40 < 50 minimum.
    let args = MakeDepositArgs {
        instruction: 0,
        amount: 20,
    };
    let r = process_make_deposit(
        &program,
        &args,
        &payer,
        true,
        &spl_token_program(),
        &sell_key,
        &program,
        &sale,
        &addr(23),
        &pkey,
        &None,
        150,
    );
    assert_eq!(r, Err(TokensellError::MinimalDeposit));
}

#[test]
fn deposits_accumulate_and_never_shrink() {
    let program = addr(1);
    let sell_key = addr(2);
    let sale = active_sale(&program, &sell_key);
    let payer = addr(31);
    let pkey = participant_address(&program, &sell_key, &payer).0;
    let first = process_make_deposit(
        &program,
        &MakeDepositArgs {
            instruction: 0,
            amount: 100,
        },
        &payer,
        true,
        &spl_token_program(),
        &sell_key,
        &program,
        &sale,
        &addr(23),
        &pkey,
        &None,
        150,
    )
    .unwrap();
    assert!(first.created);
    assert_eq!(first.usdt_amount, 200);
    assert_eq!(first.participant.amount, 100);
    assert_eq!(first.participant.claimed, 0);
    assert_eq!(first.participant.key, Key::ParticipantData);
    assert_eq!(first.participant.owner, payer);
    assert_eq!(first.participant.sell, sell_key);

    let second = process_make_deposit(
        &program,
        &MakeDepositArgs {
            instruction: 0,
            amount: 30,
        },
        &payer,
        true,
        &spl_token_program(),
        &sell_key,
        &program,
        &sale,
        &addr(23),
        &pkey,
        &Some(first.participant),
        150,
    )
    .unwrap();
    assert!(!second.created);
    assert_eq!(second.usdt_amount, 60);
    assert_eq!(second.participant.amount, 130);
    assert!(second.participant.amount >= first.participant.amount);

    // A third deposit that would overflow the ledger is refused.
    let r = process_make_deposit(
        &program,
        &MakeDepositArgs {
            instruction: 0,
            amount: u64::MAX / 2,
        },
        &payer,
        true,
        &spl_token_program(),
        &sell_key,
        &program,
        &sale,
        &addr(23),
        &pkey,
        &Some(ParticipantData {
            amount: u64::MAX,
            ..second.participant
        }),
        150,
    );
    assert_eq!(r, Err(TokensellError::Overflow));
}

#[test]
fn deposit_validates_signer_token_program_and_addresses() {
    let program = addr(1);
    let sell_key = addr(2);
    let sale = active_sale(&program, &sell_key);
    let payer = addr(31);
    let pkey = participant_address(&program, &sell_key, &payer).0;
    let args = MakeDepositArgs {
        instruction: 0,
        amount: 100,
    };
    let r = process_make_deposit(
        &program,
        &args,
        &payer,
        false,
        &spl_token_program(),
        &sell_key,
        &program,
        &sale,
        &addr(23),
        &pkey,
        &None,
        150,
    );
    assert_eq!(r, Err(TokensellError::SignatureRequired));
    let r = process_make_deposit(
        &program, &args, &payer, true, &addr(66), &sell_key, &program, &sale, &addr(23), &pkey,
        &None, 150,
    );
    assert_eq!(r, Err(TokensellError::InvalidAccount));
    // Payment destination other than the sale's.
    let r = process_make_deposit(
        &program,
        &args,
        &payer,
        true,
        &spl_token_program(),
        &sell_key,
        &program,
        &sale,
        &addr(77),
        &pkey,
        &None,
        150,
    );
    assert_eq!(r, Err(TokensellError::InvalidAccount));
    // Participant account not the derived one.
    let r = process_make_deposit(
        &program,
        &args,
        &payer,
        true,
        &spl_token_program(),
        &sell_key,
        &program,
        &sale,
        &addr(23),
        &addr(78),
        &None,
        150,
    );
    assert_eq!(r, Err(TokensellError::InvalidAccount));
}

#[test]
fn set_tge_by_admin_reveals_mint_and_vault() {
    let program = addr(1);
    let sell_key = addr(2);
    let sale = active_sale(&program, &sell_key);
    let vault_owner = sale_authority(&program, &sell_key).0;
    let vault_key = addr(40);
    let vault = token_account_bytes(&addr(21), &vault_owner, 5000);
    let updated = process_set_tge(
        &program,
        &SetTgeArgs {
            instruction: 3,
            tge: Some(1000),
        },
        &addr(11),
        true,
        &sell_key,
        &program,
        &sale,
        &addr(21),
        &vault_key,
        &vault,
    )
    .unwrap();
    assert_eq!(updated.tge, Some(1000));
    assert_eq!(updated.target_mint, Some(addr(21)));
    assert_eq!(updated.source_vault, Some(vault_key));
    assert_eq!(updated.owner, sale.owner);
    assert_eq!(updated.exchange_rate, sale.exchange_rate);
    assert_eq!(updated.start_time, sale.start_time);
    assert_eq!(updated.end_time, sale.end_time);

    // The admin can also take the epoch back out.
    let relocked = process_set_tge(
        &program,
        &SetTgeArgs {
            instruction: 3,
            tge: None,
        },
        &addr(11),
        true,
        &sell_key,
        &program,
        &updated,
        &addr(21),
        &vault_key,
        &vault,
    )
    .unwrap();
    assert_eq!(relocked.tge, None);
}

#[test]
fn set_tge_by_non_admin_fails_and_changes_nothing() {
    let program = addr(1);
    let sell_key = addr(2);
    let sale = active_sale(&program, &sell_key);
    let vault_owner = sale_authority(&program, &sell_key).0;
    let vault = token_account_bytes(&addr(21), &vault_owner, 5000);
    let r = process_set_tge(
        &program,
        &SetTgeArgs {
            instruction: 3,
            tge: Some(1000),
        },
        &addr(12),
        true,
        &sell_key,
        &program,
        &sale,
        &addr(21),
        &addr(40),
        &vault,
    );
    assert_eq!(r, Err(TokensellError::InvalidAccount));
    assert!(sale.tge.is_none());
    // Without a signature the same request fails earlier.
    let r = process_set_tge(
        &program,
        &SetTgeArgs {
            instruction: 3,
            tge: Some(1000),
        },
        &addr(11),
        false,
        &sell_key,
        &program,
        &sale,
        &addr(21),
        &addr(40),
        &vault,
    );
    assert_eq!(r, Err(TokensellError::SignatureRequired));
    // An underfunded vault is refused.
    let poor_vault = token_account_bytes(&addr(21), &vault_owner, 4999);
    let r = process_set_tge(
        &program,
        &SetTgeArgs {
            instruction: 3,
            tge: Some(1000),
        },
        &addr(11),
        true,
        &sell_key,
        &program,
        &sale,
        &addr(21),
        &addr(40),
        &poor_vault,
    );
    assert_eq!(r, Err(TokensellError::NoTokensInVault));
}

fn claimable_sale(program: &Address, sell_key: &Address, tge: i64) -> SellData {
    let sale = active_sale(program, sell_key);
    let vault_owner = sale_authority(program, sell_key).0;
    let vault = token_account_bytes(&addr(21), &vault_owner, 5000);
    process_set_tge(
        program,
        &SetTgeArgs {
            instruction: 3,
            tge: Some(tge),
        },
        &addr(11),
        true,
        sell_key,
        program,
        &sale,
        &addr(21),
        &addr(40),
        &vault,
    )
    .unwrap()
}

#[test]
fn claim_transfers_the_unlocked_amount_and_records_it() {
    let program = addr(1);
    let sell_key = addr(2);
    let tge = 1000;
    let sale = claimable_sale(&program, &sell_key, tge);
    let payer = addr(31);
    let pkey = participant_address(&program, &sell_key, &payer).0;
    let authority = sale_authority(&program, &sell_key).0;
    let participant = ParticipantData {
        key: Key::ParticipantData,
        owner: payer,
        sell: sell_key,
        amount: 1000,
        claimed: 0,
    };
    let mint = mint_bytes(0);

    // One month after the epoch: 280 units unlock.
    let effect = process_claim(
        &program,
        &payer,
        true,
        &sell_key,
        &program,
        &sale,
        &addr(21),
        &mint,
        &authority,
        &addr(40),
        &pkey,
        &participant,
        tge + MONTH,
    )
    .unwrap();
    assert_eq!(effect.amount, 280);
    assert_eq!(effect.participant.claimed, 280);
    assert_eq!(effect.participant.amount, 1000);
    assert!(effect.participant.claimed <= effect.participant.amount);

    // Claiming again at the same instant yields nothing more.
    let r = process_claim(
        &program,
        &payer,
        true,
        &sell_key,
        &program,
        &sale,
        &addr(21),
        &mint,
        &authority,
        &addr(40),
        &pkey,
        &effect.participant,
        tge + MONTH,
    );
    assert_eq!(r, Err(TokensellError::NothingToClaim));

    // At the epoch instant nothing is claimable at all.
    let r = process_claim(
        &program,
        &payer,
        true,
        &sell_key,
        &program,
        &sale,
        &addr(21),
        &mint,
        &authority,
        &addr(40),
        &pkey,
        &participant,
        tge,
    );
    assert_eq!(r, Err(TokensellError::NothingToClaim));

    // Fully vested: everything still unclaimed comes out.
    let effect = process_claim(
        &program,
        &payer,
        true,
        &sell_key,
        &program,
        &sale,
        &addr(21),
        &mint,
        &authority,
        &addr(40),
        &pkey,
        &ParticipantData {
            claimed: 300,
            ..participant
        },
        tge + 10 * MONTH,
    )
    .unwrap();
    assert_eq!(effect.amount, 700);
    assert_eq!(effect.participant.claimed, 1000);
}

#[test]
fn claim_validates_every_identity() {
    let program = addr(1);
    let sell_key = addr(2);
    let tge = 1000;
    let sale = claimable_sale(&program, &sell_key, tge);
    let payer = addr(31);
    let pkey = participant_address(&program, &sell_key, &payer).0;
    let authority = sale_authority(&program, &sell_key).0;
    let participant = ParticipantData {
        key: Key::ParticipantData,
        owner: payer,
        sell: sell_key,
        amount: 1000,
        claimed: 0,
    };
    let mint = mint_bytes(0);
    let now = tge + MONTH;

    // Before the epoch is set there is nothing to claim.
    let unset = active_sale(&program, &addr(4));
    let r = process_claim(
        &program, &payer, true, &addr(4), &program, &unset, &addr(21), &mint, &authority,
        &addr(40), &pkey, &participant, now,
    );
    assert_eq!(r, Err(TokensellError::NothingToClaim));

    // Wrong sale-token mint account.
    let r = process_claim(
        &program, &payer, true, &sell_key, &program, &sale, &addr(66), &mint, &authority,
        &addr(40), &pkey, &participant, now,
    );
    assert_eq!(r, Err(TokensellError::InvalidAccount));

    // Wrong participant account.
    let r = process_claim(
        &program, &payer, true, &sell_key, &program, &sale, &addr(21), &mint, &authority,
        &addr(40), &addr(67), &participant, now,
    );
    assert_eq!(r, Err(TokensellError::InvalidAccount));

    // Wrong vault account.
    let r = process_claim(
        &program, &payer, true, &sell_key, &program, &sale, &addr(21), &mint, &authority,
        &addr(68), &pkey, &participant, now,
    );
    assert_eq!(r, Err(TokensellError::InvalidAccount));

    // Wrong authority account.
    let r = process_claim(
        &program, &payer, true, &sell_key, &program, &sale, &addr(21), &mint, &addr(69),
        &addr(40), &pkey, &participant, now,
    );
    assert_eq!(r, Err(TokensellError::InvalidAccount));

    // A malformed mint image is refused.
    let bad_mint = vec![0u8; 82];
    let r = process_claim(
        &program, &payer, true, &sell_key, &program, &sale, &addr(21), &bad_mint, &authority,
        &addr(40), &pkey, &participant, now,
    );
    assert_eq!(r, Err(TokensellError::DeserializationFailed));
}
