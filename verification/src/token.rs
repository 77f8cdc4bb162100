//! What the sale core reads of the external token ledger: the fixed identity
//! of the token program, and the mint, owner, balance and decimal precision
//! held in its packed account layouts.

use solana_program::program_pack::Pack;
use vstd::prelude::*;

use crate::codec::le_u64_at;
use crate::state::Address;

verus! {

/// What the sale core reads of one token account.
#[derive(Clone, Copy, Debug, PartialEq, Eq)]
pub(crate) struct TokenAccount {
    pub mint: Address,
    pub owner: Address,
    pub amount: u64,
}

/// A four-byte optional-field tag of the token program's layouts: 0 or 1 in
/// the first byte, zero in the rest.
pub open spec fn coption_tag_ok(b: Seq<u8>, off: int) -> bool {
    &&& (b[off] == 0 || b[off] == 1)
    &&& b[off + 1] == 0
    &&& b[off + 2] == 0
    &&& b[off + 3] == 0
}

/// Whether the token program accepts the head of these bytes as a token
/// account: valid optional-field tags and a known account-state byte.
pub open spec fn spl_account_bytes_ok(b: Seq<u8>) -> bool
    recommends
        b.len() >= 165,
{
    &&& coption_tag_ok(b, 72)
    &&& b[108] <= 2
    &&& coption_tag_ok(b, 109)
    &&& coption_tag_ok(b, 129)
}

/// Whether the token program accepts these bytes as an initialized mint:
/// exactly 82 bytes, valid optional-field tags, initialized flag set.
pub open spec fn spl_mint_bytes_ok(b: Seq<u8>) -> bool {
    &&& b.len() == 82
    &&& coption_tag_ok(b, 0)
    &&& b[45] == 1
    &&& coption_tag_ok(b, 46)
}

/// The token program's fixed 32-byte identity.
pub open spec fn spl_token_id_seq() -> Seq<u8> {
    seq![
        6u8,
        221u8,
        246u8,
        225u8,
        215u8,
        101u8,
        161u8,
        147u8,
        217u8,
        203u8,
        225u8,
        70u8,
        206u8,
        235u8,
        121u8,
        172u8,
        28u8,
        180u8,
        133u8,
        237u8,
        95u8,
        91u8,
        55u8,
        145u8,
        58u8,
        140u8,
        245u8,
        133u8,
        126u8,
        255u8,
        0u8,
        169u8,
    ]
}

/// Relies on spl_token::id: the token program's address is a fixed constant.
#[verifier::external_body]
pub(crate) fn spl_token_program_id() -> (r: Address)
    ensures
        r@ == spl_token_id_seq(),
{
    Address { bytes: spl_token::id().to_bytes() }
}

/// Relies on spl_token's Account::unpack_from_slice: the mint, owner and
/// balance sit at fixed offsets of the first 165 bytes, and parsing fails
/// exactly on an invalid optional-field tag or account-state byte. The
/// callee indexes the first 165 bytes unconditionally, so shorter buffers
/// are kept out.
#[verifier::external_body]
pub(crate) fn unpack_token_account(data: &Vec<u8>) -> (r: Option<TokenAccount>)
    requires
        data@.len() >= 165,
    ensures
        r is Some <==> spl_account_bytes_ok(data@),
        r matches Some(a) ==> {
            &&& a.mint@ == data@.subrange(0, 32)
            &&& a.owner@ == data@.subrange(32, 64)
            &&& a.amount == le_u64_at(data@, 64)
        },
{
    match spl_token::state::Account::unpack_from_slice(data.as_slice()) {
        Ok(a) => Some(
            TokenAccount {
                mint: Address { bytes: a.mint.to_bytes() },
                owner: Address { bytes: a.owner.to_bytes() },
                amount: a.amount,
            },
        ),
        Err(_) => None,
    }
}

/// Relies on spl_token's Mint::unpack: the decimal precision sits at offset
/// 44 of the 82-byte layout, and parsing fails exactly on a wrong length, an
/// invalid optional-field tag, or an uninitialized mint.
#[verifier::external_body]
pub(crate) fn unpack_mint_decimals(data: &Vec<u8>) -> (r: Option<u8>)
    ensures
        r is Some <==> spl_mint_bytes_ok(data@),
        r matches Some(d) ==> d == data@[44],
{
    match spl_token::state::Mint::unpack(data.as_slice()) {
        Ok(m) => Some(m.decimals),
        Err(_) => None,
    }
}

} // verus!
