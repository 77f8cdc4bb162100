//! Decoding an inbound request: an opcode byte followed by the operation's
//! fixed-layout payload, turned into a typed instruction.

use vstd::prelude::*;

use crate::codec::{i64_unrepr, le_u64_at};
use crate::error::TokensellError;
use crate::instructions::init_sell::InitSellArgs;
use crate::instructions::make_deposit::MakeDepositArgs;
use crate::instructions::set_tge::SetTgeArgs;

verus! {

/// One decoded request: which operation to run, with its typed payload.
#[derive(Clone, Copy, Debug, PartialEq, Eq)]
pub enum Instruction {
    MakeDeposit(MakeDepositArgs),
    InitSell(InitSellArgs),
    Claim,
    SetTge(SetTgeArgs),
}

/// What decoding a payload yields for every byte string: an unknown opcode or
/// an empty payload is `UnknownInstruction`, a payload of the wrong shape for
/// its opcode is `DeserializationFailed`, anything else the typed request.
pub open spec fn spec_parse_instruction(b: Seq<u8>) -> Result<Instruction, TokensellError> {
    if b.len() == 0 {
        Err(TokensellError::UnknownInstruction)
    } else if b[0] == 0 {
        if b.len() == 9 {
            Ok(
                Instruction::MakeDeposit(
                    MakeDepositArgs { instruction: 0, amount: le_u64_at(b, 1) as u64 },
                ),
            )
        } else {
            Err(TokensellError::DeserializationFailed)
        }
    } else if b[0] == 1 {
        if b.len() == 57 {
            Ok(
                Instruction::InitSell(
                    InitSellArgs {
                        instruction: 1,
                        exchange_rate: le_u64_at(b, 1) as u64,
                        start_time: i64_unrepr(le_u64_at(b, 9) as u64),
                        end_time: i64_unrepr(le_u64_at(b, 17) as u64),
                        initial_perc: le_u64_at(b, 25) as u64,
                        total_months: le_u64_at(b, 33) as u64,
                        min_deposit: le_u64_at(b, 41) as u64,
                        total_amount: le_u64_at(b, 49) as u64,
                    },
                ),
            )
        } else {
            Err(TokensellError::DeserializationFailed)
        }
    } else if b[0] == 2 {
        Ok(Instruction::Claim)
    } else if b[0] == 3 {
        if b.len() == 2 && b[1] == 0 {
            Ok(Instruction::SetTge(SetTgeArgs { instruction: 3, tge: None }))
        } else if b.len() == 10 && b[1] == 1 {
            Ok(
                Instruction::SetTge(
                    SetTgeArgs { instruction: 3, tge: Some(i64_unrepr(le_u64_at(b, 2) as u64)) },
                ),
            )
        } else {
            Err(TokensellError::DeserializationFailed)
        }
    } else {
        Err(TokensellError::UnknownInstruction)
    }
}

/// Decodes an inbound request.
pub fn parse_instruction(data: &Vec<u8>) -> (r: Result<Instruction, TokensellError>)
    ensures
        r == spec_parse_instruction(data@),
{
    if data.len() == 0 {
        return Err(TokensellError::UnknownInstruction);
    }
    let opcode = data[0];
    if opcode == 0 {
        if data.len() != 9 {
            return Err(TokensellError::DeserializationFailed);
        }
        proof {
            crate::codec::lemma_le_u64_at_bound(data@, 1);
        }
        Ok(
            Instruction::MakeDeposit(
                MakeDepositArgs { instruction: 0, amount: crate::codec::decode_u64_le(data, 1) },
            ),
        )
    } else if opcode == 1 {
        if data.len() != 57 {
            return Err(TokensellError::DeserializationFailed);
        }
        proof {
            crate::codec::lemma_le_u64_at_bound(data@, 1);
            crate::codec::lemma_le_u64_at_bound(data@, 25);
            crate::codec::lemma_le_u64_at_bound(data@, 33);
            crate::codec::lemma_le_u64_at_bound(data@, 41);
            crate::codec::lemma_le_u64_at_bound(data@, 49);
        }
        Ok(
            Instruction::InitSell(
                InitSellArgs {
                    instruction: 1,
                    exchange_rate: crate::codec::decode_u64_le(data, 1),
                    start_time: crate::codec::decode_i64_le(data, 9),
                    end_time: crate::codec::decode_i64_le(data, 17),
                    initial_perc: crate::codec::decode_u64_le(data, 25),
                    total_months: crate::codec::decode_u64_le(data, 33),
                    min_deposit: crate::codec::decode_u64_le(data, 41),
                    total_amount: crate::codec::decode_u64_le(data, 49),
                },
            ),
        )
    } else if opcode == 2 {
        Ok(Instruction::Claim)
    } else if opcode == 3 {
        if data.len() == 2 && data[1] == 0 {
            Ok(Instruction::SetTge(SetTgeArgs { instruction: 3, tge: None }))
        } else if data.len() == 10 && data[1] == 1 {
            Ok(
                Instruction::SetTge(
                    SetTgeArgs { instruction: 3, tge: Some(crate::codec::decode_i64_le(data, 2)) },
                ),
            )
        } else {
            Err(TokensellError::DeserializationFailed)
        }
    } else {
        Err(TokensellError::UnknownInstruction)
    }
}

} // verus!
