//! The requests that the program takes, and their encoding.

use crate::bytes::{
    i64_from_le, i64_to_le, le_bytes, le_value, lemma_i64_from_le_bound, lemma_i64_le_roundtrip,
    lemma_le_roundtrip, lemma_le_value_bound, lemma_pow256_8, read_i64, read_u64, write_i64,
    write_u64,
};
use crate::errors::VestingError;
use vstd::prelude::*;

verus! {

/// The number of bytes that follow the opcode of a request to create a
/// grant.
pub const CREATE_VESTING_PAYLOAD: usize = 41;

/// A request, as its first byte and the bytes after it describe it.
#[derive(Clone, Copy, Debug, PartialEq, Eq)]
pub enum Instruction {
    /// Create a grant. Opcode 0, followed by the seed, the total amount, the
    /// three times and the bump.
    CreateVesting {
        seed: u64,
        total_amount: u64,
        start_time: i64,
        cliff_time: i64,
        end_time: i64,
        bump: u8,
    },
    /// Fund the vault of a grant. Opcode 1.
    Deposit,
    /// Claim what is unlocked. Opcode 2.
    Claim,
}

impl Instruction {
    /// What a byte string asks for. An empty string and an unknown first
    /// byte give `InvalidOpcode`; a request to create a grant with fewer
    /// than 41 bytes after the opcode gives `InvalidArgument`. Bytes beyond
    /// those that a request needs are not looked at.
    pub open spec fn decode(data: Seq<u8>) -> Result<Instruction, VestingError> {
        if data.len() == 0 {
            Err(VestingError::InvalidOpcode)
        } else if data[0] == 0 {
            if data.len() < 42 {
                Err(VestingError::InvalidArgument)
            } else {
                Ok(
                    Instruction::CreateVesting {
                        seed: le_value(data.subrange(1, 9)) as u64,
                        total_amount: le_value(data.subrange(9, 17)) as u64,
                        start_time: i64_from_le(data.subrange(17, 25)) as i64,
                        cliff_time: i64_from_le(data.subrange(25, 33)) as i64,
                        end_time: i64_from_le(data.subrange(33, 41)) as i64,
                        bump: data[41],
                    },
                )
            }
        } else if data[0] == 1 {
            Ok(Instruction::Deposit)
        } else if data[0] == 2 {
            Ok(Instruction::Claim)
        } else {
            Err(VestingError::InvalidOpcode)
        }
    }

    /// The bytes that ask for this request.
    pub open spec fn encode(self) -> Seq<u8> {
        match self {
            Instruction::CreateVesting {
                seed,
                total_amount,
                start_time,
                cliff_time,
                end_time,
                bump,
            } => seq![0u8] + le_bytes(seed as nat, 8) + le_bytes(total_amount as nat, 8)
                + i64_to_le(start_time as int) + i64_to_le(cliff_time as int) + i64_to_le(
                end_time as int,
            ) + seq![bump],
            Instruction::Deposit => seq![1u8],
            Instruction::Claim => seq![2u8],
        }
    }

    /// Reads a request.
    pub fn unpack(data: &[u8]) -> (r: Result<Instruction, VestingError>)
        ensures
            r == Instruction::decode(data@),
    {
        if data.len() == 0 {
            return Err(VestingError::InvalidOpcode);
        }
        let opcode: u8 = data[0];
        if opcode == 0 {
            if data.len() - 1 < CREATE_VESTING_PAYLOAD {
                return Err(VestingError::InvalidArgument);
            }
            proof {
                lemma_pow256_8();
                lemma_le_value_bound(data@.subrange(1, 9));
                lemma_le_value_bound(data@.subrange(9, 17));
                lemma_i64_from_le_bound(data@.subrange(17, 25));
                lemma_i64_from_le_bound(data@.subrange(25, 33));
                lemma_i64_from_le_bound(data@.subrange(33, 41));
            }
            Ok(
                Instruction::CreateVesting {
                    seed: read_u64(data, 1),
                    total_amount: read_u64(data, 9),
                    start_time: read_i64(data, 17),
                    cliff_time: read_i64(data, 25),
                    end_time: read_i64(data, 33),
                    bump: data[41],
                },
            )
        } else if opcode == 1 {
            Ok(Instruction::Deposit)
        } else if opcode == 2 {
            Ok(Instruction::Claim)
        } else {
            Err(VestingError::InvalidOpcode)
        }
    }

    /// Writes a request.
    pub fn pack(&self) -> (r: Vec<u8>)
        ensures
            r@ == self.encode(),
    {
        let mut out: Vec<u8> = Vec::new();
        match self {
            Instruction::CreateVesting {
                seed,
                total_amount,
                start_time,
                cliff_time,
                end_time,
                bump,
            } => {
                out.push(0);
                write_u64(&mut out, *seed);
                write_u64(&mut out, *total_amount);
                write_i64(&mut out, *start_time);
                write_i64(&mut out, *cliff_time);
                write_i64(&mut out, *end_time);
                out.push(*bump);
            },
            Instruction::Deposit => {
                out.push(1);
            },
            Instruction::Claim => {
                out.push(2);
            },
        }
        assert(out@ =~= self.encode());
        out
    }
}

/// Reading a request that was written gives the request back.
pub proof fn lemma_decode_encode_instruction(ix: Instruction)
    ensures
        Instruction::decode(ix.encode()) == Ok::<Instruction, VestingError>(ix),
{
    let data = ix.encode();
    match ix {
        Instruction::CreateVesting {
            seed,
            total_amount,
            start_time,
            cliff_time,
            end_time,
            bump,
        } => {
            lemma_pow256_8();
            lemma_le_roundtrip(seed as nat, 8);
            lemma_le_roundtrip(total_amount as nat, 8);
            lemma_i64_le_roundtrip(start_time as int);
            lemma_i64_le_roundtrip(cliff_time as int);
            lemma_i64_le_roundtrip(end_time as int);
            assert(data.len() == 42);
            assert(data[0] == 0);
            assert(data.subrange(1, 9) =~= le_bytes(seed as nat, 8));
            assert(data.subrange(9, 17) =~= le_bytes(total_amount as nat, 8));
            assert(data.subrange(17, 25) =~= i64_to_le(start_time as int));
            assert(data.subrange(25, 33) =~= i64_to_le(cliff_time as int));
            assert(data.subrange(33, 41) =~= i64_to_le(end_time as int));
            assert(data[41] == bump);
        },
        Instruction::Deposit => {
            assert(data[0] == 1);
        },
        Instruction::Claim => {
            assert(data[0] == 2);
        },
    }
}

} // verus!
