use vstd::prelude::*;
use vstd::bytes::{spec_u32_from_le_bytes, u32_from_le_bytes};
use vstd::utf8::{decode_utf8, valid_utf8};
use crate::error::OnchainAccountError;
use crate::state::string_from_utf8;

verus! {

/// A decoded instruction: one variant per opcode.
pub enum OnchainAccountInstruction {
    /// Opcode 1: create the record `id` of the signing initializer.
    CreateOnchainAccount { id: u8, name: String },
    /// Opcode 0: does nothing but greet.
    Hello,
    /// Opcode 2: create and initialize the program's token mint.
    InitializeMint,
}

/// An instruction as mathematical values.
pub ghost enum InstructionModel {
    CreateOnchainAccount { id: u8, name: Seq<char> },
    Hello,
    InitializeMint,
}

impl View for OnchainAccountInstruction {
    type V = InstructionModel;

    open spec fn view(&self) -> InstructionModel {
        match self {
            OnchainAccountInstruction::CreateOnchainAccount { id, name } => {
                InstructionModel::CreateOnchainAccount { id: *id, name: name@ }
            },
            OnchainAccountInstruction::Hello => InstructionModel::Hello,
            OnchainAccountInstruction::InitializeMint => InstructionModel::InitializeMint,
        }
    }
}

/// The payload of `CreateOnchainAccount`: an id byte, a little-endian `u32`
/// name length, and exactly that many bytes of UTF-8 name, nothing after.
pub open spec fn decode_create_payload(p: Seq<u8>) -> Option<InstructionModel> {
    if p.len() < 5 {
        None
    } else {
        let n = spec_u32_from_le_bytes(p.subrange(1, 5)) as int;
        if p.len() != 5 + n || !valid_utf8(p.subrange(5, 5 + n)) {
            None
        } else {
            Some(
                InstructionModel::CreateOnchainAccount {
                    id: p[0],
                    name: decode_utf8(p.subrange(5, 5 + n)),
                },
            )
        }
    }
}

/// What an instruction buffer decodes to.
pub open spec fn decode_instruction(b: Seq<u8>) -> Result<InstructionModel, OnchainAccountError> {
    if b.len() == 0 {
        Err(OnchainAccountError::MalformedInstruction)
    } else if b[0] == 0 {
        Ok(InstructionModel::Hello)
    } else if b[0] == 1 {
        match decode_create_payload(b.subrange(1, b.len() as int)) {
            Some(m) => Ok(m),
            None => Err(OnchainAccountError::MalformedInstruction),
        }
    } else if b[0] == 2 {
        Ok(InstructionModel::InitializeMint)
    } else {
        Err(OnchainAccountError::UnknownOpcode)
    }
}

impl OnchainAccountInstruction {
    /// Decodes an instruction buffer; never defaults a missing field.
    pub fn unpack(input: &[u8]) -> (r: Result<OnchainAccountInstruction, OnchainAccountError>)
        ensures
            match decode_instruction(input@) {
                Ok(m) => r matches Ok(i) && i@ == m,
                Err(e) => r matches Err(f) && f == e,
            },
    {
        let (variant, rest) = Self::unpack_u8(input)?;
        assert(rest@ == input@.subrange(1, input@.len() as int));
        match variant {
            0 => Ok(OnchainAccountInstruction::Hello),
            1 => {
                let ghost p = rest@;
                let (id, rest) = Self::unpack_u8(rest)?;
                let ghost q = rest@;
                let (n, rest) = Self::unpack_u32(rest)?;
                assert(p.subrange(1, 5) =~= q.subrange(0, 4));
                if rest.len() as u64 != n as u64 {
                    return Err(OnchainAccountError::MalformedInstruction);
                }
                assert(p.subrange(5, 5 + n as int) =~= rest@);
                let name = match string_from_utf8(vstd::slice::slice_to_vec(rest)) {
                    Some(s) => s,
                    None => return Err(OnchainAccountError::MalformedInstruction),
                };
                Ok(OnchainAccountInstruction::CreateOnchainAccount { id, name })
            },
            2 => Ok(OnchainAccountInstruction::InitializeMint),
            _ => Err(OnchainAccountError::UnknownOpcode),
        }
    }

    /// Splits one byte off the front of `input`.
    fn unpack_u8(input: &[u8]) -> (r: Result<(u8, &[u8]), OnchainAccountError>)
        ensures
            input@.len() < 1 ==> r == Err::<(u8, &[u8]), _>(OnchainAccountError::MalformedInstruction),
            input@.len() >= 1 ==> (r matches Ok((v, rest)) && v == input@[0] && rest@
                == input@.subrange(1, input@.len() as int)),
    {
        if input.len() < 1 {
            return Err(OnchainAccountError::MalformedInstruction);
        }
        let (bytes, rest) = input.split_at(1);
        Ok((bytes[0], rest))
    }

    /// Splits a little-endian `u32` off the front of `input`.
    fn unpack_u32(input: &[u8]) -> (r: Result<(u32, &[u8]), OnchainAccountError>)
        ensures
            input@.len() < 4 ==> r == Err::<(u32, &[u8]), _>(OnchainAccountError::MalformedInstruction),
            input@.len() >= 4 ==> (r matches Ok((v, rest)) && v == spec_u32_from_le_bytes(
                input@.subrange(0, 4),
            ) && rest@ == input@.subrange(4, input@.len() as int)),
    {
        if input.len() < 4 {
            return Err(OnchainAccountError::MalformedInstruction);
        }
        let (bytes, rest) = input.split_at(4);
        Ok((u32_from_le_bytes(bytes), rest))
    }
}

} // verus!
