//! The instruction set: a closed catalog of opcodes, each mapped bit-exactly
//! to a single byte whose low two bits declare the argument arity.

use vstd::prelude::*;

verus! {

/// Bitmask that extracts the argument count from an encoded instruction byte.
pub const ARG_BIT_MASK: u8 = 0b000000_11;

/// Represents an instruction that a creature tries to execute.
///
/// The most significant six bits of the encoded byte are the unique ID of the
/// instruction and the least significant two bits are the count of argument
/// bytes for the instruction. Therefore, instructions may take 0, 1, 2, or 3
/// arguments (00, 01, 10, 11).
#[derive(Debug, Copy, Clone, Eq, PartialEq, Structural)]
pub enum Instruction {
    // Movement
    /// Do nothing this tick.
    Nop,
    /// Move forward 1 tile (will not move if unsuccessful).
    Move,
    /// Try to move forward 2 tiles (will only move 1 if unsuccessful).
    Jump,
    /// Rotate clockwise (relative to looking down).
    RotateCW,
    /// Rotate counter-clockwise (relative to looking down).
    RotateCCW,

    // Logic
    /// Set mem A to 0.
    ClearA,
    /// Set mem B to 0.
    ClearB,
    /// Jump to the byte of DNA provided as an argument (loops back to start above length).
    Goto,
    /// If mem A is greater than the value in mem B, perform a jump to the argument.
    GotoCondAGtB,
    /// If mem B is equal to mem A, perform a jump to the argument.
    GotoCondEq,
    /// Switch mem A and mem B.
    SwapAB,
    /// Copy the value of mem A into mem TMP (but don't clear A).
    CopyATmp,
    /// Copy and clear the value of mem TMP into mem A.
    LoadTmpA,
    /// Copy and clear the value of mem TMP into mem B.
    LoadTmpB,

    // Creature state
    /// Load current health (0-max) into mem TMP.
    StoreHealthTmp,
    /// Load current fullness (0-max) into mem TMP.
    StoreHungerTmp,
    /// Load current waste (0-max) into mem TMP.
    StoreWasteTmp,
    /// Load line of sight color hex (3 bytes) into mem TMP.
    StoreLOSCTmp,

    // Math
    /// Add the provided unsigned byte integer to mem A, wrapping at byte width.
    UAdd,
    /// Add the provided signed byte integer to mem A, wrapping at byte width.
    IAdd,
    /// Bitwise AND of A and B put into A.
    BitAndB,
    /// Bitwise AND of A and the argument put into A.
    BitAnd,
    /// Bitwise OR of A and B put into A.
    BitOrB,
    /// Bitwise OR of A and the argument put into A.
    BitOr,
    /// Bitwise X-OR of A and B put into A.
    BitXorB,
    /// Bitwise X-OR of A and the argument put into A.
    BitXor,
}

/// The canonical one-byte encoding of each instruction: the top six bits
/// identify the instruction, the bottom two give its arity.
pub open spec fn spec_to_byte(i: Instruction) -> u8 {
    match i {
        Instruction::Nop => 0b000000_00,
        Instruction::Move => 0b000001_00,
        Instruction::Jump => 0b000010_00,
        Instruction::RotateCW => 0b000011_00,
        Instruction::RotateCCW => 0b000100_00,
        Instruction::ClearA => 0b000101_00,
        Instruction::ClearB => 0b000110_00,
        Instruction::Goto => 0b000111_01,
        Instruction::GotoCondAGtB => 0b001000_01,
        Instruction::GotoCondEq => 0b001001_01,
        Instruction::SwapAB => 0b001010_00,
        Instruction::CopyATmp => 0b001011_00,
        Instruction::LoadTmpA => 0b001100_00,
        Instruction::LoadTmpB => 0b001101_00,
        Instruction::StoreHealthTmp => 0b001110_00,
        Instruction::StoreHungerTmp => 0b001111_00,
        Instruction::StoreWasteTmp => 0b010110_00,
        Instruction::StoreLOSCTmp => 0b010000_00,
        Instruction::UAdd => 0b010001_01,
        Instruction::IAdd => 0b010010_01,
        Instruction::BitAndB => 0b010011_00,
        Instruction::BitAnd => 0b010011_01,
        Instruction::BitOrB => 0b010100_00,
        Instruction::BitOr => 0b010100_01,
        Instruction::BitXorB => 0b010101_00,
        Instruction::BitXor => 0b010101_01,
    }
}

/// The declared argument arity of each instruction, as a value in 0..=3.
/// In the canonical catalog every instruction takes 0 or 1 argument bytes.
pub open spec fn spec_arity(i: Instruction) -> u8 {
    match i {
        Instruction::Goto => 1,
        Instruction::GotoCondAGtB => 1,
        Instruction::GotoCondEq => 1,
        Instruction::UAdd => 1,
        Instruction::IAdd => 1,
        Instruction::BitAnd => 1,
        Instruction::BitOr => 1,
        Instruction::BitXor => 1,
        _ => 0,
    }
}

/// Partial inverse of `spec_to_byte`: byte values with no assigned
/// instruction decode to `None` ("Unknown Opcode").
pub open spec fn spec_from_byte(b: u8) -> Option<Instruction> {
    if b == 0b000000_00 {
        Some(Instruction::Nop)
    } else if b == 0b000001_00 {
        Some(Instruction::Move)
    } else if b == 0b000010_00 {
        Some(Instruction::Jump)
    } else if b == 0b000011_00 {
        Some(Instruction::RotateCW)
    } else if b == 0b000100_00 {
        Some(Instruction::RotateCCW)
    } else if b == 0b000101_00 {
        Some(Instruction::ClearA)
    } else if b == 0b000110_00 {
        Some(Instruction::ClearB)
    } else if b == 0b000111_01 {
        Some(Instruction::Goto)
    } else if b == 0b001000_01 {
        Some(Instruction::GotoCondAGtB)
    } else if b == 0b001001_01 {
        Some(Instruction::GotoCondEq)
    } else if b == 0b001010_00 {
        Some(Instruction::SwapAB)
    } else if b == 0b001011_00 {
        Some(Instruction::CopyATmp)
    } else if b == 0b001100_00 {
        Some(Instruction::LoadTmpA)
    } else if b == 0b001101_00 {
        Some(Instruction::LoadTmpB)
    } else if b == 0b001110_00 {
        Some(Instruction::StoreHealthTmp)
    } else if b == 0b001111_00 {
        Some(Instruction::StoreHungerTmp)
    } else if b == 0b010110_00 {
        Some(Instruction::StoreWasteTmp)
    } else if b == 0b010000_00 {
        Some(Instruction::StoreLOSCTmp)
    } else if b == 0b010001_01 {
        Some(Instruction::UAdd)
    } else if b == 0b010010_01 {
        Some(Instruction::IAdd)
    } else if b == 0b010011_00 {
        Some(Instruction::BitAndB)
    } else if b == 0b010011_01 {
        Some(Instruction::BitAnd)
    } else if b == 0b010100_00 {
        Some(Instruction::BitOrB)
    } else if b == 0b010100_01 {
        Some(Instruction::BitOr)
    } else if b == 0b010101_00 {
        Some(Instruction::BitXorB)
    } else if b == 0b010101_01 {
        Some(Instruction::BitXor)
    } else {
        None
    }
}

/// All instructions of the catalog, in declaration order.
pub open spec fn all_variants_seq() -> Seq<Instruction> {
    seq![
        Instruction::Nop,
        Instruction::Move,
        Instruction::Jump,
        Instruction::RotateCW,
        Instruction::RotateCCW,
        Instruction::ClearA,
        Instruction::ClearB,
        Instruction::Goto,
        Instruction::GotoCondAGtB,
        Instruction::GotoCondEq,
        Instruction::SwapAB,
        Instruction::CopyATmp,
        Instruction::LoadTmpA,
        Instruction::LoadTmpB,
        Instruction::StoreHealthTmp,
        Instruction::StoreHungerTmp,
        Instruction::StoreWasteTmp,
        Instruction::StoreLOSCTmp,
        Instruction::UAdd,
        Instruction::IAdd,
        Instruction::BitAndB,
        Instruction::BitAnd,
        Instruction::BitOrB,
        Instruction::BitOr,
        Instruction::BitXorB,
        Instruction::BitXor,
    ]
}

impl Instruction {
    /// Encodes this instruction as its canonical byte.
    pub fn to_byte(self) -> (r: u8)
        ensures
            r == spec_to_byte(self),
    {
        match self {
            Instruction::Nop => 0b000000_00,
            Instruction::Move => 0b000001_00,
            Instruction::Jump => 0b000010_00,
            Instruction::RotateCW => 0b000011_00,
            Instruction::RotateCCW => 0b000100_00,
            Instruction::ClearA => 0b000101_00,
            Instruction::ClearB => 0b000110_00,
            Instruction::Goto => 0b000111_01,
            Instruction::GotoCondAGtB => 0b001000_01,
            Instruction::GotoCondEq => 0b001001_01,
            Instruction::SwapAB => 0b001010_00,
            Instruction::CopyATmp => 0b001011_00,
            Instruction::LoadTmpA => 0b001100_00,
            Instruction::LoadTmpB => 0b001101_00,
            Instruction::StoreHealthTmp => 0b001110_00,
            Instruction::StoreHungerTmp => 0b001111_00,
            Instruction::StoreWasteTmp => 0b010110_00,
            Instruction::StoreLOSCTmp => 0b010000_00,
            Instruction::UAdd => 0b010001_01,
            Instruction::IAdd => 0b010010_01,
            Instruction::BitAndB => 0b010011_00,
            Instruction::BitAnd => 0b010011_01,
            Instruction::BitOrB => 0b010100_00,
            Instruction::BitOr => 0b010100_01,
            Instruction::BitXorB => 0b010101_00,
            Instruction::BitXor => 0b010101_01,
        }
    }

    /// Decodes a byte into an instruction; unassigned byte values yield `None`.
    pub fn from_byte(b: u8) -> (r: Option<Instruction>)
        ensures
            r == spec_from_byte(b),
    {
        if b == 0b000000_00 {
            Some(Instruction::Nop)
        } else if b == 0b000001_00 {
            Some(Instruction::Move)
        } else if b == 0b000010_00 {
            Some(Instruction::Jump)
        } else if b == 0b000011_00 {
            Some(Instruction::RotateCW)
        } else if b == 0b000100_00 {
            Some(Instruction::RotateCCW)
        } else if b == 0b000101_00 {
            Some(Instruction::ClearA)
        } else if b == 0b000110_00 {
            Some(Instruction::ClearB)
        } else if b == 0b000111_01 {
            Some(Instruction::Goto)
        } else if b == 0b001000_01 {
            Some(Instruction::GotoCondAGtB)
        } else if b == 0b001001_01 {
            Some(Instruction::GotoCondEq)
        } else if b == 0b001010_00 {
            Some(Instruction::SwapAB)
        } else if b == 0b001011_00 {
            Some(Instruction::CopyATmp)
        } else if b == 0b001100_00 {
            Some(Instruction::LoadTmpA)
        } else if b == 0b001101_00 {
            Some(Instruction::LoadTmpB)
        } else if b == 0b001110_00 {
            Some(Instruction::StoreHealthTmp)
        } else if b == 0b001111_00 {
            Some(Instruction::StoreHungerTmp)
        } else if b == 0b010110_00 {
            Some(Instruction::StoreWasteTmp)
        } else if b == 0b010000_00 {
            Some(Instruction::StoreLOSCTmp)
        } else if b == 0b010001_01 {
            Some(Instruction::UAdd)
        } else if b == 0b010010_01 {
            Some(Instruction::IAdd)
        } else if b == 0b010011_00 {
            Some(Instruction::BitAndB)
        } else if b == 0b010011_01 {
            Some(Instruction::BitAnd)
        } else if b == 0b010100_00 {
            Some(Instruction::BitOrB)
        } else if b == 0b010100_01 {
            Some(Instruction::BitOr)
        } else if b == 0b010101_00 {
            Some(Instruction::BitXorB)
        } else if b == 0b010101_01 {
            Some(Instruction::BitXor)
        } else {
            None
        }
    }

    /// Every instruction of the catalog, in declaration order.
    pub fn all_variants() -> (r: Vec<Instruction>)
        ensures
            r@ == all_variants_seq(),
    {
        let mut v: Vec<Instruction> = Vec::new();
        v.push(Instruction::Nop);
        v.push(Instruction::Move);
        v.push(Instruction::Jump);
        v.push(Instruction::RotateCW);
        v.push(Instruction::RotateCCW);
        v.push(Instruction::ClearA);
        v.push(Instruction::ClearB);
        v.push(Instruction::Goto);
        v.push(Instruction::GotoCondAGtB);
        v.push(Instruction::GotoCondEq);
        v.push(Instruction::SwapAB);
        v.push(Instruction::CopyATmp);
        v.push(Instruction::LoadTmpA);
        v.push(Instruction::LoadTmpB);
        v.push(Instruction::StoreHealthTmp);
        v.push(Instruction::StoreHungerTmp);
        v.push(Instruction::StoreWasteTmp);
        v.push(Instruction::StoreLOSCTmp);
        v.push(Instruction::UAdd);
        v.push(Instruction::IAdd);
        v.push(Instruction::BitAndB);
        v.push(Instruction::BitAnd);
        v.push(Instruction::BitOrB);
        v.push(Instruction::BitOr);
        v.push(Instruction::BitXorB);
        v.push(Instruction::BitXor);
        proof {
            assert(v@ =~= all_variants_seq());
        }
        v
    }
}

impl crate::processor::Instruction for Instruction {
    open spec fn spec_args(self) -> usize {
        spec_arity(self) as usize
    }

    /// Returns the number of argument bytes that this instruction expects,
    /// read from the low two bits of its encoded byte.
    fn get_args(self) -> (r: usize) {
        proof {
            lemma_arity_consistency(self);
        }
        let inst = self.to_byte();
        (inst & ARG_BIT_MASK) as usize
    }
}

/// Round-trip law: every instruction decodes back from its own encoding.
pub proof fn lemma_round_trip(v: Instruction)
    ensures
        spec_from_byte(spec_to_byte(v)) == Some(v),
{
}

/// The other direction of the round trip: a byte that decodes to an
/// instruction is that instruction's canonical encoding, so the encoding is a
/// bijection over the valid byte subset.
pub proof fn lemma_from_byte_inverse(b: u8)
    requires
        spec_from_byte(b) is Some,
    ensures
        spec_to_byte(spec_from_byte(b)->Some_0) == b,
{
}

/// The encoding is injective: distinct instructions never share a byte.
pub proof fn lemma_to_byte_injective(v1: Instruction, v2: Instruction)
    requires
        spec_to_byte(v1) == spec_to_byte(v2),
    ensures
        v1 == v2,
{
    lemma_round_trip(v1);
    lemma_round_trip(v2);
}

/// Arity consistency law: the declared arity of every instruction equals the
/// low two bits of its encoded byte.
pub proof fn lemma_arity_consistency(v: Instruction)
    ensures
        spec_arity(v) == (spec_to_byte(v) & ARG_BIT_MASK),
{
    assert(0b000000_00u8 & 0b000000_11u8 == 0 && 0b000001_00u8 & 0b000000_11u8 == 0
        && 0b000010_00u8 & 0b000000_11u8 == 0 && 0b000011_00u8 & 0b000000_11u8 == 0
        && 0b000100_00u8 & 0b000000_11u8 == 0 && 0b000101_00u8 & 0b000000_11u8 == 0
        && 0b000110_00u8 & 0b000000_11u8 == 0 && 0b000111_01u8 & 0b000000_11u8 == 1
        && 0b001000_01u8 & 0b000000_11u8 == 1 && 0b001001_01u8 & 0b000000_11u8 == 1
        && 0b001010_00u8 & 0b000000_11u8 == 0 && 0b001011_00u8 & 0b000000_11u8 == 0
        && 0b001100_00u8 & 0b000000_11u8 == 0 && 0b001101_00u8 & 0b000000_11u8 == 0
        && 0b001110_00u8 & 0b000000_11u8 == 0 && 0b001111_00u8 & 0b000000_11u8 == 0
        && 0b010110_00u8 & 0b000000_11u8 == 0 && 0b010000_00u8 & 0b000000_11u8 == 0
        && 0b010001_01u8 & 0b000000_11u8 == 1 && 0b010010_01u8 & 0b000000_11u8 == 1
        && 0b010011_00u8 & 0b000000_11u8 == 0 && 0b010011_01u8 & 0b000000_11u8 == 1
        && 0b010100_00u8 & 0b000000_11u8 == 0 && 0b010100_01u8 & 0b000000_11u8 == 1
        && 0b010101_00u8 & 0b000000_11u8 == 0 && 0b010101_01u8 & 0b000000_11u8 == 1)
        by (bit_vector);
}

/// In the canonical catalog no instruction takes more than one argument byte.
pub proof fn lemma_arity_at_most_one(v: Instruction)
    ensures
        spec_arity(v) == 0 || spec_arity(v) == 1,
{
}

} // verus!
