//! The instruction model: the handful of register-machine instructions that
//! the directives are written in.

use vstd::prelude::*;

verus! {

/// A slot of the machine's flat memory, addressed directly.
#[derive(Clone, Copy, Debug, PartialEq, Eq, Structural)]
pub struct MemoryAddress(pub usize);

impl MemoryAddress {
    /// The slot with the given index.
    pub fn direct(index: usize) -> (r: MemoryAddress)
        ensures
            r.0 == index,
    {
        MemoryAddress(index)
    }

    /// The index of the slot, as a mathematical integer.
    pub open spec fn index(self) -> nat {
        self.0 as nat
    }
}

/// Widths of the fixed-width unsigned integers used for sizes and offsets.
#[derive(Clone, Copy, Debug, PartialEq, Eq, Structural)]
pub enum IntegerBitSize {
    U1,
    U8,
    U16,
    U32,
    U64,
    U128,
}

impl IntegerBitSize {
    /// The number of bits of the width.
    pub open spec fn bits(self) -> nat {
        match self {
            IntegerBitSize::U1 => 1,
            IntegerBitSize::U8 => 8,
            IntegerBitSize::U16 => 16,
            IntegerBitSize::U32 => 32,
            IntegerBitSize::U64 => 64,
            IntegerBitSize::U128 => 128,
        }
    }
}

/// The domain of a value: a field element, or a fixed-width unsigned integer.
#[derive(Clone, Copy, Debug, PartialEq, Eq, Structural)]
pub enum BitSize {
    Field,
    Integer(IntegerBitSize),
}

/// Binary operators over field elements.
#[derive(Clone, Copy, Debug, PartialEq, Eq, Structural)]
pub enum BinaryFieldOp {
    /// Subtraction in the field.
    Sub,
    /// Multiplication in the field.
    Mul,
    /// Field division: `lhs` times the inverse of `rhs`.
    Div,
    /// Truncating division of the operands read as unsigned integers.
    IntegerDiv,
    /// 1 where the operands are equal, 0 where not.
    Equals,
}

/// One instruction of the machine.
#[derive(Clone, Copy, Debug, PartialEq, Eq, Structural)]
pub enum Opcode {
    /// Writes an immediate of the given domain into `destination`.
    Const { destination: MemoryAddress, bit_size: BitSize, value: u128 },
    /// Copies as many calldata values as the slot `size_address` holds,
    /// starting at the calldata index that `offset_address` holds, into the
    /// slots from `destination_address` on.
    CalldataCopy {
        destination_address: MemoryAddress,
        size_address: MemoryAddress,
        offset_address: MemoryAddress,
    },
    /// Applies `op` to the values at `lhs` and `rhs` and writes the result to
    /// `destination`; both operands are read before the write.
    BinaryFieldOp { destination: MemoryAddress, op: BinaryFieldOp, lhs: MemoryAddress, rhs: MemoryAddress },
    /// Continues at instruction `location` where the value at `condition` is
    /// nonzero, and at the next instruction where it is zero.
    JumpIf { condition: MemoryAddress, location: usize },
    /// Copies the value at `source` into `destination`.
    Mov { destination: MemoryAddress, source: MemoryAddress },
    /// Halts; the output is the `return_data_size` slots from
    /// `return_data_offset` on.
    Stop { return_data_offset: usize, return_data_size: usize },
}

} // verus!
