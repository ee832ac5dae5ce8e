//! The directive catalogue: for each directive, the program that computes it,
//! stated as a spec sequence, and a builder that returns it.

use vstd::prelude::*;
use crate::opcodes::{BinaryFieldOp, BitSize, IntegerBitSize, MemoryAddress, Opcode};

verus! {

/// A complete program for one directive, with its name and the tables that
/// richer programs fill in (error types, source locations); both tables keep
/// the order of their entries and stay empty here.
#[derive(Clone, Debug)]
pub struct GeneratedArtifact {
    pub byte_code: Vec<Opcode>,
    pub name: String,
    pub error_types: Vec<(u64, String)>,
    pub locations: Vec<(usize, String)>,
}

/// The supported directives.
#[derive(Clone, Copy, Debug, PartialEq, Eq, Structural)]
pub enum Directive {
    /// One field element to its inverse, and zero to zero.
    Invert,
    /// Two field elements `a`, `b` to the quotient and remainder of `a` by `b`.
    Quotient,
}

/// Index of the instruction that halts the inversion program.
pub const INVERT_STOP_LOCATION: usize = 8;

/// The slot with index `i`.
pub open spec fn direct(i: usize) -> MemoryAddress {
    MemoryAddress(i)
}

/// The inversion program. Slot 0 holds the input and then the result; slots
/// 1, 2 and 3 hold the constants one and zero and the flag "input is zero";
/// slots 20 and 21 hold the calldata size and offset.
pub open spec fn invert_program() -> Seq<Opcode> {
    seq![
        Opcode::Const { destination: direct(20), bit_size: BitSize::Integer(IntegerBitSize::U32), value: 1 },
        Opcode::Const { destination: direct(21), bit_size: BitSize::Integer(IntegerBitSize::U32), value: 0 },
        Opcode::CalldataCopy { destination_address: direct(0), size_address: direct(20), offset_address: direct(21) },
        Opcode::Const { destination: direct(2), bit_size: BitSize::Field, value: 0 },
        Opcode::BinaryFieldOp { destination: direct(3), op: BinaryFieldOp::Equals, lhs: direct(0), rhs: direct(2) },
        Opcode::JumpIf { condition: direct(3), location: INVERT_STOP_LOCATION },
        Opcode::Const { destination: direct(1), bit_size: BitSize::Field, value: 1 },
        Opcode::BinaryFieldOp { destination: direct(0), op: BinaryFieldOp::Div, lhs: direct(1), rhs: direct(0) },
        Opcode::Stop { return_data_offset: 0, return_data_size: 1 },
    ]
}

/// The quotient program. Slots 0 and 1 hold `a` and `b`, slot 2 the
/// quotient; slots 10 and 11 hold the calldata size and offset. The remainder
/// overwrites `b` in slot 1 only after the quotient is known, and the quotient
/// overwrites `a` in slot 0 only after the remainder is, so the output is the
/// pair of slots 0 and 1.
pub open spec fn quotient_program() -> Seq<Opcode> {
    seq![
        Opcode::Const { destination: direct(10), bit_size: BitSize::Integer(IntegerBitSize::U32), value: 2 },
        Opcode::Const { destination: direct(11), bit_size: BitSize::Integer(IntegerBitSize::U32), value: 0 },
        Opcode::CalldataCopy { destination_address: direct(0), size_address: direct(10), offset_address: direct(11) },
        Opcode::BinaryFieldOp { destination: direct(2), op: BinaryFieldOp::IntegerDiv, lhs: direct(0), rhs: direct(1) },
        Opcode::BinaryFieldOp { destination: direct(1), op: BinaryFieldOp::Mul, lhs: direct(2), rhs: direct(1) },
        Opcode::BinaryFieldOp { destination: direct(1), op: BinaryFieldOp::Sub, lhs: direct(0), rhs: direct(1) },
        Opcode::Mov { destination: direct(0), source: direct(2) },
        Opcode::Stop { return_data_offset: 0, return_data_size: 2 },
    ]
}

impl Directive {
    /// The program of the directive.
    pub open spec fn program(self) -> Seq<Opcode> {
        match self {
            Directive::Invert => invert_program(),
            Directive::Quotient => quotient_program(),
        }
    }

    /// How many field elements the directive reads from calldata.
    pub open spec fn input_count(self) -> nat {
        match self {
            Directive::Invert => 1,
            Directive::Quotient => 2,
        }
    }

    /// How many field elements the directive returns.
    pub open spec fn output_count(self) -> nat {
        match self {
            Directive::Invert => 1,
            Directive::Quotient => 2,
        }
    }

    /// The stable name of the directive.
    pub open spec fn spec_name(self) -> Seq<char> {
        match self {
            Directive::Invert => "directive_invert"@,
            Directive::Quotient => "directive_integer_quotient"@,
        }
    }

    /// The artifact of the directive.
    pub fn artifact(self) -> (r: GeneratedArtifact)
        ensures
            r.byte_code@ == self.program(),
            r.name@ == self.spec_name(),
            r.error_types@.len() == 0,
            r.locations@.len() == 0,
    {
        match self {
            Directive::Invert => directive_invert(),
            Directive::Quotient => directive_quotient(),
        }
    }
}

/// The program that inverts a field element, and maps zero to zero.
pub fn directive_invert() -> (r: GeneratedArtifact)
    ensures
        r.byte_code@ == invert_program(),
        r.name@ == "directive_invert"@,
        r.error_types@.len() == 0,
        r.locations@.len() == 0,
{
    let input = MemoryAddress::direct(0);
    let one_const = MemoryAddress::direct(1);
    let zero_const = MemoryAddress::direct(2);
    let input_is_zero = MemoryAddress::direct(3);
    let size_address = MemoryAddress::direct(20);
    let offset_address = MemoryAddress::direct(21);
    let byte_code = vec![
        Opcode::Const { destination: size_address, bit_size: BitSize::Integer(IntegerBitSize::U32), value: 1 },
        Opcode::Const { destination: offset_address, bit_size: BitSize::Integer(IntegerBitSize::U32), value: 0 },
        Opcode::CalldataCopy { destination_address: input, size_address, offset_address },
        Opcode::Const { destination: zero_const, bit_size: BitSize::Field, value: 0 },
        Opcode::BinaryFieldOp { destination: input_is_zero, op: BinaryFieldOp::Equals, lhs: input, rhs: zero_const },
        // A zero input is already its own result: go straight to the stop.
        Opcode::JumpIf { condition: input_is_zero, location: INVERT_STOP_LOCATION },
        Opcode::Const { destination: one_const, bit_size: BitSize::Field, value: 1 },
        Opcode::BinaryFieldOp { destination: input, op: BinaryFieldOp::Div, lhs: one_const, rhs: input },
        Opcode::Stop { return_data_offset: 0, return_data_size: 1 },
    ];
    proof {
        assert(byte_code@ =~= invert_program());
    }
    GeneratedArtifact {
        byte_code,
        name: "directive_invert".to_string(),
        error_types: Vec::new(),
        locations: Vec::new(),
    }
}

/// The program that computes the integer quotient and remainder of two field
/// elements. It does not test the divisor for zero.
pub fn directive_quotient() -> (r: GeneratedArtifact)
    ensures
        r.byte_code@ == quotient_program(),
        r.name@ == "directive_integer_quotient"@,
        r.error_types@.len() == 0,
        r.locations@.len() == 0,
{
    let a = MemoryAddress::direct(0);
    let b = MemoryAddress::direct(1);
    let q = MemoryAddress::direct(2);
    let size_address = MemoryAddress::direct(10);
    let offset_address = MemoryAddress::direct(11);
    let byte_code = vec![
        Opcode::Const { destination: size_address, bit_size: BitSize::Integer(IntegerBitSize::U32), value: 2 },
        Opcode::Const { destination: offset_address, bit_size: BitSize::Integer(IntegerBitSize::U32), value: 0 },
        Opcode::CalldataCopy { destination_address: a, size_address, offset_address },
        // Integer division, not field division.
        Opcode::BinaryFieldOp { destination: q, op: BinaryFieldOp::IntegerDiv, lhs: a, rhs: b },
        Opcode::BinaryFieldOp { destination: b, op: BinaryFieldOp::Mul, lhs: q, rhs: b },
        Opcode::BinaryFieldOp { destination: b, op: BinaryFieldOp::Sub, lhs: a, rhs: b },
        Opcode::Mov { destination: a, source: q },
        Opcode::Stop { return_data_offset: 0, return_data_size: 2 },
    ];
    proof {
        assert(byte_code@ =~= quotient_program());
    }
    GeneratedArtifact {
        byte_code,
        name: "directive_integer_quotient".to_string(),
        error_types: Vec::new(),
        locations: Vec::new(),
    }
}

} // verus!
