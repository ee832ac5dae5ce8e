use brillig_directives::directives::{directive_invert, directive_quotient, Directive, INVERT_STOP_LOCATION};
use brillig_directives::opcodes::{BinaryFieldOp, BitSize, IntegerBitSize, MemoryAddress, Opcode};

fn d(i: usize) -> MemoryAddress {
    MemoryAddress::direct(i)
}

#[test]
fn memory_address_direct_keeps_index() {
    assert_eq!(MemoryAddress::direct(21).0, 21);
    assert_eq!(d(0), MemoryAddress(0));
}

#[test]
fn invert_program_is_the_guarded_division() {
    let expected = vec![
        Opcode::Const { destination: d(20), bit_size: BitSize::Integer(IntegerBitSize::U32), value: 1 },
        Opcode::Const { destination: d(21), bit_size: BitSize::Integer(IntegerBitSize::U32), value: 0 },
        Opcode::CalldataCopy { destination_address: d(0), size_address: d(20), offset_address: d(21) },
        Opcode::Const { destination: d(2), bit_size: BitSize::Field, value: 0 },
        Opcode::BinaryFieldOp { destination: d(3), op: BinaryFieldOp::Equals, lhs: d(0), rhs: d(2) },
        Opcode::JumpIf { condition: d(3), location: 8 },
        Opcode::Const { destination: d(1), bit_size: BitSize::Field, value: 1 },
        Opcode::BinaryFieldOp { destination: d(0), op: BinaryFieldOp::Div, lhs: d(1), rhs: d(0) },
        Opcode::Stop { return_data_offset: 0, return_data_size: 1 },
    ];
    assert_eq!(directive_invert().byte_code, expected);
}

#[test]
fn invert_jump_targets_the_stop() {
    let code = directive_invert().byte_code;
    assert_eq!(INVERT_STOP_LOCATION, 8);
    assert!(matches!(code[5], Opcode::JumpIf { location: 8, .. }));
    assert!(matches!(code[INVERT_STOP_LOCATION], Opcode::Stop { return_data_offset: 0, return_data_size: 1 }));
}

#[test]
fn quotient_program_orders_writes_after_reads() {
    let expected = vec![
        Opcode::Const { destination: d(10), bit_size: BitSize::Integer(IntegerBitSize::U32), value: 2 },
        Opcode::Const { destination: d(11), bit_size: BitSize::Integer(IntegerBitSize::U32), value: 0 },
        Opcode::CalldataCopy { destination_address: d(0), size_address: d(10), offset_address: d(11) },
        Opcode::BinaryFieldOp { destination: d(2), op: BinaryFieldOp::IntegerDiv, lhs: d(0), rhs: d(1) },
        Opcode::BinaryFieldOp { destination: d(1), op: BinaryFieldOp::Mul, lhs: d(2), rhs: d(1) },
        Opcode::BinaryFieldOp { destination: d(1), op: BinaryFieldOp::Sub, lhs: d(0), rhs: d(1) },
        Opcode::Mov { destination: d(0), source: d(2) },
        Opcode::Stop { return_data_offset: 0, return_data_size: 2 },
    ];
    assert_eq!(directive_quotient().byte_code, expected);
}

#[test]
fn artifact_names_are_stable() {
    assert_eq!(directive_invert().name, "directive_invert");
    assert_eq!(directive_quotient().name, "directive_integer_quotient");
}

#[test]
fn artifact_tables_are_empty() {
    for a in [directive_invert(), directive_quotient()] {
        assert!(a.error_types.is_empty());
        assert!(a.locations.is_empty());
    }
}

#[test]
fn builders_are_deterministic() {
    let (a, b) = (directive_invert(), directive_invert());
    assert_eq!(a.byte_code, b.byte_code);
    assert_eq!(a.name, b.name);
    let (c, e) = (directive_quotient(), directive_quotient());
    assert_eq!(c.byte_code, e.byte_code);
    assert_eq!(c.name, e.name);
}

#[test]
fn catalogue_returns_each_builder_artifact() {
    let inv = Directive::Invert.artifact();
    assert_eq!(inv.byte_code, directive_invert().byte_code);
    assert_eq!(inv.name, "directive_invert");
    let quo = Directive::Quotient.artifact();
    assert_eq!(quo.byte_code, directive_quotient().byte_code);
    assert_eq!(quo.name, "directive_integer_quotient");
}

#[test]
fn stop_is_last_and_only() {
    for (a, size) in [(directive_invert(), 1), (directive_quotient(), 2)] {
        let code = &a.byte_code;
        let stops = code.iter().filter(|op| matches!(op, Opcode::Stop { .. })).count();
        assert_eq!(stops, 1);
        assert_eq!(code[code.len() - 1], Opcode::Stop { return_data_offset: 0, return_data_size: size });
    }
}
