//! A static account of which slots each instruction reads, and a check that on
//! every control-flow path a slot is written before it is read.

use vstd::prelude::*;
use vstd::arithmetic::power2::pow2;
use crate::opcodes::{BitSize, Opcode};

verus! {

/// The slots from `start` on, `len` of them.
pub open spec fn slot_range(start: nat, len: int) -> Set<nat> {
    Set::new(|i: nat| start <= i < start + len)
}

/// On every path from instruction `pc`, each slot is written before it is
/// read, and the path reaches a `Stop` whose output slots are all written,
/// within `fuel` instructions.
///
/// `written` holds the slots written so far on the path; `sizes` the
/// unsigned-integer constants that slots are known to hold, which fix how many
/// slots a calldata copy writes.
pub open spec fn written_before_read(
    prog: Seq<Opcode>,
    pc: int,
    written: Set<nat>,
    sizes: Map<nat, int>,
    fuel: nat,
) -> bool
    decreases fuel,
{
    if fuel == 0 || !(0 <= pc < prog.len()) {
        false
    } else {
        let f = (fuel - 1) as nat;
        match prog[pc] {
            Opcode::Const { destination, bit_size, value } => {
                let d = destination.index();
                let known = match bit_size {
                    BitSize::Integer(w) => sizes.insert(d, value as int % pow2(w.bits()) as int),
                    BitSize::Field => sizes.remove(d),
                };
                written_before_read(prog, pc + 1, written.insert(d), known, f)
            },
            Opcode::CalldataCopy { destination_address, size_address, offset_address } => {
                let copied = slot_range(destination_address.index(), sizes[size_address.index()]);
                &&& written.contains(size_address.index())
                &&& written.contains(offset_address.index())
                &&& sizes.contains_key(size_address.index())
                &&& written_before_read(prog, pc + 1, written.union(copied), sizes.remove_keys(copied), f)
            },
            Opcode::BinaryFieldOp { destination, op, lhs, rhs } => {
                &&& written.contains(lhs.index())
                &&& written.contains(rhs.index())
                &&& written_before_read(
                    prog,
                    pc + 1,
                    written.insert(destination.index()),
                    sizes.remove(destination.index()),
                    f,
                )
            },
            Opcode::JumpIf { condition, location } => {
                &&& written.contains(condition.index())
                &&& written_before_read(prog, location as int, written, sizes, f)
                &&& written_before_read(prog, pc + 1, written, sizes, f)
            },
            Opcode::Mov { destination, source } => {
                let known = if sizes.contains_key(source.index()) {
                    sizes.insert(destination.index(), sizes[source.index()])
                } else {
                    sizes.remove(destination.index())
                };
                &&& written.contains(source.index())
                &&& written_before_read(prog, pc + 1, written.insert(destination.index()), known, f)
            },
            Opcode::Stop { return_data_offset, return_data_size } => {
                slot_range(return_data_offset as nat, return_data_size as int).subset_of(written)
            },
        }
    }
}

/// A program that, on every path from its first instruction and within as
/// many steps as it has instructions, reads only slots written before and
/// stops with all of its output slots written.
pub open spec fn reads_only_written(prog: Seq<Opcode>) -> bool {
    written_before_read(prog, 0, Set::empty(), Map::empty(), prog.len())
}

} // verus!
