//! What a program computes: a step relation of the machine over the integers
//! modulo a field modulus `p`, and a run bounded by a number of steps.
//!
//! Memory maps slot indices to values; a slot that no instruction has written
//! holds nothing, and reading it is a fault. So a run that halts has read only
//! slots that it wrote before.

use vstd::prelude::*;
use vstd::arithmetic::power2::pow2;
use crate::opcodes::{BinaryFieldOp, BitSize, MemoryAddress, Opcode};

verus! {

/// `x` has a multiplicative inverse modulo `p`.
pub open spec fn has_inverse(x: int, p: int) -> bool {
    exists|y: int| 0 <= y < p && #[trigger] ((x * y) % p) == 1
}

/// `p` is the modulus of a field: above 1, and every nonzero residue has an
/// inverse.
pub open spec fn is_field_modulus(p: int) -> bool {
    &&& p > 1
    &&& forall|x: int| 0 < x < p ==> #[trigger] has_inverse(x, p)
}

/// An inverse of `x` modulo `p`, where one exists.
pub open spec fn field_inverse(x: int, p: int) -> Option<int> {
    if has_inverse(x, p) {
        Some(choose|y: int| 0 <= y < p && #[trigger] ((x * y) % p) == 1)
    } else {
        None
    }
}

/// The result of a binary field operator on `a` and `b`; `None` where the
/// operator is undefined (a zero divisor, or a divisor without inverse).
/// The machine faults there; the quotient directive does not guard against a
/// zero divisor, so on one it faults.
pub open spec fn eval_binary(op: BinaryFieldOp, a: int, b: int, p: int) -> Option<int> {
    match op {
        BinaryFieldOp::Sub => Some((a - b) % p),
        BinaryFieldOp::Mul => Some((a * b) % p),
        BinaryFieldOp::Div => if b % p == 0 {
            None
        } else {
            match field_inverse(b % p, p) {
                Some(y) => Some((a * y) % p),
                None => None,
            }
        },
        BinaryFieldOp::IntegerDiv => if b == 0 {
            None
        } else {
            Some(a / b)
        },
        BinaryFieldOp::Equals => Some(if a == b { 1int } else { 0int }),
    }
}

/// The value that a constant of the given domain stands for.
pub open spec fn const_value(bit_size: BitSize, value: u128, p: int) -> int {
    match bit_size {
        BitSize::Field => value as int % p,
        BitSize::Integer(w) => value as int % pow2(w.bits()) as int,
    }
}

/// The machine's state: the index of the next instruction, and memory.
pub struct State {
    pub pc: int,
    pub mem: Map<nat, int>,
}

/// The state a program starts in: at instruction 0, with empty memory.
pub open spec fn initial_state() -> State {
    State { pc: 0, mem: Map::empty() }
}

/// What one instruction does.
pub enum Step {
    /// Execution goes on in this state.
    Next(State),
    /// The program halted with this output.
    Halt(Seq<int>),
    /// The instruction faulted.
    Fault,
}

/// What a bounded run ends in.
pub enum Outcome {
    Halted(Seq<int>),
    Faulted,
    OutOfSteps,
}

/// The memory after `len` calldata values from `offset` on are copied to the
/// slots from `dest` on.
pub open spec fn copy_calldata(mem: Map<nat, int>, dest: nat, cd: Seq<int>, offset: int, len: int) -> Map<
    nat,
    int,
> {
    mem.union_prefer_right(
        Map::new(|i: nat| dest <= i < dest + len, |i: nat| cd[offset + i - dest]),
    )
}

/// The `size` values from slot `offset` on, where all of them were written.
pub open spec fn read_output(mem: Map<nat, int>, offset: nat, size: nat) -> Option<Seq<int>> {
    if forall|i: nat| offset <= i < offset + size ==> #[trigger] mem.contains_key(i) {
        Some(Seq::new(size, |i: int| mem[(offset + i) as nat]))
    } else {
        None
    }
}

/// One step of `prog` on calldata `cd` over the field of modulus `p`.
pub open spec fn step(prog: Seq<Opcode>, cd: Seq<int>, p: int, s: State) -> Step {
    if !(0 <= s.pc < prog.len()) {
        Step::Fault
    } else {
        let next = s.pc + 1;
        match prog[s.pc] {
            Opcode::Const { destination, bit_size, value } => Step::Next(
                State { pc: next, mem: s.mem.insert(destination.index(), const_value(bit_size, value, p)) },
            ),
            Opcode::CalldataCopy { destination_address, size_address, offset_address } => {
                if s.mem.contains_key(size_address.index()) && s.mem.contains_key(offset_address.index()) {
                    let len = s.mem[size_address.index()];
                    let offset = s.mem[offset_address.index()];
                    if 0 <= offset && 0 <= len && offset + len <= cd.len() {
                        Step::Next(
                            State {
                                pc: next,
                                mem: copy_calldata(s.mem, destination_address.index(), cd, offset, len),
                            },
                        )
                    } else {
                        Step::Fault
                    }
                } else {
                    Step::Fault
                }
            },
            Opcode::BinaryFieldOp { destination, op, lhs, rhs } => {
                if s.mem.contains_key(lhs.index()) && s.mem.contains_key(rhs.index()) {
                    match eval_binary(op, s.mem[lhs.index()], s.mem[rhs.index()], p) {
                        Some(v) => Step::Next(State { pc: next, mem: s.mem.insert(destination.index(), v) }),
                        None => Step::Fault,
                    }
                } else {
                    Step::Fault
                }
            },
            Opcode::JumpIf { condition, location } => {
                if s.mem.contains_key(condition.index()) {
                    if s.mem[condition.index()] != 0 {
                        Step::Next(State { pc: location as int, mem: s.mem })
                    } else {
                        Step::Next(State { pc: next, mem: s.mem })
                    }
                } else {
                    Step::Fault
                }
            },
            Opcode::Mov { destination, source } => {
                if s.mem.contains_key(source.index()) {
                    Step::Next(State { pc: next, mem: s.mem.insert(destination.index(), s.mem[source.index()]) })
                } else {
                    Step::Fault
                }
            },
            Opcode::Stop { return_data_offset, return_data_size } => {
                match read_output(s.mem, return_data_offset as nat, return_data_size as nat) {
                    Some(out) => Step::Halt(out),
                    None => Step::Fault,
                }
            },
        }
    }
}

/// Runs `prog` from state `s` for at most `fuel` steps.
pub open spec fn run(prog: Seq<Opcode>, cd: Seq<int>, p: int, s: State, fuel: nat) -> Outcome
    decreases fuel,
{
    if fuel == 0 {
        Outcome::OutOfSteps
    } else {
        match step(prog, cd, p, s) {
            Step::Next(t) => run(prog, cd, p, t, (fuel - 1) as nat),
            Step::Halt(out) => Outcome::Halted(out),
            Step::Fault => Outcome::Faulted,
        }
    }
}

/// Runs `prog` on calldata `cd` from the initial state for at most `fuel`
/// steps.
pub open spec fn execute(prog: Seq<Opcode>, cd: Seq<int>, p: int, fuel: nat) -> Outcome {
    run(prog, cd, p, initial_state(), fuel)
}

} // verus!
