//! What the directive programs compute, proved over the machine semantics.

use vstd::prelude::*;
use crate::dataflow::{reads_only_written, slot_range, written_before_read};
use crate::directives::{invert_program, quotient_program, Directive, GeneratedArtifact};
use crate::opcodes::Opcode;
use vstd::arithmetic::div_mod::{lemma_fundamental_div_mod, lemma_mod_bound, lemma_small_mod};
use vstd::arithmetic::power2::{lemma2_to64, pow2};
use crate::semantics::{
    copy_calldata, execute, field_inverse, has_inverse, initial_state, is_field_modulus, run, step,
    Outcome, State, Step,
};

verus! {

/// Memory of the inversion program once the input `x` is copied in.
spec fn invert_loaded_memory(x: int) -> Map<nat, int> {
    Map::empty().insert(20nat, 1int).insert(21nat, 0int).insert(0nat, x)
}

/// The first three instructions of the inversion program load the input.
proof fn lemma_invert_prefix(x: int, p: int)
    requires
        p > 1,
    ensures
        step(invert_program(), seq![x], p, initial_state()) == Step::Next(
            State { pc: 1, mem: Map::empty().insert(20nat, 1int) },
        ),
        step(invert_program(), seq![x], p, State { pc: 1, mem: Map::empty().insert(20nat, 1int) })
            == Step::Next(State { pc: 2, mem: Map::empty().insert(20nat, 1int).insert(21nat, 0int) }),
        step(invert_program(), seq![x], p, State { pc: 2, mem: Map::empty().insert(20nat, 1int).insert(21nat, 0int) })
            == Step::Next(State { pc: 3, mem: invert_loaded_memory(x) }),
{
    lemma2_to64();
    let m = Map::empty().insert(20nat, 1int).insert(21nat, 0int);
    assert(copy_calldata(m, 0, seq![x], 0, 1) =~= invert_loaded_memory(x));
}

/// Run on a nonzero field element `x`, the inversion program halts with the
/// one value `y` such that `x * y` is 1 in the field.
pub proof fn invert_computes_inverse(x: int, p: int, fuel: nat)
    requires
        is_field_modulus(p),
        0 < x < p,
        fuel >= invert_program().len(),
    ensures
        field_inverse(x, p) is Some,
        execute(invert_program(), seq![x], p, fuel) == Outcome::Halted(seq![field_inverse(x, p)->0]),
        0 <= field_inverse(x, p)->0 < p,
        (x * field_inverse(x, p)->0) % p == 1,
{
    assert(has_inverse(x, p));
    let y = field_inverse(x, p)->0;
    let prog = invert_program();
    let cd = seq![x];
    let m = invert_loaded_memory(x);
    let m4 = m.insert(2, 0).insert(3, 0);
    let m6 = m4.insert(1, 1);
    let m7 = m6.insert(0, (1 * y) % p);
    lemma_invert_prefix(x, p);
    lemma_small_mod(1, p as nat);
    lemma_small_mod(x as nat, p as nat);
    lemma_small_mod(y as nat, p as nat);
    assert(step(prog, cd, p, State { pc: 3, mem: m }) == Step::Next(State { pc: 4, mem: m.insert(2, 0) }));
    assert(step(prog, cd, p, State { pc: 4, mem: m.insert(2, 0) }) == Step::Next(State { pc: 5, mem: m4 }));
    assert(step(prog, cd, p, State { pc: 5, mem: m4 }) == Step::Next(State { pc: 6, mem: m4 }));
    assert(step(prog, cd, p, State { pc: 6, mem: m4 }) == Step::Next(State { pc: 7, mem: m6 }));
    assert(step(prog, cd, p, State { pc: 7, mem: m6 }) == Step::Next(State { pc: 8, mem: m7 }));
    assert((1 * y) % p == y);
    assert(step(prog, cd, p, State { pc: 8, mem: m7 }) == Step::Halt(seq![y])) by {
        assert(Seq::new(1, |i: int| m7[(0 + i) as nat]) =~= seq![y]);
    }
    reveal_with_fuel(run, 10);
}

/// Run on zero, the inversion program halts with zero.
pub proof fn invert_maps_zero_to_zero(p: int, fuel: nat)
    requires
        is_field_modulus(p),
        fuel >= invert_program().len(),
    ensures
        execute(invert_program(), seq![0int], p, fuel) == Outcome::Halted(seq![0int]),
{
    let prog = invert_program();
    let cd = seq![0int];
    let m = invert_loaded_memory(0);
    let m4 = m.insert(2, 0).insert(3, 1);
    lemma_invert_prefix(0, p);
    assert(step(prog, cd, p, State { pc: 3, mem: m }) == Step::Next(State { pc: 4, mem: m.insert(2, 0) }));
    assert(step(prog, cd, p, State { pc: 4, mem: m.insert(2, 0) }) == Step::Next(State { pc: 5, mem: m4 }));
    assert(step(prog, cd, p, State { pc: 5, mem: m4 }) == Step::Next(State { pc: 8, mem: m4 }));
    assert(step(prog, cd, p, State { pc: 8, mem: m4 }) == Step::Halt(seq![0int])) by {
        assert(Seq::new(1, |i: int| m4[(0 + i) as nat]) =~= seq![0int]);
    }
    reveal_with_fuel(run, 10);
}

/// Run on field elements `a` and `b` with `b` nonzero, the quotient program
/// halts with the integer quotient `q` and remainder `r` of `a` by `b`:
/// `a == q * b + r` with `0 <= r < b`.
pub proof fn quotient_computes_division(a: int, b: int, p: int, fuel: nat)
    requires
        p > 1,
        0 <= a < p,
        0 < b < p,
        fuel >= quotient_program().len(),
    ensures
        execute(quotient_program(), seq![a, b], p, fuel) == Outcome::Halted(seq![a / b, a % b]),
        a == (a / b) * b + a % b,
        0 <= a % b < b,
{
    let prog = quotient_program();
    let cd = seq![a, b];
    let q = a / b;
    let r = a % b;
    lemma2_to64();
    lemma_fundamental_div_mod(a, b);
    lemma_mod_bound(a, b);
    assert(0 <= q * b <= a) by (nonlinear_arith)
        requires
            q == a / b,
            a == b * q + r,
            0 <= r,
            0 <= a,
            0 < b,
    ;
    lemma_small_mod((q * b) as nat, p as nat);
    lemma_small_mod(r as nat, p as nat);
    let m1 = Map::empty().insert(10nat, 2int);
    let m2 = m1.insert(11nat, 0int);
    let m3 = m2.insert(0nat, a).insert(1nat, b);
    let m4 = m3.insert(2nat, q);
    let m5 = m4.insert(1nat, q * b);
    let m6 = m5.insert(1nat, r);
    let m7 = m6.insert(0nat, q);
    assert(copy_calldata(m2, 0, cd, 0, 2) =~= m3);
    assert(step(prog, cd, p, initial_state()) == Step::Next(State { pc: 1, mem: m1 }));
    assert(step(prog, cd, p, State { pc: 1, mem: m1 }) == Step::Next(State { pc: 2, mem: m2 }));
    assert(step(prog, cd, p, State { pc: 2, mem: m2 }) == Step::Next(State { pc: 3, mem: m3 }));
    assert(step(prog, cd, p, State { pc: 3, mem: m3 }) == Step::Next(State { pc: 4, mem: m4 }));
    assert(step(prog, cd, p, State { pc: 4, mem: m4 }) == Step::Next(State { pc: 5, mem: m5 }));
    assert(step(prog, cd, p, State { pc: 5, mem: m5 }) == Step::Next(State { pc: 6, mem: m6 }));
    assert(step(prog, cd, p, State { pc: 6, mem: m6 }) == Step::Next(State { pc: 7, mem: m7 }));
    assert(step(prog, cd, p, State { pc: 7, mem: m7 }) == Step::Halt(seq![q, r])) by {
        assert(Seq::new(2, |i: int| m7[(0 + i) as nat]) =~= seq![q, r]);
    }
    reveal_with_fuel(run, 10);
}

/// The quotient program does not guard its divisor: run on a zero divisor it
/// reaches the integer division and faults there.
pub proof fn quotient_faults_on_zero_divisor(a: int, p: int, fuel: nat)
    requires
        p > 1,
        0 <= a < p,
        fuel >= quotient_program().len(),
    ensures
        execute(quotient_program(), seq![a, 0int], p, fuel) == Outcome::Faulted,
{
    let prog = quotient_program();
    let cd = seq![a, 0int];
    lemma2_to64();
    lemma_small_mod(2, pow2(32));
    lemma_small_mod(0, pow2(32));
    let m1 = Map::empty().insert(10nat, 2int);
    let m2 = m1.insert(11nat, 0int);
    let m3 = m2.insert(0nat, a).insert(1nat, 0int);
    assert(copy_calldata(m2, 0, cd, 0, 2) =~= m3);
    assert(step(prog, cd, p, initial_state()) == Step::Next(State { pc: 1, mem: m1 }));
    assert(step(prog, cd, p, State { pc: 1, mem: m1 }) == Step::Next(State { pc: 2, mem: m2 }));
    assert(step(prog, cd, p, State { pc: 2, mem: m2 }) == Step::Next(State { pc: 3, mem: m3 }));
    assert(step(prog, cd, p, State { pc: 3, mem: m3 }) == Step::Fault);
    reveal_with_fuel(run, 5);
}

/// Both directive programs write every slot before they read it, on every
/// control-flow path (two for inversion, one for the quotient), and stop with
/// their output slots written.
pub proof fn directives_read_only_written_slots()
    ensures
        reads_only_written(invert_program()),
        reads_only_written(quotient_program()),
{
    lemma_invert_written_before_read();
    lemma_quotient_written_before_read();
}

proof fn lemma_invert_written_before_read()
    ensures
        reads_only_written(invert_program()),
{
    lemma2_to64();
    let prog = invert_program();
    let w1 = Set::<nat>::empty().insert(20nat);
    let s1 = Map::<nat, int>::empty().insert(20nat, 1int % pow2(32) as int);
    let w2 = w1.insert(21nat);
    let s2 = s1.insert(21nat, 0int % pow2(32) as int);
    let w3 = w2.union(slot_range(0nat, s2[20nat]));
    let s3 = s2.remove_keys(slot_range(0nat, s2[20nat]));
    let w4 = w3.insert(2nat);
    let s4 = s3.remove(2nat);
    let w5 = w4.insert(3nat);
    let s5 = s4.remove(3nat);
    let w7 = w5.insert(1nat);
    let s7 = s5.remove(1nat);
    let w8 = w7.insert(0nat);
    let s8 = s7.remove(0nat);
    assert(w3.contains(0nat));
    assert(written_before_read(prog, 8, w8, s8, 1));
    assert(written_before_read(prog, 7, w7, s7, 2));
    assert(written_before_read(prog, 6, w5, s5, 3));
    assert(written_before_read(prog, 8, w5, s5, 3));
    assert(written_before_read(prog, 5, w5, s5, 4));
    assert(written_before_read(prog, 4, w4, s4, 5));
    assert(written_before_read(prog, 3, w3, s3, 6));
    assert(written_before_read(prog, 2, w2, s2, 7));
    assert(written_before_read(prog, 1, w1, s1, 8));
    assert(written_before_read(prog, 0, Set::empty(), Map::empty(), 9));
}

proof fn lemma_quotient_written_before_read()
    ensures
        reads_only_written(quotient_program()),
{
    lemma2_to64();
    let prog = quotient_program();
    let w1 = Set::<nat>::empty().insert(10nat);
    let s1 = Map::<nat, int>::empty().insert(10nat, 2int % pow2(32) as int);
    let w2 = w1.insert(11nat);
    let s2 = s1.insert(11nat, 0int % pow2(32) as int);
    let w3 = w2.union(slot_range(0nat, s2[10nat]));
    let s3 = s2.remove_keys(slot_range(0nat, s2[10nat]));
    let w4 = w3.insert(2nat);
    let s4 = s3.remove(2nat);
    let w5 = w4.insert(1nat);
    let s5 = s4.remove(1nat);
    let w6 = w5.insert(1nat);
    let s6 = s5.remove(1nat);
    let s7 = if s6.contains_key(2nat) { s6.insert(0nat, s6[2nat]) } else { s6.remove(0nat) };
    let w7 = w6.insert(0nat);
    assert(w3.contains(0nat) && w3.contains(1nat));
    assert(written_before_read(prog, 7, w7, s7, 1));
    assert(written_before_read(prog, 6, w6, s6, 2));
    assert(written_before_read(prog, 5, w5, s5, 3));
    assert(written_before_read(prog, 4, w4, s4, 4));
    assert(written_before_read(prog, 3, w3, s3, 5));
    assert(written_before_read(prog, 2, w2, s2, 6));
    assert(written_before_read(prog, 1, w1, s1, 7));
    assert(written_before_read(prog, 0, Set::empty(), Map::empty(), 8));
}

/// Two artifacts built for the same directive hold the same instructions and
/// the same name.
pub proof fn artifacts_of_a_directive_agree(d: Directive, first: GeneratedArtifact, second: GeneratedArtifact)
    requires
        first.byte_code@ == d.program(),
        first.name@ == d.spec_name(),
        second.byte_code@ == d.program(),
        second.name@ == d.spec_name(),
    ensures
        first.byte_code@ == second.byte_code@,
        first.name@ == second.name@,
{
}

/// Each directive program has one `Stop`, its last instruction, and it
/// declares the output to be the slots from 0 on, as many as the directive
/// returns. Those are the slots that hold the results when the program halts:
/// the output that `invert_computes_inverse`, `invert_maps_zero_to_zero` and
/// `quotient_computes_division` give is read from them.
pub proof fn stop_covers_the_results(d: Directive)
    ensures
        d.program().len() > 0,
        d.program().last() == (Opcode::Stop { return_data_offset: 0, return_data_size: d.output_count() as usize }),
        forall|i: int| 0 <= i < d.program().len() - 1 ==> !(#[trigger] d.program()[i] is Stop),
{
}

/// 7 is the modulus of a field: each nonzero residue has an inverse.
pub proof fn seven_is_a_field_modulus()
    ensures
        is_field_modulus(7),
{
    assert forall|x: int| 0 < x < 7 implies #[trigger] has_inverse(x, 7) by {
        let y: int = if x == 1 { 1 } else if x == 2 { 4 } else if x == 3 { 5 } else if x == 4 { 2 } else if x
            == 5 { 3 } else { 6 };
        assert((x * y) % 7 == 1);
    }
}

/// Over the field of modulus 7, inverting 5 gives 3 (5 * 3 = 15 = 2 * 7 + 1),
/// and inverting 0 gives 0.
pub proof fn invert_examples_modulo_seven(fuel: nat)
    requires
        fuel >= invert_program().len(),
    ensures
        execute(invert_program(), seq![5int], 7, fuel) == Outcome::Halted(seq![3int]),
        execute(invert_program(), seq![0int], 7, fuel) == Outcome::Halted(seq![0int]),
{
    seven_is_a_field_modulus();
    invert_computes_inverse(5, 7, fuel);
    invert_maps_zero_to_zero(7, fuel);
    let y = field_inverse(5, 7)->0;
    assert(y == 0 || y == 1 || y == 2 || y == 3 || y == 4 || y == 5 || y == 6);
    assert(y == 3);
}

/// The quotient program gives 17 = 3 * 5 + 2, and 0 = 0 * 5 + 0, over any
/// field whose modulus is above 17.
pub proof fn quotient_examples(p: int, fuel: nat)
    requires
        p > 17,
        fuel >= quotient_program().len(),
    ensures
        execute(quotient_program(), seq![17int, 5int], p, fuel) == Outcome::Halted(seq![3int, 2int]),
        execute(quotient_program(), seq![0int, 5int], p, fuel) == Outcome::Halted(seq![0int, 0int]),
{
    quotient_computes_division(17, 5, p, fuel);
    quotient_computes_division(0, 5, p, fuel);
}

} // verus!
