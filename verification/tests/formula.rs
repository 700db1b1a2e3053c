use z_audio_dsp::formula::{
    builtin_opcodes, noise_hash_mix, validate_stack_depth, FormulaOpcode as Op, FormulaProgramId,
    FormulaStack, FORMULA_STACK_SIZE,
};

const ALL_PROGRAMS: [FormulaProgramId; 6] = [
    FormulaProgramId::PurePhase,
    FormulaProgramId::BrightFold,
    FormulaProgramId::FmBell,
    FormulaProgramId::AdditiveOdd,
    FormulaProgramId::PdSyncish,
    FormulaProgramId::ChaoticSoft,
];

#[test]
fn builtins_have_valid_stack_depth() {
    for id in ALL_PROGRAMS {
        let ops = builtin_opcodes(id);
        validate_stack_depth(&ops).expect("builtin program must be stack safe");
    }
}

#[test]
fn builtin_stack_depths_are_exact() {
    let expected = [1usize, 4, 5, 4, 4, 3];
    for (id, depth) in ALL_PROGRAMS.into_iter().zip(expected) {
        let ops = builtin_opcodes(id);
        assert_eq!(validate_stack_depth(&ops), Ok(depth), "{id:?}");
    }
}

#[test]
fn builtin_program_lengths_match_their_definitions() {
    let lens: Vec<usize> = ALL_PROGRAMS.iter().map(|&id| builtin_opcodes(id).len()).collect();
    assert_eq!(lens, vec![2, 16, 16, 29, 19, 11]);
    assert_eq!(builtin_opcodes(FormulaProgramId::PurePhase), vec![Op::Phase, Op::Sin2Pi]);
    let fm = builtin_opcodes(FormulaProgramId::FmBell);
    assert_eq!(fm[2], Op::Const(2.71_f32.to_bits()));
    assert_eq!(fm[9], Op::Const((-4.5_f32).to_bits()));
}

#[test]
fn underflow_is_reported() {
    assert_eq!(validate_stack_depth(&[Op::Add]), Err("formula stack underflow"));
    assert_eq!(
        validate_stack_depth(&[Op::Phase, Op::Mix]),
        Err("formula stack underflow")
    );
    assert_eq!(validate_stack_depth(&[Op::Sin2Pi]), Err("formula stack underflow"));
}

#[test]
fn overflow_is_reported() {
    let ops = vec![Op::Phase; FORMULA_STACK_SIZE + 1];
    assert_eq!(validate_stack_depth(&ops), Err("formula stack overflow"));
    let ops = vec![Op::Phase; FORMULA_STACK_SIZE];
    assert_eq!(
        validate_stack_depth(&ops),
        Err("formula must leave exactly one output value")
    );
}

#[test]
fn first_failure_decides_the_error() {
    // Overflow happens before the later underflow.
    let mut ops = vec![Op::Velocity; FORMULA_STACK_SIZE + 1];
    ops.push(Op::Add);
    assert_eq!(validate_stack_depth(&ops), Err("formula stack overflow"));
    // Underflow happens before any overflow.
    let mut ops = vec![Op::Neg];
    ops.extend(vec![Op::Phase; FORMULA_STACK_SIZE + 1]);
    assert_eq!(validate_stack_depth(&ops), Err("formula stack underflow"));
}

#[test]
fn program_must_leave_exactly_one_value() {
    assert_eq!(
        validate_stack_depth(&[]),
        Err("formula must leave exactly one output value")
    );
    assert_eq!(
        validate_stack_depth(&[Op::Phase, Op::TimeSec]),
        Err("formula must leave exactly one output value")
    );
    assert_eq!(
        validate_stack_depth(&[Op::Phase, Op::TimeSec, Op::Macro(3), Op::Mix]),
        Ok(3)
    );
}

#[test]
fn full_stack_is_accepted() {
    let mut ops = vec![Op::Const(0); FORMULA_STACK_SIZE];
    ops.extend(vec![Op::Max; FORMULA_STACK_SIZE - 1]);
    assert_eq!(validate_stack_depth(&ops), Ok(FORMULA_STACK_SIZE));
}

#[test]
fn noise_hash_is_deterministic() {
    assert_eq!(
        noise_hash_mix(123.0_f32.to_bits()),
        noise_hash_mix(123.0_f32.to_bits())
    );
    assert_ne!(
        noise_hash_mix(123.0_f32.to_bits()),
        noise_hash_mix(124.0_f32.to_bits())
    );
}

#[test]
fn noise_hash_matches_reference_mixing() {
    let x = 0x1234_5678_u32;
    let mut n = x.wrapping_mul(0x27d4_eb2d);
    n ^= n >> 15;
    n = n.wrapping_mul(0x85eb_ca6b);
    n ^= n >> 13;
    assert_eq!(noise_hash_mix(x), n);
    assert_eq!(noise_hash_mix(0), 0);
}

#[test]
fn formula_stack_saturates_instead_of_failing() {
    let mut st = FormulaStack::new();
    assert_eq!(st.len(), 0);
    assert_eq!(st.pop(), 0);
    assert_eq!(st.top(), None);
    st.set_top(5);
    assert_eq!(st.len(), 0);
    for i in 0..(FORMULA_STACK_SIZE as u32 + 3) {
        st.push(i);
    }
    assert_eq!(st.len(), FORMULA_STACK_SIZE);
    assert_eq!(st.top(), Some(FORMULA_STACK_SIZE as u32 - 1));
    st.set_top(99);
    assert_eq!(st.pop(), 99);
    assert_eq!(st.pop(), FORMULA_STACK_SIZE as u32 - 2);
    st.clear();
    assert_eq!(st.len(), 0);
}

fn pops(op: Op) -> usize {
    match op {
        Op::Const(_) | Op::Phase | Op::TimeSec | Op::FrequencyHz | Op::MidiNote | Op::Velocity
        | Op::Macro(_) => 0,
        Op::Add | Op::Sub | Op::Mul | Op::DivSafe | Op::PowSafe | Op::Min | Op::Max => 2,
        Op::Mix => 3,
        _ => 1,
    }
}

#[test]
fn builtins_run_on_the_vm_stack_without_saturating() {
    for id in ALL_PROGRAMS {
        let mut st = FormulaStack::new();
        for (k, op) in builtin_opcodes(id).into_iter().enumerate() {
            let n = pops(op);
            assert!(st.len() >= n, "{id:?}: instruction {k} finds too few operands");
            if n == 1 {
                let top = st.top().expect("operand present");
                st.set_top(top.wrapping_add(1));
            } else {
                for _ in 0..n {
                    st.pop();
                }
                assert!(st.len() < FORMULA_STACK_SIZE, "{id:?}: push at {k} would be dropped");
                st.push(k as u32);
            }
        }
        assert_eq!(st.len(), 1, "{id:?}");
    }
}
