//! Formula synthesis: the stack-VM instruction set, built-in program
//! identifiers and the static stack-depth check that every program must pass
//! before it is handed to the audio thread.

use vstd::prelude::*;

verus! {

/// Number of value slots in the formula VM's evaluation stack.
pub const FORMULA_STACK_SIZE: usize = 32;

/// Number of user-facing macro controls a formula program can read.
pub const FORMULA_MACRO_COUNT: usize = 8;

/// One instruction of the formula stack VM. `Const` carries the IEEE-754
/// bit pattern of its `f32` operand; `Macro` carries a macro slot index.
#[derive(Debug, Clone, Copy, PartialEq, Eq, Structural)]
pub enum FormulaOpcode {
    Const(u32),
    Phase,
    TimeSec,
    FrequencyHz,
    MidiNote,
    Velocity,
    Macro(u8),
    Add,
    Sub,
    Mul,
    DivSafe,
    Neg,
    Sin2Pi,
    Cos2Pi,
    TanH,
    Abs,
    Sign,
    Floor,
    Fract,
    PowSafe,
    Exp,
    LogSafe,
    SqrtSafe,
    Min,
    Max,
    Clamp01,
    Mix,
    Saw,
    Square,
    Triangle,
    NoiseHash,
    SmoothStep,
    SoftClip,
    WaveFold,
}

/// How many operands an instruction pops; every instruction then pushes
/// exactly one value.
pub open spec fn stack_pops(op: FormulaOpcode) -> int {
    match op {
        FormulaOpcode::Const(_) | FormulaOpcode::Phase | FormulaOpcode::TimeSec
        | FormulaOpcode::FrequencyHz | FormulaOpcode::MidiNote | FormulaOpcode::Velocity
        | FormulaOpcode::Macro(_) => 0,
        FormulaOpcode::Add | FormulaOpcode::Sub | FormulaOpcode::Mul | FormulaOpcode::DivSafe
        | FormulaOpcode::PowSafe | FormulaOpcode::Min | FormulaOpcode::Max => 2,
        FormulaOpcode::Mix => 3,
        _ => 1,
    }
}

/// Stack depth after running the first `n` instructions of `ops` from an
/// empty stack, each instruction popping `stack_pops` values and pushing one.
pub open spec fn depth_after(ops: Seq<FormulaOpcode>, n: int) -> int
    decreases n,
{
    if n <= 0 {
        0
    } else {
        depth_after(ops, n - 1) - stack_pops(ops[n - 1]) + 1
    }
}

/// Instruction `i` finds fewer operands on the stack than it pops.
pub open spec fn underflows_at(ops: Seq<FormulaOpcode>, i: int) -> bool {
    depth_after(ops, i) < stack_pops(ops[i])
}

/// Instruction `i` leaves more values on the stack than it can hold.
pub open spec fn overflows_at(ops: Seq<FormulaOpcode>, i: int) -> bool {
    depth_after(ops, i + 1) > FORMULA_STACK_SIZE
}

pub open spec fn fails_at(ops: Seq<FormulaOpcode>, i: int) -> bool {
    underflows_at(ops, i) || overflows_at(ops, i)
}

/// No instruction of `ops` underflows or overflows the stack.
pub open spec fn stack_safe(ops: Seq<FormulaOpcode>) -> bool {
    forall|i: int| 0 <= i < ops.len() ==> !fails_at(ops, i)
}

/// `i` is the first instruction of `ops` at which the stack discipline breaks.
pub open spec fn first_failure(ops: Seq<FormulaOpcode>, i: int) -> bool {
    &&& 0 <= i < ops.len()
    &&& fails_at(ops, i)
    &&& forall|j: int| 0 <= j < i ==> !fails_at(ops, j)
}

/// Greatest depth reached after any of the first `n` instructions (0 when none ran).
pub open spec fn max_depth_upto(ops: Seq<FormulaOpcode>, n: int) -> int
    decreases n,
{
    if n <= 0 {
        0
    } else {
        let prev = max_depth_upto(ops, n - 1);
        let d = depth_after(ops, n);
        if d > prev { d } else { prev }
    }
}

/// Checks that `opcodes` never underflows or overflows the VM stack and
/// leaves exactly one value, returning the greatest stack depth reached.
/// The first instruction that breaks the stack discipline decides which
/// error is reported.
pub fn validate_stack_depth(opcodes: &[FormulaOpcode]) -> (r: Result<usize, &'static str>)
    ensures
        r is Ok <==> (stack_safe(opcodes@) && depth_after(opcodes@, opcodes@.len() as int) == 1),
        r matches Ok(m) ==> m == max_depth_upto(opcodes@, opcodes@.len() as int),
        r matches Err(e) ==> {
            ||| exists|i: int| #[trigger] first_failure(opcodes@, i) && underflows_at(opcodes@, i)
                && e == "formula stack underflow"
            ||| exists|i: int| #[trigger] first_failure(opcodes@, i) && !underflows_at(opcodes@, i)
                && e == "formula stack overflow"
            ||| stack_safe(opcodes@) && depth_after(opcodes@, opcodes@.len() as int) != 1
                && e == "formula must leave exactly one output value"
        },
{
    let mut depth: isize = 0;
    let mut max_depth: isize = 0;
    let mut k: usize = 0;
    while k < opcodes.len()
        invariant
            0 <= k <= opcodes@.len(),
            forall|j: int| 0 <= j < k ==> !fails_at(opcodes@, j),
            depth == depth_after(opcodes@, k as int),
            max_depth == max_depth_upto(opcodes@, k as int),
            0 <= depth <= max_depth <= FORMULA_STACK_SIZE,
        decreases opcodes@.len() - k,
    {
        let op = &opcodes[k];
        let (pop, push): (isize, isize) = match op {
            FormulaOpcode::Const(_)
            | FormulaOpcode::Phase
            | FormulaOpcode::TimeSec
            | FormulaOpcode::FrequencyHz
            | FormulaOpcode::MidiNote
            | FormulaOpcode::Velocity
            | FormulaOpcode::Macro(_) => (0, 1),
            FormulaOpcode::Neg
            | FormulaOpcode::Sin2Pi
            | FormulaOpcode::Cos2Pi
            | FormulaOpcode::TanH
            | FormulaOpcode::Abs
            | FormulaOpcode::Sign
            | FormulaOpcode::Floor
            | FormulaOpcode::Fract
            | FormulaOpcode::Exp
            | FormulaOpcode::LogSafe
            | FormulaOpcode::SqrtSafe
            | FormulaOpcode::Clamp01
            | FormulaOpcode::Saw
            | FormulaOpcode::Square
            | FormulaOpcode::Triangle
            | FormulaOpcode::NoiseHash
            | FormulaOpcode::SmoothStep
            | FormulaOpcode::SoftClip
            | FormulaOpcode::WaveFold => (1, 1),
            FormulaOpcode::Add
            | FormulaOpcode::Sub
            | FormulaOpcode::Mul
            | FormulaOpcode::DivSafe
            | FormulaOpcode::PowSafe
            | FormulaOpcode::Min
            | FormulaOpcode::Max => (2, 1),
            FormulaOpcode::Mix => (3, 1),
        };
        assert(pop == stack_pops(opcodes@[k as int]) && push == 1);
        depth = depth - pop;
        if depth < 0 {
            assert(first_failure(opcodes@, k as int) && underflows_at(opcodes@, k as int));
            return Err("formula stack underflow");
        }
        depth = depth + push;
        if depth > max_depth {
            max_depth = depth;
        }
        if max_depth as usize > FORMULA_STACK_SIZE {
            assert(first_failure(opcodes@, k as int) && !underflows_at(opcodes@, k as int));
            return Err("formula stack overflow");
        }
        k = k + 1;
    }
    if depth != 1 {
        return Err("formula must leave exactly one output value");
    }
    Ok(max_depth as usize)
}


/// `ops` passes the stack check with greatest depth `depth`: this is exactly
/// when [`validate_stack_depth`] returns `Ok(depth)`.
pub open spec fn accepted_with_depth(ops: Seq<FormulaOpcode>, depth: int) -> bool {
    &&& stack_safe(ops)
    &&& depth_after(ops, ops.len() as int) == 1
    &&& max_depth_upto(ops, ops.len() as int) == depth
}

/// The operand count of every instruction. Inputs (constants, phase, time,
/// frequency, note, velocity, macros) take no operand: alone they form a
/// program of depth 1. `Add`, `Sub`, `Mul`, `DivSafe`, `PowSafe`, `Min` and
/// `Max` take two: after `Phase, Const(c)` they leave one value, depth 2.
/// `Mix` takes three: after three inputs it leaves one value, depth 3. Every
/// other instruction takes one: after `Phase` it leaves one value, depth 1.
/// And each of them, given one operand fewer than it takes, underflows.
pub proof fn lemma_instruction_operand_counts(c: u32, k: u8, op: FormulaOpcode)
    ensures
        (op == FormulaOpcode::Const(c) || op == FormulaOpcode::Phase || op == FormulaOpcode::TimeSec
            || op == FormulaOpcode::FrequencyHz || op == FormulaOpcode::MidiNote || op
            == FormulaOpcode::Velocity || op == FormulaOpcode::Macro(k)) ==> accepted_with_depth(
            seq![op],
            1,
        ),
        (op == FormulaOpcode::Add || op == FormulaOpcode::Sub || op == FormulaOpcode::Mul || op
            == FormulaOpcode::DivSafe || op == FormulaOpcode::PowSafe || op == FormulaOpcode::Min
            || op == FormulaOpcode::Max) ==> {
            &&& accepted_with_depth(seq![FormulaOpcode::Phase, FormulaOpcode::Const(c), op], 2)
            &&& underflows_at(seq![FormulaOpcode::Phase, op], 1)
        },
        op == FormulaOpcode::Mix ==> {
            &&& accepted_with_depth(
                seq![FormulaOpcode::Phase, FormulaOpcode::Const(c), FormulaOpcode::Macro(k), op],
                3,
            )
            &&& underflows_at(seq![FormulaOpcode::Phase, FormulaOpcode::Const(c), op], 2)
        },
        (op == FormulaOpcode::Neg || op == FormulaOpcode::Sin2Pi || op == FormulaOpcode::Cos2Pi
            || op == FormulaOpcode::TanH || op == FormulaOpcode::Abs || op == FormulaOpcode::Sign
            || op == FormulaOpcode::Floor || op == FormulaOpcode::Fract || op == FormulaOpcode::Exp
            || op == FormulaOpcode::LogSafe || op == FormulaOpcode::SqrtSafe || op
            == FormulaOpcode::Clamp01 || op == FormulaOpcode::Saw || op == FormulaOpcode::Square
            || op == FormulaOpcode::Triangle || op == FormulaOpcode::NoiseHash || op
            == FormulaOpcode::SmoothStep || op == FormulaOpcode::SoftClip || op
            == FormulaOpcode::WaveFold) ==> {
            &&& accepted_with_depth(seq![FormulaOpcode::Phase, op], 1)
            &&& underflows_at(seq![op], 0)
        },
{
    let p1 = seq![op];
    let p2 = seq![FormulaOpcode::Phase, op];
    let p3 = seq![FormulaOpcode::Phase, FormulaOpcode::Const(c), op];
    let p4 = seq![FormulaOpcode::Phase, FormulaOpcode::Const(c), FormulaOpcode::Macro(k), op];
    reveal_with_fuel(depth_after, 5);
    reveal_with_fuel(max_depth_upto, 5);
    assert(depth_after(p1, 1) == 1 - stack_pops(op));
    assert(depth_after(p2, 2) == 2 - stack_pops(op));
    assert(depth_after(p3, 3) == 3 - stack_pops(op));
    assert(depth_after(p4, 4) == 4 - stack_pops(op));
}

/// Integer mixing behind the VM's `NoiseHash` instruction: a multiply /
/// xor-shift hash of the operand's bit pattern.
pub open spec fn noise_hash_mix_spec(bits: u32) -> u32 {
    let a = ((bits as nat * 0x27d4_eb2d) % 0x1_0000_0000) as u32;
    let b = a ^ (a >> 15u32);
    let c = ((b as nat * 0x85eb_ca6b) % 0x1_0000_0000) as u32;
    c ^ (c >> 13u32)
}

/// Hashes the bit pattern of a `NoiseHash` operand; the VM scales the result
/// to `[-1.0, 1.0]`.
pub fn noise_hash_mix(bits: u32) -> (r: u32)
    ensures
        r == noise_hash_mix_spec(bits),
{
    let mut n = bits.wrapping_mul(0x27d4_eb2d);
    n = n ^ (n >> 15u32);
    n = n.wrapping_mul(0x85eb_ca6b);
    n = n ^ (n >> 13u32);
    n
}

/// The formula VM's evaluation stack: at most [`FORMULA_STACK_SIZE`]
/// values, stored as `f32` bit patterns. A push onto a full stack is
/// dropped and a pop from an empty stack yields the bit pattern of `0.0`,
/// so evaluation never fails even for a program that breaks the stack
/// discipline.
#[derive(Debug, Clone)]
pub struct FormulaStack {
    slots: Vec<u32>,
    sp: usize,
}

impl FormulaStack {
    /// Storage is fixed at full capacity and the stack pointer stays inside it.
    pub closed spec fn wf(&self) -> bool {
        &&& self.slots@.len() == FORMULA_STACK_SIZE
        &&& self.sp <= FORMULA_STACK_SIZE
    }

    /// The live values, bottom first.
    pub closed spec fn view(&self) -> Seq<u32> {
        self.slots@.take(self.sp as int)
    }

    /// Creates an empty stack with room for [`FORMULA_STACK_SIZE`] values.
    pub fn new() -> (r: Self)
        ensures
            r.wf(),
            r@ == Seq::<u32>::empty(),
    {
        let r = FormulaStack { slots: vec![0u32; FORMULA_STACK_SIZE], sp: 0 };
        assert(r@ =~= Seq::<u32>::empty());
        r
    }

    /// Drops every live value.
    pub fn clear(&mut self)
        requires
            old(self).wf(),
        ensures
            final(self).wf(),
            final(self)@ == Seq::<u32>::empty(),
    {
        self.sp = 0;
        assert(self@ =~= Seq::<u32>::empty());
    }

    /// Number of live values.
    pub fn len(&self) -> (r: usize)
        requires
            self.wf(),
        ensures
            r == self@.len(),
    {
        self.sp
    }

    /// Pushes `value`; a push onto a full stack is dropped.
    pub fn push(&mut self, value: u32)
        requires
            old(self).wf(),
        ensures
            final(self).wf(),
            final(self)@ == (if old(self)@.len() < FORMULA_STACK_SIZE {
                old(self)@.push(value)
            } else {
                old(self)@
            }),
    {
        if self.sp < FORMULA_STACK_SIZE {
            let ghost before = self@;
            self.slots.set(self.sp, value);
            self.sp = self.sp + 1;
            assert(self@ =~= before.push(value));
        }
    }

    /// Pops the top value; an empty stack yields 0 (the bit pattern of
    /// `0.0`) and stays empty.
    pub fn pop(&mut self) -> (r: u32)
        requires
            old(self).wf(),
        ensures
            final(self).wf(),
            old(self)@.len() == 0 ==> r == 0u32 && final(self)@ == old(self)@,
            old(self)@.len() > 0 ==> r == old(self)@.last() && final(self)@ == old(self)@.drop_last(),
    {
        if self.sp == 0 {
            0u32
        } else {
            let ghost before = self@;
            self.sp = self.sp - 1;
            assert(self@ =~= before.drop_last());
            self.slots[self.sp]
        }
    }

    /// The top value, if any.
    pub fn top(&self) -> (r: Option<u32>)
        requires
            self.wf(),
        ensures
            self@.len() == 0 ==> r is None,
            self@.len() > 0 ==> r == Some(self@.last()),
    {
        if self.sp == 0 {
            None
        } else {
            Some(self.slots[self.sp - 1])
        }
    }

    /// Replaces the top value (in-place unary instructions); no effect on an
    /// empty stack.
    pub fn set_top(&mut self, value: u32)
        requires
            old(self).wf(),
        ensures
            final(self).wf(),
            old(self)@.len() == 0 ==> final(self)@ == old(self)@,
            old(self)@.len() > 0 ==> final(self)@ == old(self)@.update(old(self)@.len() - 1, value),
    {
        if self.sp > 0 {
            let ghost before = self@;
            self.slots.set(self.sp - 1, value);
            assert(self@ =~= before.update(before.len() - 1, value));
        }
    }
}

/// Number of live values after the VM executes one instruction on a stack
/// holding `sp` values, with the runtime's saturating stack operations:
/// operands come from pops (an empty stack yields a default value), in-place
/// unary instructions need no pop, and the result is pushed unless the stack
/// is full.
pub open spec fn runtime_depth_step(sp: int, op: FormulaOpcode) -> int {
    let k = stack_pops(op);
    if k == 0 {
        if sp < FORMULA_STACK_SIZE { sp + 1 } else { sp }
    } else if k == 1 {
        sp
    } else {
        let after_pops = if sp >= k { sp - k } else { 0 };
        after_pops + 1
    }
}

/// Live values on the VM stack after running the first `n` instructions.
pub open spec fn runtime_depth(ops: Seq<FormulaOpcode>, n: int) -> int
    decreases n,
{
    if n <= 0 {
        0
    } else {
        runtime_depth_step(runtime_depth(ops, n - 1), ops[n - 1])
    }
}

/// For a program that passes [`validate_stack_depth`], the runtime stack
/// tracks the checked depth exactly: every instruction finds all its
/// operands, no push is dropped, and exactly one value is left as the
/// output.
pub proof fn lemma_validated_program_runs_without_saturation(ops: Seq<FormulaOpcode>, n: int)
    requires
        stack_safe(ops),
        0 <= n <= ops.len(),
    ensures
        runtime_depth(ops, n) == depth_after(ops, n),
        n < ops.len() ==> runtime_depth(ops, n) >= stack_pops(ops[n]),
        n < ops.len() ==> runtime_depth(ops, n) - stack_pops(ops[n]) < FORMULA_STACK_SIZE,
    decreases n,
{
    if n > 0 {
        lemma_validated_program_runs_without_saturation(ops, n - 1);
        assert(!fails_at(ops, n - 1));
    }
    if n < ops.len() {
        assert(!fails_at(ops, n));
    }
}

/// Identifies one of the built-in formula programs.
#[derive(Debug, Clone, Copy, PartialEq, Eq, Structural)]
pub enum FormulaProgramId {
    PurePhase,
    BrightFold,
    FmBell,
    AdditiveOdd,
    PdSyncish,
    ChaoticSoft,
}

impl FormulaProgramId {
    /// Number of valid `ParamId::FormulaProgram` automation values.
    pub const VARIANT_COUNT: u32 = 6;

    /// The automation index that encodes this program.
    pub open spec fn index_of(self) -> u32 {
        match self {
            FormulaProgramId::PurePhase => 0,
            FormulaProgramId::BrightFold => 1,
            FormulaProgramId::FmBell => 2,
            FormulaProgramId::AdditiveOdd => 3,
            FormulaProgramId::PdSyncish => 4,
            FormulaProgramId::ChaoticSoft => 5,
        }
    }

    /// Encodes this program as its automation index.
    pub fn param_index(self) -> (r: u32)
        ensures
            r == self.index_of(),
    {
        match self {
            FormulaProgramId::PurePhase => 0,
            FormulaProgramId::BrightFold => 1,
            FormulaProgramId::FmBell => 2,
            FormulaProgramId::AdditiveOdd => 3,
            FormulaProgramId::PdSyncish => 4,
            FormulaProgramId::ChaoticSoft => 5,
        }
    }

    /// Decodes an automation index, saturating at the last program.
    pub fn from_param_index(index: u32) -> (r: Self)
        ensures
            r.index_of() == (if index < Self::VARIANT_COUNT { index } else { (Self::VARIANT_COUNT - 1) as u32 }),
    {
        match index {
            0 => FormulaProgramId::PurePhase,
            1 => FormulaProgramId::BrightFold,
            2 => FormulaProgramId::FmBell,
            3 => FormulaProgramId::AdditiveOdd,
            4 => FormulaProgramId::PdSyncish,
            _ => FormulaProgramId::ChaoticSoft,
        }
    }
}

impl FormulaProgramId {
    /// Every value encodes to an index below `VARIANT_COUNT`, and no two
    /// values share an index, so decoding an encoded value gives it back.
    pub proof fn lemma_param_index_round_trip(self)
        ensures
            self.index_of() < Self::VARIANT_COUNT,
            forall|other: Self| #[trigger] other.index_of() == self.index_of() ==> other == self,
    {
    }
}

impl Default for FormulaProgramId {
    fn default() -> (r: Self)
        ensures
            r == FormulaProgramId::PurePhase,
    {
        FormulaProgramId::PurePhase
    }
}

/// Instruction list of each built-in program.
pub open spec fn builtin_ops(id: FormulaProgramId) -> Seq<FormulaOpcode> {
    match id {
        FormulaProgramId::PurePhase => seq![
            FormulaOpcode::Phase,
            FormulaOpcode::Sin2Pi,
        ],
        FormulaProgramId::BrightFold => seq![
            FormulaOpcode::Phase,
            FormulaOpcode::Phase,
            FormulaOpcode::Const(0x40000000),
            FormulaOpcode::Mul,
            FormulaOpcode::Sin2Pi,
            FormulaOpcode::Macro(0),
            FormulaOpcode::Mul,
            FormulaOpcode::Add,
            FormulaOpcode::Sin2Pi,
            FormulaOpcode::Const(0x3f800000),
            FormulaOpcode::Macro(1),
            FormulaOpcode::Const(0x41000000),
            FormulaOpcode::Mul,
            FormulaOpcode::Add,
            FormulaOpcode::Mul,
            FormulaOpcode::WaveFold,
        ],
        FormulaProgramId::FmBell => seq![
            FormulaOpcode::Phase,
            FormulaOpcode::Phase,
            FormulaOpcode::Const(0x402d70a4),
            FormulaOpcode::Mul,
            FormulaOpcode::Sin2Pi,
            FormulaOpcode::Macro(0),
            FormulaOpcode::Const(0x41000000),
            FormulaOpcode::Mul,
            FormulaOpcode::TimeSec,
            FormulaOpcode::Const(0xc0900000),
            FormulaOpcode::Mul,
            FormulaOpcode::Exp,
            FormulaOpcode::Mul,
            FormulaOpcode::Mul,
            FormulaOpcode::Add,
            FormulaOpcode::Sin2Pi,
        ],
        FormulaProgramId::AdditiveOdd => seq![
            FormulaOpcode::Phase,
            FormulaOpcode::Sin2Pi,
            FormulaOpcode::Phase,
            FormulaOpcode::Const(0x40400000),
            FormulaOpcode::Mul,
            FormulaOpcode::Sin2Pi,
            FormulaOpcode::Macro(0),
            FormulaOpcode::Const(0x3f0ccccd),
            FormulaOpcode::Mul,
            FormulaOpcode::Mul,
            FormulaOpcode::Add,
            FormulaOpcode::Phase,
            FormulaOpcode::Const(0x40a00000),
            FormulaOpcode::Mul,
            FormulaOpcode::Sin2Pi,
            FormulaOpcode::Macro(0),
            FormulaOpcode::Const(0x3ea3d70a),
            FormulaOpcode::Mul,
            FormulaOpcode::Mul,
            FormulaOpcode::Add,
            FormulaOpcode::Phase,
            FormulaOpcode::Const(0x40e00000),
            FormulaOpcode::Mul,
            FormulaOpcode::Sin2Pi,
            FormulaOpcode::Macro(1),
            FormulaOpcode::Const(0x3e3851ec),
            FormulaOpcode::Mul,
            FormulaOpcode::Mul,
            FormulaOpcode::Add,
        ],
        FormulaProgramId::PdSyncish => seq![
            FormulaOpcode::Phase,
            FormulaOpcode::Phase,
            FormulaOpcode::Const(0x3f000000),
            FormulaOpcode::Sub,
            FormulaOpcode::Macro(0),
            FormulaOpcode::Mul,
            FormulaOpcode::Sin2Pi,
            FormulaOpcode::Macro(0),
            FormulaOpcode::Const(0x3eb33333),
            FormulaOpcode::Mul,
            FormulaOpcode::Mul,
            FormulaOpcode::Add,
            FormulaOpcode::Const(0x3f800000),
            FormulaOpcode::Macro(1),
            FormulaOpcode::Const(0x41000000),
            FormulaOpcode::Mul,
            FormulaOpcode::Add,
            FormulaOpcode::Mul,
            FormulaOpcode::Sin2Pi,
        ],
        FormulaProgramId::ChaoticSoft => seq![
            FormulaOpcode::Phase,
            FormulaOpcode::Sin2Pi,
            FormulaOpcode::TimeSec,
            FormulaOpcode::Const(0x42fe0000),
            FormulaOpcode::Mul,
            FormulaOpcode::Floor,
            FormulaOpcode::NoiseHash,
            FormulaOpcode::Macro(0),
            FormulaOpcode::Mul,
            FormulaOpcode::Add,
            FormulaOpcode::TanH,
        ],
    }
}

/// Returns the instruction list of the built-in program `id`.
pub fn builtin_opcodes(id: FormulaProgramId) -> (r: Vec<FormulaOpcode>)
    ensures
        r@ == builtin_ops(id),
{
    match id {
        FormulaProgramId::PurePhase => vec![
            FormulaOpcode::Phase,
            FormulaOpcode::Sin2Pi,
        ],
        FormulaProgramId::BrightFold => vec![
            FormulaOpcode::Phase,
            FormulaOpcode::Phase,
            FormulaOpcode::Const(0x40000000),
            FormulaOpcode::Mul,
            FormulaOpcode::Sin2Pi,
            FormulaOpcode::Macro(0),
            FormulaOpcode::Mul,
            FormulaOpcode::Add,
            FormulaOpcode::Sin2Pi,
            FormulaOpcode::Const(0x3f800000),
            FormulaOpcode::Macro(1),
            FormulaOpcode::Const(0x41000000),
            FormulaOpcode::Mul,
            FormulaOpcode::Add,
            FormulaOpcode::Mul,
            FormulaOpcode::WaveFold,
        ],
        FormulaProgramId::FmBell => vec![
            FormulaOpcode::Phase,
            FormulaOpcode::Phase,
            FormulaOpcode::Const(0x402d70a4),
            FormulaOpcode::Mul,
            FormulaOpcode::Sin2Pi,
            FormulaOpcode::Macro(0),
            FormulaOpcode::Const(0x41000000),
            FormulaOpcode::Mul,
            FormulaOpcode::TimeSec,
            FormulaOpcode::Const(0xc0900000),
            FormulaOpcode::Mul,
            FormulaOpcode::Exp,
            FormulaOpcode::Mul,
            FormulaOpcode::Mul,
            FormulaOpcode::Add,
            FormulaOpcode::Sin2Pi,
        ],
        FormulaProgramId::AdditiveOdd => vec![
            FormulaOpcode::Phase,
            FormulaOpcode::Sin2Pi,
            FormulaOpcode::Phase,
            FormulaOpcode::Const(0x40400000),
            FormulaOpcode::Mul,
            FormulaOpcode::Sin2Pi,
            FormulaOpcode::Macro(0),
            FormulaOpcode::Const(0x3f0ccccd),
            FormulaOpcode::Mul,
            FormulaOpcode::Mul,
            FormulaOpcode::Add,
            FormulaOpcode::Phase,
            FormulaOpcode::Const(0x40a00000),
            FormulaOpcode::Mul,
            FormulaOpcode::Sin2Pi,
            FormulaOpcode::Macro(0),
            FormulaOpcode::Const(0x3ea3d70a),
            FormulaOpcode::Mul,
            FormulaOpcode::Mul,
            FormulaOpcode::Add,
            FormulaOpcode::Phase,
            FormulaOpcode::Const(0x40e00000),
            FormulaOpcode::Mul,
            FormulaOpcode::Sin2Pi,
            FormulaOpcode::Macro(1),
            FormulaOpcode::Const(0x3e3851ec),
            FormulaOpcode::Mul,
            FormulaOpcode::Mul,
            FormulaOpcode::Add,
        ],
        FormulaProgramId::PdSyncish => vec![
            FormulaOpcode::Phase,
            FormulaOpcode::Phase,
            FormulaOpcode::Const(0x3f000000),
            FormulaOpcode::Sub,
            FormulaOpcode::Macro(0),
            FormulaOpcode::Mul,
            FormulaOpcode::Sin2Pi,
            FormulaOpcode::Macro(0),
            FormulaOpcode::Const(0x3eb33333),
            FormulaOpcode::Mul,
            FormulaOpcode::Mul,
            FormulaOpcode::Add,
            FormulaOpcode::Const(0x3f800000),
            FormulaOpcode::Macro(1),
            FormulaOpcode::Const(0x41000000),
            FormulaOpcode::Mul,
            FormulaOpcode::Add,
            FormulaOpcode::Mul,
            FormulaOpcode::Sin2Pi,
        ],
        FormulaProgramId::ChaoticSoft => vec![
            FormulaOpcode::Phase,
            FormulaOpcode::Sin2Pi,
            FormulaOpcode::TimeSec,
            FormulaOpcode::Const(0x42fe0000),
            FormulaOpcode::Mul,
            FormulaOpcode::Floor,
            FormulaOpcode::NoiseHash,
            FormulaOpcode::Macro(0),
            FormulaOpcode::Mul,
            FormulaOpcode::Add,
            FormulaOpcode::TanH,
        ],
    }
}

/// Runs the stack-depth rules from instruction `i` with `depth` values
/// already on the stack, requiring exactly one value at the end.
pub open spec fn runs_cleanly_from(ops: Seq<FormulaOpcode>, i: int, depth: int) -> bool
    decreases ops.len() - i,
{
    if i >= ops.len() {
        depth == 1
    } else {
        let rest = depth - stack_pops(ops[i]);
        rest >= 0 && rest + 1 <= FORMULA_STACK_SIZE && runs_cleanly_from(ops, i + 1, rest + 1)
    }
}

proof fn lemma_runs_cleanly_from(ops: Seq<FormulaOpcode>, i: int)
    requires
        0 <= i <= ops.len(),
        forall|j: int| 0 <= j < i ==> !fails_at(ops, j),
        runs_cleanly_from(ops, i, depth_after(ops, i)),
    ensures
        stack_safe(ops),
        depth_after(ops, ops.len() as int) == 1,
    decreases ops.len() - i,
{
    if i < ops.len() {
        assert(depth_after(ops, i + 1) == depth_after(ops, i) - stack_pops(ops[i]) + 1);
        assert forall|j: int| 0 <= j < i + 1 implies !fails_at(ops, j) by {
            if j == i {
            }
        }
        lemma_runs_cleanly_from(ops, i + 1);
    }
}

/// A program that runs cleanly from an empty stack passes the stack check.
pub proof fn lemma_runs_cleanly_is_stack_safe(ops: Seq<FormulaOpcode>)
    requires
        runs_cleanly_from(ops, 0, 0),
    ensures
        stack_safe(ops),
        depth_after(ops, ops.len() as int) == 1,
{
    lemma_runs_cleanly_from(ops, 0);
}

/// Every built-in program keeps to the VM's stack discipline and leaves
/// exactly one output value, so `validate_stack_depth` accepts it.
pub proof fn lemma_builtin_programs_are_stack_safe(id: FormulaProgramId)
    ensures
        stack_safe(builtin_ops(id)),
        depth_after(builtin_ops(id), builtin_ops(id).len() as int) == 1,
{
    let ops = builtin_ops(id);
    reveal_with_fuel(runs_cleanly_from, 31);
    assert(runs_cleanly_from(ops, 0, 0));
    lemma_runs_cleanly_is_stack_safe(ops);
}

/// `2` to the power `n`.
pub open spec fn pow2_int(n: nat) -> int
    decreases n,
{
    if n == 0 {
        1
    } else {
        2 * pow2_int((n - 1) as nat)
    }
}

/// `bits` is an IEEE-754 single-precision bit pattern of a normal number of
/// magnitude below 2^24 that lies within half a unit in the last place of
/// the decimal `num / den` (with `den > 0`): the `f32` that the literal
/// `num / den` rounds to.
pub open spec fn f32_rounds(bits: u32, num: int, den: int) -> bool {
    let sign = bits >> 31u32;
    let exponent = (bits >> 23u32) & 0xffu32;
    let significand = 0x800000int + (bits & 0x7fffffu32) as int;
    let magnitude = if num < 0 { -num } else { num };
    &&& den > 0
    &&& 1 <= exponent <= 150
    &&& (sign == 1) == (num < 0)
    &&& -den <= 2 * significand * den - magnitude * pow2_int((151 - exponent) as nat) <= den
}

/// `op` is a constant whose operand is the `f32` that `num / den` rounds to.
pub open spec fn const_rounds(op: FormulaOpcode, num: int, den: int) -> bool {
    match op {
        FormulaOpcode::Const(bits) => f32_rounds(bits, num, den),
        _ => false,
    }
}

/// The constants of the built-in programs are the decimal values they are
/// written with: Bright Fold doubles the phase and scales its fold by 1 + 8
/// times macro 1; FM Bell uses the modulator ratio 2.71, index scale 8 and a
/// decay of -4.5 per second; Additive Odd weighs harmonics 3, 5 and 7 by
/// 0.55, 0.32 and 0.18; PD Syncish centres the phase at 0.5 with bend depth
/// 0.35 and harmonics 1 + 8 times macro 1; Chaotic Soft steps its noise 127
/// times per second.
pub proof fn lemma_builtin_constants_are_their_decimal_values()
    ensures
        const_rounds(builtin_ops(FormulaProgramId::BrightFold)[2], 2, 1),
        const_rounds(builtin_ops(FormulaProgramId::BrightFold)[9], 1, 1),
        const_rounds(builtin_ops(FormulaProgramId::BrightFold)[11], 8, 1),
        const_rounds(builtin_ops(FormulaProgramId::FmBell)[2], 271, 100),
        const_rounds(builtin_ops(FormulaProgramId::FmBell)[6], 8, 1),
        const_rounds(builtin_ops(FormulaProgramId::FmBell)[9], -45, 10),
        const_rounds(builtin_ops(FormulaProgramId::AdditiveOdd)[3], 3, 1),
        const_rounds(builtin_ops(FormulaProgramId::AdditiveOdd)[7], 55, 100),
        const_rounds(builtin_ops(FormulaProgramId::AdditiveOdd)[12], 5, 1),
        const_rounds(builtin_ops(FormulaProgramId::AdditiveOdd)[16], 32, 100),
        const_rounds(builtin_ops(FormulaProgramId::AdditiveOdd)[21], 7, 1),
        const_rounds(builtin_ops(FormulaProgramId::AdditiveOdd)[25], 18, 100),
        const_rounds(builtin_ops(FormulaProgramId::PdSyncish)[2], 5, 10),
        const_rounds(builtin_ops(FormulaProgramId::PdSyncish)[8], 35, 100),
        const_rounds(builtin_ops(FormulaProgramId::PdSyncish)[12], 1, 1),
        const_rounds(builtin_ops(FormulaProgramId::PdSyncish)[14], 8, 1),
        const_rounds(builtin_ops(FormulaProgramId::ChaoticSoft)[3], 127, 1),
{
    reveal_with_fuel(pow2_int, 30);
    assert(pow2_int(18) == 0x40000);
    assert(pow2_int(21) == 0x200000);
    assert(pow2_int(22) == 0x400000);
    assert(pow2_int(23) == 0x800000);
    assert(pow2_int(24) == 0x1000000);
    assert(pow2_int(25) == 0x2000000);
    assert(pow2_int(26) == 0x4000000);
    assert(pow2_int(27) == 0x8000000);
    assert(0x40000000u32 >> 31u32 == 0 && (0x40000000u32 >> 23u32) & 0xffu32 == 128 && 0x40000000u32 & 0x7fffffu32 == 0 && 0x3f800000u32 >> 31u32 == 0 && (0x3f800000u32 >> 23u32) & 0xffu32 == 127 && 0x3f800000u32 & 0x7fffffu32 == 0 && 0x41000000u32 >> 31u32 == 0 && (0x41000000u32 >> 23u32) & 0xffu32 == 130 && 0x41000000u32 & 0x7fffffu32 == 0) by (bit_vector);
    assert(0x402d70a4u32 >> 31u32 == 0 && (0x402d70a4u32 >> 23u32) & 0xffu32 == 128 && 0x402d70a4u32 & 0x7fffffu32 == 2977956 && 0x41000000u32 >> 31u32 == 0 && (0x41000000u32 >> 23u32) & 0xffu32 == 130 && 0x41000000u32 & 0x7fffffu32 == 0 && 0xc0900000u32 >> 31u32 == 1 && (0xc0900000u32 >> 23u32) & 0xffu32 == 129 && 0xc0900000u32 & 0x7fffffu32 == 1048576) by (bit_vector);
    assert(0x40400000u32 >> 31u32 == 0 && (0x40400000u32 >> 23u32) & 0xffu32 == 128 && 0x40400000u32 & 0x7fffffu32 == 4194304 && 0x3f0ccccdu32 >> 31u32 == 0 && (0x3f0ccccdu32 >> 23u32) & 0xffu32 == 126 && 0x3f0ccccdu32 & 0x7fffffu32 == 838861 && 0x40a00000u32 >> 31u32 == 0 && (0x40a00000u32 >> 23u32) & 0xffu32 == 129 && 0x40a00000u32 & 0x7fffffu32 == 2097152 && 0x3ea3d70au32 >> 31u32 == 0 && (0x3ea3d70au32 >> 23u32) & 0xffu32 == 125 && 0x3ea3d70au32 & 0x7fffffu32 == 2348810 && 0x40e00000u32 >> 31u32 == 0 && (0x40e00000u32 >> 23u32) & 0xffu32 == 129 && 0x40e00000u32 & 0x7fffffu32 == 6291456 && 0x3e3851ecu32 >> 31u32 == 0 && (0x3e3851ecu32 >> 23u32) & 0xffu32 == 124 && 0x3e3851ecu32 & 0x7fffffu32 == 3690988) by (bit_vector);
    assert(0x3f000000u32 >> 31u32 == 0 && (0x3f000000u32 >> 23u32) & 0xffu32 == 126 && 0x3f000000u32 & 0x7fffffu32 == 0 && 0x3eb33333u32 >> 31u32 == 0 && (0x3eb33333u32 >> 23u32) & 0xffu32 == 125 && 0x3eb33333u32 & 0x7fffffu32 == 3355443 && 0x3f800000u32 >> 31u32 == 0 && (0x3f800000u32 >> 23u32) & 0xffu32 == 127 && 0x3f800000u32 & 0x7fffffu32 == 0 && 0x41000000u32 >> 31u32 == 0 && (0x41000000u32 >> 23u32) & 0xffu32 == 130 && 0x41000000u32 & 0x7fffffu32 == 0) by (bit_vector);
    assert(0x42fe0000u32 >> 31u32 == 0 && (0x42fe0000u32 >> 23u32) & 0xffu32 == 133 && 0x42fe0000u32 & 0x7fffffu32 == 8257536) by (bit_vector);
}

/// Instructions `at..at + 4` of `ops` push the sine of the phase multiplied
/// by `harmonic`.
pub open spec fn sine_of_phase_times(ops: Seq<FormulaOpcode>, at: int, harmonic: int) -> bool {
    &&& ops[at] == FormulaOpcode::Phase
    &&& const_rounds(ops[at + 1], harmonic, 1)
    &&& ops[at + 2] == FormulaOpcode::Mul
    &&& ops[at + 3] == FormulaOpcode::Sin2Pi
}

/// Additive Odd sums partials at the odd harmonics: after the fundamental
/// (the sine of the phase itself), partial `j` (`j` in `1..4`) starts at
/// instruction `2 + 9 * (j - 1)` and takes the sine of the phase multiplied
/// by `2 * j + 1`.
pub proof fn lemma_additive_odd_plays_odd_harmonics()
    ensures
        builtin_ops(FormulaProgramId::AdditiveOdd)[0] == FormulaOpcode::Phase,
        builtin_ops(FormulaProgramId::AdditiveOdd)[1] == FormulaOpcode::Sin2Pi,
        forall|j: int|
            1 <= j <= 3 ==> #[trigger] sine_of_phase_times(
                builtin_ops(FormulaProgramId::AdditiveOdd),
                2 + 9 * (j - 1),
                2 * j + 1,
            ),
{
    lemma_builtin_constants_are_their_decimal_values();
    let ops = builtin_ops(FormulaProgramId::AdditiveOdd);
    assert(sine_of_phase_times(ops, 2, 3));
    assert(sine_of_phase_times(ops, 11, 5));
    assert(sine_of_phase_times(ops, 20, 7));
    assert forall|j: int| 1 <= j <= 3 implies #[trigger] sine_of_phase_times(
        ops,
        2 + 9 * (j - 1),
        2 * j + 1,
    ) by {
        if j == 1 {
        } else if j == 2 {
        } else {
        }
    }
}

impl FormulaProgramId {
    /// The automation indices, fixed by the parameter's wire format: PurePhase = 0, BrightFold = 1, FmBell = 2, AdditiveOdd = 3, PdSyncish = 4, ChaoticSoft = 5.
    /// Decoding index `i` below `VARIANT_COUNT` therefore gives the `i`-th
    /// of these, and any larger index gives ChaoticSoft.
    pub proof fn lemma_param_index_values()
        ensures
            FormulaProgramId::PurePhase.index_of() == 0,
            FormulaProgramId::BrightFold.index_of() == 1,
            FormulaProgramId::FmBell.index_of() == 2,
            FormulaProgramId::AdditiveOdd.index_of() == 3,
            FormulaProgramId::PdSyncish.index_of() == 4,
            FormulaProgramId::ChaoticSoft.index_of() == 5,
            Self::VARIANT_COUNT == 6,
    {
    }
}

} // verus!
