//! The engine's load-bearing laws, proved against the step and scheduler
//! functions: determinism, call/return balance, rank filtering,
//! equality-gated execution, and the bounded-loop primitive.

use vstd::prelude::*;

verus! {

use crate::arith::wrap32;
use crate::enemy::EnemyV;
use crate::fx32::Fx32;
use crate::host::EclError;
use crate::prog::{Ecl, SubInstruction};
use crate::runner::{VmV, StackFrame, with_frame, sched_step_spec, sub_in_range, ip_in_range,
    cur_instr, TickMove, read_int_spec, write_int_spec};
use crate::step::{step_spec, apply_pending_spec, called, fine, jumped, Flow};

/// Determinism: one scheduler step is a function of the program, the
/// machine state and the entity alone. Two runs whose states agree — in
/// particular, whose drivers answered earlier requests identically —
/// take identical steps, so identical inputs give bit-identical register
/// contents and entity trajectories tick by tick, by induction over the
/// ticks.
pub proof fn lemma_scheduler_deterministic(
    ecl: Ecl,
    v1: VmV,
    e1: EnemyV,
    v2: VmV,
    e2: EnemyV,
)
    requires
        v1 == v2,
        e1 == e2,
    ensures
        sched_step_spec(ecl, v1, e1) == sched_step_spec(ecl, v2, e2),
{
}

/// Determinism of a whole tick: the completed tick — virtual time
/// advanced, every due instruction executed — is a function of the
/// program, the machine state and the entity alone, so two runs whose
/// drivers answered identically stay bit-identical tick by tick.
/// `run_frame` ensures its result equals this very function.
pub proof fn lemma_tick_deterministic(
    ecl: Ecl,
    v1: VmV,
    e1: EnemyV,
    v2: VmV,
    e2: EnemyV,
    fuel: nat,
)
    requires
        v1 == v2,
        e1 == e2,
    ensures
        crate::runner::tick_spec(ecl, v1, e1, fuel) == crate::runner::tick_spec(
            ecl,
            v2,
            e2,
            fuel,
        ),
{
}

/// Determinism of the continuation side: the same outstanding
/// continuation and the same host answer produce the same machine.
pub proof fn lemma_resume_deterministic(
    v1: VmV,
    e1: EnemyV,
    v2: VmV,
    e2: EnemyV,
    p: crate::runner::Pending,
    resp: crate::host::HostResponse,
)
    requires
        v1 == v2,
        e1 == e2,
    ensures
        apply_pending_spec(v1, e1, p, resp) == apply_pending_spec(v2, e2, p, resp),
{
}

/// The call instruction suspends the current frame under a fresh entry
/// frame and always succeeds.
pub proof fn lemma_call_step(v: VmV, e: EnemyV, sub: i32, a1: i32, a2: Fx32)
    ensures
        step_spec(v, e, SubInstruction::Call(sub, a1, a2)) == fine(called(v, sub, a1, a2), e),
{
}

/// The machine after a return: the caller's frame comes back whole and
/// the callee's frame is discarded.
pub open spec fn return_transfer(v: VmV) -> VmV {
    VmV { frame: v.stack.last(), stack: v.stack.drop_last(), ..v }
}

/// The return instruction restores the suspended frame when one exists,
/// and is a stack underflow otherwise.
pub proof fn lemma_return_step(v: VmV, e: EnemyV)
    ensures
        v.stack.len() > 0 ==> step_spec(v, e, SubInstruction::Return()) == fine(
            return_transfer(v),
            e,
        ),
        v.stack.len() == 0 ==> step_spec(v, e, SubInstruction::Return()) == (
            v,
            e,
            Err::<Flow, EclError>(EclError::StackUnderflow),
        ),
{
}

/// Call/return balance for one pair: a call followed by a return
/// restores the exact pre-call frame — every register, the subroutine id
/// and both pointers — and the exact pre-call stack, leaving the entity
/// alone.
pub proof fn lemma_call_return_balance(v: VmV, e: EnemyV, sub: i32, a1: i32, a2: Fx32)
    ensures
        ({
            let s1 = step_spec(v, e, SubInstruction::Call(sub, a1, a2));
            let s2 = step_spec(s1.0, s1.1, SubInstruction::Return());
            &&& s1.2 == Ok::<Flow, EclError>(Flow::Done)
            &&& s2.2 == Ok::<Flow, EclError>(Flow::Done)
            &&& s2.0.frame == v.frame
            &&& s2.0.stack =~= v.stack
            &&& s2.1 == e
        }),
{
    let s1 = step_spec(v, e, SubInstruction::Call(sub, a1, a2));
    assert(s1.0.stack.drop_last() =~= v.stack);
}

/// The machine after a run of call transfers, one per argument triple.
pub open spec fn after_calls(v: VmV, args: Seq<(i32, i32, Fx32)>) -> VmV
    decreases args.len(),
{
    if args.len() == 0 {
        v
    } else {
        after_calls(
            called(v, args[0].0, args[0].1, args[0].2),
            args.subrange(1, args.len() as int),
        )
    }
}

/// The machine after a run of return transfers.
pub open spec fn after_returns(v: VmV, n: nat) -> VmV
    decreases n,
{
    if n == 0 {
        v
    } else {
        after_returns(return_transfer(v), (n - 1) as nat)
    }
}

/// A run of returns can be peeled from the far end.
proof fn lemma_returns_peel(v: VmV, n: nat)
    ensures
        after_returns(v, n + 1) == return_transfer(after_returns(v, n)),
    decreases n,
{
    if n == 0 {
        assert(after_returns(v, 1) == after_returns(return_transfer(v), 0));
    } else {
        lemma_returns_peel(return_transfer(v), (n - 1) as nat);
    }
}

/// Call/return balance for any depth: N consecutive calls followed by N
/// returns restore the exact pre-call frame and stack, however large N
/// (the call stack itself is unbounded in this engine; the practical
/// depth bound belongs to the programs, not the machine).
pub proof fn lemma_call_return_balance_n(v: VmV, args: Seq<(i32, i32, Fx32)>)
    ensures
        ({
            let w = after_returns(after_calls(v, args), args.len());
            &&& w.frame == v.frame
            &&& w.stack =~= v.stack
            &&& w.running == v.running
            &&& w.pending == v.pending
            &&& w.error == v.error
        }),
    decreases args.len(),
{
    if args.len() == 0 {
    } else {
        let v1 = called(v, args[0].0, args[0].1, args[0].2);
        let rest = args.subrange(1, args.len() as int);
        lemma_call_return_balance_n(v1, rest);
        lemma_returns_peel(after_calls(v1, rest), rest.len());
        assert(after_calls(v, args) == after_calls(v1, rest));
        let w1 = after_returns(after_calls(v1, rest), rest.len());
        assert(v1.stack.last() == v.frame);
        assert(v1.stack.drop_last() =~= v.stack);
        assert(w1.stack =~= v1.stack);
        assert(after_returns(after_calls(v, args), args.len()) == return_transfer(w1));
    }
}

/// Rank filtering: a due instruction whose rank mask excludes the
/// entity's active rank is consumed without effect — only the
/// instruction pointer moves, and no register or entity field changes,
/// whatever the instruction is.
pub proof fn lemma_rank_filtering(ecl: Ecl, v: VmV, e: EnemyV)
    requires
        sub_in_range(ecl, v.frame.sub),
        ip_in_range(ecl, v.frame.sub, v.frame.ip),
        cur_instr(ecl, v.frame).time <= v.frame.frame,
        cur_instr(ecl, v.frame).rank_mask & e.rank == 0,
    ensures
        ({
            let s = sched_step_spec(ecl, v, e);
            &&& s.0 == with_frame(
                v,
                StackFrame { ip: wrap32(v.frame.ip + 1) as i32, ..v.frame },
            )
            &&& s.1 == e
            &&& s.2 == TickMove::Continue
        }),
{
    reveal(sched_step_spec);
}

/// Equality-gated execution: an instruction runs exactly when its
/// scheduled time equals the frame's virtual time. A future time leaves
/// the machine untouched and ends the tick; a past time (left behind by
/// a jump that rewound virtual time) consumes the instruction without
/// executing it; an exact match executes it on the frame whose pointer
/// has already advanced.
pub proof fn lemma_equality_gated(ecl: Ecl, v: VmV, e: EnemyV)
    requires
        sub_in_range(ecl, v.frame.sub),
        ip_in_range(ecl, v.frame.sub, v.frame.ip),
        cur_instr(ecl, v.frame).rank_mask & e.rank != 0,
    ensures
        ({
            let g = cur_instr(ecl, v.frame);
            let v1 = with_frame(v, StackFrame { ip: wrap32(v.frame.ip + 1) as i32, ..v.frame });
            let s = sched_step_spec(ecl, v, e);
            &&& (g.time > v.frame.frame ==> s == (v, e, TickMove::Over))
            &&& (g.time < v.frame.frame ==> s == (v1, e, TickMove::Continue))
            &&& (g.time == v.frame.frame && step_spec(v1, e, g.instr).2 == Ok::<
                Flow,
                EclError,
            >(Flow::Done) ==> s == (
                step_spec(v1, e, g.instr).0,
                step_spec(v1, e, g.instr).1,
                TickMove::Continue,
            ))
        }),
{
    reveal(sched_step_spec);
}

/// The bounded-loop primitive: the counter slot is decremented (wrapping)
/// and written back, and the jump is taken exactly while the decremented
/// value stays positive — a counter of 3 yields two backward jumps and
/// then falls through.
pub proof fn lemma_bounded_loop(v: VmV, e: EnemyV, f: i32, ip: i32, var: i32, c: int)
    requires
        read_int_spec(v.frame, e, var) == Ok::<int, EclError>(c),
    ensures
        ({
            let s = step_spec(v, e, SubInstruction::RelativeJumpEx(f, ip, var));
            let w = write_int_spec(v.frame, e, var, wrap32(c - 1) as i32);
            &&& (w matches Ok(p) ==> {
                &&& s.2 == Ok::<Flow, EclError>(Flow::Done)
                &&& s.1 == p.1
                &&& (wrap32(c - 1) > 0 ==> s.0 == jumped(with_frame(v, p.0), f, ip))
                &&& (wrap32(c - 1) <= 0 ==> s.0 == with_frame(v, p.0))
            })
            &&& (w matches Err(er) ==> s == (v, e, Err::<Flow, EclError>(er)))
        }),
{
}

} // verus!
