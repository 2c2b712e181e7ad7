//! The instruction-step function: what each instruction does, as a
//! mathematical function from machine state to machine state.
//!
//! [`step_spec`] maps the runner's view, the entity's view and one
//! instruction to the next views together with the step's outcome: done,
//! a host request (with the matching continuation recorded in the
//! runner's pending slot), or a fatal error. [`apply_pending_spec`] is
//! the continuation side: what the host's answer does to the machine.
//! The dispatcher in [`crate::runner`] provably implements both, so every
//! property of the interpreter can be read off these functions.

use vstd::prelude::*;

verus! {

use crate::arith::{wrap32, wrap16, div32_trunc, rem32_trunc, as_u16_wrapped, as_u8_wrapped};
use crate::enemy::{EnemyV, Position, Offset, ScreenBox, Hitbox, SpriteSet, BulletAttributes,
    ExtendedAttributes};
use crate::fx32::{Fx32, fx_to_i32_spec, fx_cmp_spec};
use crate::host::{EclError, HostRequest, HostResponse, FloatOp};
use crate::prog::SubInstruction;
use crate::runner::{VmV, StackFrame, Regs4, FRegs4, Pending, entry_frame, with_frame,
    read_int_spec, write_int_spec, read_float_op_spec, read_float_var_spec, write_float_spec,
    as_u32_wrapped};

/// How an instruction step left the tick: finished, or suspended on a
/// host request.
#[derive(Clone, Copy, PartialEq, Eq, Structural, Debug)]
pub enum Flow {
    Done,
    Need(HostRequest),
}

/// What one instruction step produces: the two views and the outcome.
pub type StepOut = (VmV, EnemyV, Result<Flow, EclError>);

/// The integer arithmetic instructions share one shape.
#[derive(Clone, Copy, PartialEq, Eq, Structural, Debug)]
pub enum IntOp {
    Add,
    Sub,
    Mul,
    Div,
    Rem,
}

pub open spec fn halt(v: VmV, e: EnemyV, err: EclError) -> StepOut {
    (v, e, Err(err))
}

pub open spec fn fine(v: VmV, e: EnemyV) -> StepOut {
    (v, e, Ok(Flow::Done))
}

/// Suspend on a host request, recording the continuation.
pub open spec fn ask(v: VmV, e: EnemyV, req: HostRequest, p: Pending) -> StepOut {
    (VmV { pending: Some(p), ..v }, e, Ok(Flow::Need(req)))
}

/// Finish a step by an integer write through the redirection layer.
pub open spec fn put_int(v: VmV, e: EnemyV, var: i32, val: i32) -> StepOut {
    match write_int_spec(v.frame, e, var, val) {
        Ok(p) => (with_frame(v, p.0), p.1, Ok(Flow::Done)),
        Err(er) => (v, e, Err(er)),
    }
}

/// Finish a step by a float write through the redirection layer.
pub open spec fn put_float(v: VmV, e: EnemyV, var: i32, val: Fx32) -> StepOut {
    match write_float_spec(v.frame, e, var, val) {
        Ok(p) => (with_frame(v, p.0), p.1, Ok(Flow::Done)),
        Err(er) => (v, e, Err(er)),
    }
}

/// Two integer reads, the second only if the first succeeded.
pub open spec fn read2i(fr: StackFrame, e: EnemyV, a: i32, b: i32) -> Result<
    (int, int),
    EclError,
> {
    match read_int_spec(fr, e, a) {
        Err(er) => Err(er),
        Ok(x) => match read_int_spec(fr, e, b) {
            Err(er) => Err(er),
            Ok(y) => Ok((x, y)),
        },
    }
}

/// Two float reads, the second only if the first succeeded.
pub open spec fn read2f(fr: StackFrame, e: EnemyV, a: Fx32, b: Fx32) -> Result<
    (int, int),
    EclError,
> {
    match read_float_op_spec(fr, e, a) {
        Err(er) => Err(er),
        Ok(x) => match read_float_op_spec(fr, e, b) {
            Err(er) => Err(er),
            Ok(y) => Ok((x, y)),
        },
    }
}

/// Bit pattern as a value.
pub open spec fn fxv(bits: int) -> Fx32 {
    Fx32 { bits: bits as u32 }
}

/// Reassigning virtual time and instruction pointer.
pub open spec fn jumped(v: VmV, f: i32, ip: i32) -> VmV {
    with_frame(v, StackFrame { frame: f, ip, ..v.frame })
}

/// The call transfer: the current frame is suspended and a fresh entry
/// frame (arguments placed, everything else zeroed) enters the callee.
pub open spec fn called(v: VmV, sub: i32, a1: i32, a2: Fx32) -> VmV {
    VmV {
        frame: entry_frame(as_u16_wrapped(sub as int), a1, a2),
        stack: v.stack.push(v.frame),
        ..v
    }
}

/// Three-way comparison as the compare instructions record it.
pub open spec fn cmp3(x: int, y: int) -> i32 {
    if x < y {
        (-1) as i32
    } else if x == y {
        0 as i32
    } else {
        1 as i32
    }
}

/// The frame with another comparison flag.
pub open spec fn with_cr(v: VmV, c: i32) -> VmV {
    with_frame(v, StackFrame { comparison_reg: c, ..v.frame })
}

/// One integer arithmetic instruction: read both operands, apply the
/// wrapping (or truncating) operation, write the result. A zero divisor
/// is fatal.
pub open spec fn int_binop_spec(v: VmV, e: EnemyV, var: i32, a: i32, b: i32, op: IntOp) -> StepOut {
    match read2i(v.frame, e, a, b) {
        Err(er) => halt(v, e, er),
        Ok(p) => {
            let x = p.0;
            let y = p.1;
            match op {
                IntOp::Add => put_int(v, e, var, wrap32(x + y) as i32),
                IntOp::Sub => put_int(v, e, var, wrap32(x - y) as i32),
                IntOp::Mul => put_int(v, e, var, wrap32(x * y) as i32),
                IntOp::Div => if y == 0 {
                    halt(v, e, EclError::DivisionByZero)
                } else {
                    put_int(v, e, var, div32_trunc(x, y) as i32)
                },
                IntOp::Rem => if y == 0 {
                    halt(v, e, EclError::DivisionByZero)
                } else {
                    put_int(v, e, var, rem32_trunc(x, y) as i32)
                },
            }
        },
    }
}

/// One float arithmetic instruction: read both operands and delegate the
/// operation to the host, the answer landing at `var`.
pub open spec fn float_binop_spec(
    v: VmV,
    e: EnemyV,
    var: i32,
    a: Fx32,
    b: Fx32,
    op: FloatOp,
) -> StepOut {
    match read2f(v.frame, e, a, b) {
        Err(er) => halt(v, e, er),
        Ok(p) => ask(
            v,
            e,
            HostRequest::Arith(op, fxv(p.0), fxv(p.1)),
            Pending::WriteFloat { var_id: var },
        ),
    }
}

/// A comparison-flag conditional jump.
pub open spec fn cond_jump_spec(v: VmV, e: EnemyV, f: i32, ip: i32, taken: bool) -> StepOut {
    if taken {
        fine(jumped(v, f, ip), e)
    } else {
        fine(v, e)
    }
}

/// A conditional call: read both operands and transfer on the predicate.
pub open spec fn cond_call_spec(
    v: VmV,
    e: EnemyV,
    sub: i32,
    a1: i32,
    a2: Fx32,
    a: i32,
    b: i32,
    op: IntOp,
) -> StepOut {
    match read2i(v.frame, e, a, b) {
        Err(er) => halt(v, e, er),
        Ok(p) => {
            let taken = match op {
                IntOp::Add => p.0 < p.1,  // superior
                IntOp::Sub => p.0 <= p.1,  // superior or equal
                IntOp::Mul => p.0 == p.1,  // equal
                IntOp::Div => p.1 < p.0,  // inferior
                IntOp::Rem => p.1 <= p.0,  // inferior or equal
            };
            if taken {
                fine(called(v, sub, a1, a2), e)
            } else {
                fine(v, e)
            }
        },
    }
}

/// The shared body of the bullet-attribute family: resolve the three
/// integer and four float operands, then fill the template, tagging it
/// with the writing opcode.
#[verifier::opaque]
pub open spec fn bullet_attrs_spec(
    v: VmV,
    e: EnemyV,
    opcode: u16,
    anim: i16,
    sio: i16,
    bps: i32,
    nos: i32,
    sp: Fx32,
    sp2: Fx32,
    la: Fx32,
    an: Fx32,
    flags: u32,
) -> StepOut {
    match read_int_spec(v.frame, e, sio as i32) {
        Err(er) => halt(v, e, er),
        Ok(sio_v) => match read2i(v.frame, e, bps, nos) {
            Err(er) => halt(v, e, er),
            Ok(pi) => match read2f(v.frame, e, sp, sp2) {
                Err(er) => halt(v, e, er),
                Ok(pf1) => match read2f(v.frame, e, la, an) {
                    Err(er) => halt(v, e, er),
                    Ok(pf2) => {
                        let e1 = EnemyV {
                            bullet_attributes: BulletAttributes {
                                pos: e.bullet_attributes.pos,
                                z: e.bullet_attributes.z,
                                anim,
                                sprite_index_offset: wrap16(sio_v) as i16,
                                bullets_per_shot: wrap16(pi.0) as i16,
                                number_of_shots: wrap16(pi.1) as i16,
                                speed: fxv(pf1.0),
                                speed2: fxv(pf1.1),
                                launch_angle: fxv(pf2.0),
                                angle: fxv(pf2.1),
                                flags,
                                bullet_type: opcode,
                                extended_attributes: e.bullet_attributes.extended_attributes,
                                sound: e.bullet_attributes.sound,
                            },
                            ..e
                        };
                        fine(v, e1)
                    },
                },
            },
        },
    }
}

/// The special-function table ("call now" opcode). Only the numbered
/// effects the engine implements are present; any other id is fatal.
#[verifier::opaque]
pub open spec fn special_spec(v: VmV, e: EnemyV, fnid: i32, arg: i32) -> StepOut {
    if fnid == 0 {
        ask(v, e, HostRequest::StopBullets { arg }, Pending::Discard)
    } else if fnid == 1 {
        ask(v, e, HostRequest::Fire { attributes: e.bullet_attributes }, Pending::Discard)
    } else if fnid == 3 {
        // The dual-sign selector: the knowledge row for the first player
        // character into the second through fourth integer registers.
        fine(
            with_frame(
                v,
                StackFrame { ints1: Regs4 { r1: 0, r2: 3, r3: 1, ..v.frame.ints1 }, ..v.frame },
            ),
            e,
        )
    } else if fnid == 4 {
        // The time-stop set piece lives entirely in the game context and
        // is not reproduced by this engine; the id is accepted silently.
        fine(v, e)
    } else if fnid == 7 || fnid == 9 || fnid == 11 {
        // These effects consume one draw; their bullet decoration lives
        // in the context.
        ask(v, e, HostRequest::RandDiscard, Pending::Discard)
    } else if fnid == 8 {
        ask(v, e, HostRequest::CountAndFireBullets, Pending::CountInto { var_id: -10004i32 })
    } else if fnid == 13 {
        fine(
            with_frame(
                v,
                StackFrame {
                    ints1: Regs4 { r3: wrap32(v.frame.ints1.r3 + 1) as i32, ..v.frame.ints1 },
                    ..v.frame
                },
            ),
            e,
        )
    } else if fnid == 14 {
        fine(
            with_frame(
                v,
                StackFrame {
                    ints1: Regs4 { r3: wrap32(e.lasers.len() as int) as i32, ..v.frame.ints1 },
                    ..v.frame
                },
            ),
            e,
        )
    } else if fnid == 16 {
        if arg == 0 {
            let q = (e.life as int * 240) % 0x1_0000_0000 / 6000 + 40;
            ask(
                with_frame(
                    v,
                    StackFrame { ints2: Regs4 { r1: q as i32, ..v.frame.ints2 }, ..v.frame },
                ),
                e,
                HostRequest::LifeFraction { life: e.life },
                Pending::FloatSlot3,
            )
        } else {
            ask(v, e, HostRequest::LifeSpread { life: e.life }, Pending::FloatSlots23)
        }
    } else {
        halt(v, e, EclError::UnimplementedSpecialFunction)
    }
}

/// What one instruction does. The tick scheduler consults this function
/// after the fetch, rank and time gates have admitted the instruction.
pub open spec fn step_spec(v: VmV, e: EnemyV, instr: SubInstruction) -> StepOut {
    match instr {
        SubInstruction::Noop() => fine(v, e),
        SubInstruction::Destroy(_x) => fine(v, EnemyV { removed: true, ..e }),
        SubInstruction::RelativeJump(f, ip) => fine(jumped(v, f, ip), e),
        SubInstruction::RelativeJumpEx(f, ip, var) => {
            match read_int_spec(v.frame, e, var) {
                Err(er) => halt(v, e, er),
                Ok(c) => {
                    let c1 = wrap32(c - 1) as i32;
                    match write_int_spec(v.frame, e, var, c1) {
                        Err(er) => halt(v, e, er),
                        Ok(p) => if c1 > 0 {
                            fine(jumped(with_frame(v, p.0), f, ip), p.1)
                        } else {
                            fine(with_frame(v, p.0), p.1)
                        },
                    }
                },
            }
        },
        SubInstruction::SetInt(var, val) => put_int(v, e, var, val),
        SubInstruction::SetFloat(var, val) => put_float(v, e, var, val),
        SubInstruction::SetRandomInt(var, max) => ask(
            v,
            e,
            HostRequest::RandWord,
            Pending::RandInt { var_id: var, max_ref: max, min_ref: 0, has_min: false },
        ),
        SubInstruction::SetRandomIntMin(var, max, min) => ask(
            v,
            e,
            HostRequest::RandWord,
            Pending::RandInt { var_id: var, max_ref: max, min_ref: min, has_min: true },
        ),
        SubInstruction::SetRandomFloat(var, max) => match read_float_op_spec(v.frame, e, max) {
            Err(er) => halt(v, e, er),
            Ok(m) => ask(
                v,
                e,
                HostRequest::RandFloat { max: fxv(m) },
                Pending::WriteFloat { var_id: var },
            ),
        },
        SubInstruction::SetRandomFloatMin(var, max, min) => match read2f(v.frame, e, max, min) {
            Err(er) => halt(v, e, er),
            Ok(p) => ask(
                v,
                e,
                HostRequest::RandFloatMin { max: fxv(p.0), min: fxv(p.1) },
                Pending::WriteFloat { var_id: var },
            ),
        },
        SubInstruction::StoreX(var) => put_int(v, e, var, fx_to_i32_spec(e.pos.x.bits) as i32),
        SubInstruction::StoreY(var) => put_int(v, e, var, fx_to_i32_spec(e.pos.y.bits) as i32),
        SubInstruction::StoreZ(var) => put_int(v, e, var, fx_to_i32_spec(e.z.bits) as i32),
        SubInstruction::AddInt(var, a, b) => int_binop_spec(v, e, var, a, b, IntOp::Add),
        SubInstruction::AddFloat(var, a, b) => float_binop_spec(v, e, var, a, b, FloatOp::Add),
        SubInstruction::SubstractInt(var, a, b) => int_binop_spec(v, e, var, a, b, IntOp::Sub),
        SubInstruction::SubstractFloat(var, a, b) => float_binop_spec(v, e, var, a, b, FloatOp::Sub),
        SubInstruction::MultiplyInt(var, a, b) => int_binop_spec(v, e, var, a, b, IntOp::Mul),
        SubInstruction::DivideInt(var, a, b) => int_binop_spec(v, e, var, a, b, IntOp::Div),
        SubInstruction::DivideFloat(var, a, b) => float_binop_spec(v, e, var, a, b, FloatOp::Div),
        SubInstruction::ModuloInt(var, a, b) => int_binop_spec(v, e, var, a, b, IntOp::Rem),
        SubInstruction::ModuloFloat(var, a, b) => float_binop_spec(v, e, var, a, b, FloatOp::Rem),
        SubInstruction::Increment(var) => match read_int_spec(v.frame, e, var) {
            Err(er) => halt(v, e, er),
            Ok(x) => put_int(v, e, var, wrap32(x + 1) as i32),
        },
        SubInstruction::Decrement(var) => match read_int_spec(v.frame, e, var) {
            Err(er) => halt(v, e, er),
            Ok(x) => put_int(v, e, var, wrap32(x - 1) as i32),
        },
        SubInstruction::GetDirection(var, x1, y1, x2, y2) => match read2f(v.frame, e, x1, y1) {
            Err(er) => halt(v, e, er),
            Ok(p1) => match read2f(v.frame, e, x2, y2) {
                Err(er) => halt(v, e, er),
                Ok(p2) => ask(
                    v,
                    e,
                    HostRequest::Direction {
                        x1: fxv(p1.0),
                        y1: fxv(p1.1),
                        x2: fxv(p2.0),
                        y2: fxv(p2.1),
                    },
                    Pending::WriteFloat { var_id: var },
                ),
            },
        },
        SubInstruction::FloatToUnitCircle(var) => match read_float_var_spec(v.frame, e, var) {
            Err(er) => halt(v, e, er),
            Ok(x) => ask(v, e, HostRequest::WrapAngle(fxv(x)), Pending::WriteFloat { var_id: var }),
        },
        SubInstruction::CompareInts(a, b) => match read2i(v.frame, e, a, b) {
            Err(er) => halt(v, e, er),
            Ok(p) => fine(with_cr(v, cmp3(p.0, p.1)), e),
        },
        SubInstruction::CompareFloats(a, b) => match read2f(v.frame, e, a, b) {
            Err(er) => halt(v, e, er),
            Ok(p) => fine(with_cr(v, fx_cmp_spec(p.0 as u32, p.1 as u32) as i32), e),
        },
        SubInstruction::RelativeJumpIfLowerThan(f, ip) => cond_jump_spec(
            v,
            e,
            f,
            ip,
            v.frame.comparison_reg == -1,
        ),
        SubInstruction::RelativeJumpIfLowerOrEqual(f, ip) => cond_jump_spec(
            v,
            e,
            f,
            ip,
            v.frame.comparison_reg != 1,
        ),
        SubInstruction::RelativeJumpIfEqual(f, ip) => cond_jump_spec(
            v,
            e,
            f,
            ip,
            v.frame.comparison_reg == 0,
        ),
        SubInstruction::RelativeJumpIfGreaterThan(f, ip) => cond_jump_spec(
            v,
            e,
            f,
            ip,
            v.frame.comparison_reg == 1,
        ),
        SubInstruction::RelativeJumpIfGreaterOrEqual(f, ip) => cond_jump_spec(
            v,
            e,
            f,
            ip,
            v.frame.comparison_reg != -1,
        ),
        SubInstruction::RelativeJumpIfNotEqual(f, ip) => cond_jump_spec(
            v,
            e,
            f,
            ip,
            v.frame.comparison_reg != 0,
        ),
        SubInstruction::Call(sub, a1, a2) => fine(called(v, sub, a1, a2), e),
        SubInstruction::Return() => if v.stack.len() == 0 {
            halt(v, e, EclError::StackUnderflow)
        } else {
            fine(VmV { frame: v.stack.last(), stack: v.stack.drop_last(), ..v }, e)
        },
        SubInstruction::CallIfSuperior(sub, a1, a2, a, b) => cond_call_spec(
            v,
            e,
            sub,
            a1,
            a2,
            a,
            b,
            IntOp::Add,
        ),
        SubInstruction::CallIfSuperiorOrEqual(sub, a1, a2, a, b) => cond_call_spec(
            v,
            e,
            sub,
            a1,
            a2,
            a,
            b,
            IntOp::Sub,
        ),
        SubInstruction::CallIfEqual(sub, a1, a2, a, b) => cond_call_spec(
            v,
            e,
            sub,
            a1,
            a2,
            a,
            b,
            IntOp::Mul,
        ),
        SubInstruction::CallIfInferior(sub, a1, a2, a, b) => cond_call_spec(
            v,
            e,
            sub,
            a1,
            a2,
            a,
            b,
            IntOp::Div,
        ),
        SubInstruction::CallIfInferiorOrEqual(sub, a1, a2, a, b) => cond_call_spec(
            v,
            e,
            sub,
            a1,
            a2,
            a,
            b,
            IntOp::Rem,
        ),
        SubInstruction::CallIfNotEqual(sub, a1, a2, a, b) => match read2i(v.frame, e, a, b) {
            Err(er) => halt(v, e, er),
            Ok(p) => if p.0 != p.1 {
                fine(called(v, sub, a1, a2), e)
            } else {
                fine(v, e)
            },
        },
        SubInstruction::SetPosition(x, y, z) => match read2f(v.frame, e, x, y) {
            Err(er) => halt(v, e, er),
            Ok(p1) => match read_float_op_spec(v.frame, e, z) {
                Err(er) => halt(v, e, er),
                Ok(zv) => fine(
                    v,
                    EnemyV { pos: Position { x: fxv(p1.0), y: fxv(p1.1) }, z: fxv(zv), ..e },
                ),
            },
        },
        SubInstruction::SetAngleAndSpeed(an, sp) => match read2f(v.frame, e, an, sp) {
            Err(er) => halt(v, e, er),
            Ok(p) => fine(v, EnemyV { update_mode: 0, angle: fxv(p.0), speed: fxv(p.1), ..e }),
        },
        SubInstruction::SetRotationSpeed(sp) => match read_float_op_spec(v.frame, e, sp) {
            Err(er) => halt(v, e, er),
            Ok(x) => fine(v, EnemyV { update_mode: 0, rotation_speed: fxv(x), ..e }),
        },
        SubInstruction::SetSpeed(sp) => match read_float_op_spec(v.frame, e, sp) {
            Err(er) => halt(v, e, er),
            Ok(x) => fine(v, EnemyV { update_mode: 0, speed: fxv(x), ..e }),
        },
        SubInstruction::SetAcceleration(ac) => match read_float_op_spec(v.frame, e, ac) {
            Err(er) => halt(v, e, er),
            Ok(x) => fine(v, EnemyV { update_mode: 0, acceleration: fxv(x), ..e }),
        },
        SubInstruction::SetRandomAngle(min, max) => ask(
            v,
            e,
            HostRequest::RandAngle { min, max },
            Pending::SetAngle,
        ),
        SubInstruction::TargetPlayer(delta, sp) => match read_float_op_spec(v.frame, e, sp) {
            Err(er) => halt(v, e, er),
            Ok(x) => ask(
                v,
                e,
                HostRequest::TargetAngle { x: e.pos.x, y: e.pos.y, delta },
                Pending::TargetSpeed { speed: fxv(x) },
            ),
        },
        SubInstruction::SetScreenBox(xmin, ymin, xmax, ymax) => fine(
            v,
            EnemyV { screen_box: Some(ScreenBox { xmin, ymin, xmax, ymax }), ..e },
        ),
        SubInstruction::ClearScreenBox() => fine(v, EnemyV { screen_box: None, ..e }),
        SubInstruction::SetBulletAttributes1(anim, sio, bps, nos, sp, sp2, la, an, fl) =>
            bullet_attrs_spec(v, e, 67, anim, sio, bps, nos, sp, sp2, la, an, fl),
        SubInstruction::SetBulletAttributes2(anim, sio, bps, nos, sp, sp2, la, an, fl) =>
            bullet_attrs_spec(v, e, 68, anim, sio, bps, nos, sp, sp2, la, an, fl),
        SubInstruction::SetBulletAttributes3(anim, sio, bps, nos, sp, sp2, la, an, fl) =>
            bullet_attrs_spec(v, e, 69, anim, sio, bps, nos, sp, sp2, la, an, fl),
        SubInstruction::SetBulletAttributes4(anim, sio, bps, nos, sp, sp2, la, an, fl) =>
            bullet_attrs_spec(v, e, 70, anim, sio, bps, nos, sp, sp2, la, an, fl),
        SubInstruction::SetBulletAttributes5(anim, sio, bps, nos, sp, sp2, la, an, fl) =>
            bullet_attrs_spec(v, e, 71, anim, sio, bps, nos, sp, sp2, la, an, fl),
        SubInstruction::SetBulletAttributes6(anim, sio, bps, nos, sp, sp2, la, an, fl) =>
            bullet_attrs_spec(v, e, 74, anim, sio, bps, nos, sp, sp2, la, an, fl),
        SubInstruction::SetBulletAttributes7(anim, sio, bps, nos, sp, sp2, la, an, fl) =>
            bullet_attrs_spec(v, e, 75, anim, sio, bps, nos, sp, sp2, la, an, fl),
        SubInstruction::SetBulletInterval(iv) => fine(
            v,
            EnemyV { bullet_launch_interval: iv, bullet_launch_timer: 0, ..e },
        ),
        SubInstruction::SetBulletIntervalEx(iv) => ask(
            v,
            e,
            HostRequest::RandWord,
            Pending::LaunchInterval { interval: iv },
        ),
        SubInstruction::DelayAttack() => fine(v, EnemyV { delay_attack: true, ..e }),
        SubInstruction::NoDelayAttack() => fine(v, EnemyV { delay_attack: false, ..e }),
        SubInstruction::SetBulletLaunchOffset(dx, dy, dz) => match read2f(v.frame, e, dx, dy) {
            Err(er) => halt(v, e, er),
            Ok(p) => match read_float_op_spec(v.frame, e, dz) {
                Err(er) => halt(v, e, er),
                Ok(_zv) => fine(
                    v,
                    EnemyV { bullet_offset: Offset { dx: fxv(p.0), dy: fxv(p.1) }, ..e },
                ),
            },
        },
        SubInstruction::SetExtendedBulletAttributes(a, b, c, d, x, y, z, w) => {
            match read2i(v.frame, e, a, b) {
                Err(er) => halt(v, e, er),
                Ok(pi1) => match read2i(v.frame, e, c, d) {
                    Err(er) => halt(v, e, er),
                    Ok(pi2) => match read2f(v.frame, e, x, y) {
                        Err(er) => halt(v, e, er),
                        Ok(pf1) => match read2f(v.frame, e, z, w) {
                            Err(er) => halt(v, e, er),
                            Ok(pf2) => fine(
                                v,
                                EnemyV {
                                    bullet_attributes: BulletAttributes {
                                        extended_attributes: ExtendedAttributes {
                                            i0: wrap32(pi1.0) as i32,
                                            i1: wrap32(pi1.1) as i32,
                                            i2: wrap32(pi2.0) as i32,
                                            i3: wrap32(pi2.1) as i32,
                                            f0: fxv(pf1.0),
                                            f1: fxv(pf1.1),
                                            f2: fxv(pf2.0),
                                            f3: fxv(pf2.1),
                                        },
                                        ..e.bullet_attributes
                                    },
                                    ..e
                                },
                            ),
                        },
                    },
                },
            }
        },
        SubInstruction::SetBulletSound(snd) => if snd < 0 {
            fine(
                v,
                EnemyV {
                    bullet_attributes: BulletAttributes { sound: None, ..e.bullet_attributes },
                    ..e
                },
            )
        } else if snd > 255 {
            halt(v, e, EclError::MalformedProgram)
        } else {
            fine(
                v,
                EnemyV {
                    bullet_attributes: BulletAttributes {
                        sound: Some(snd as u8),
                        ..e.bullet_attributes
                    },
                    ..e
                },
            )
        },
        SubInstruction::SetUpcomingLaserId(id) => fine(v, EnemyV { current_laser_id: id, ..e }),
        SubInstruction::LaserSetCompare(id) => fine(
            with_cr(v, if e.lasers.contains(id) { 1 as i32 } else { 0 as i32 }),
            e,
        ),
        SubInstruction::SetSpellcard(_a, _b) => halt(v, e, EclError::UnimplementedInstruction),
        SubInstruction::EndSpellcard() => halt(v, e, EclError::UnimplementedInstruction),
        SubInstruction::SpawnEnemy(sub, x, y, z, life, bonus, score) => {
            match read2f(v.frame, e, x, y) {
                Err(er) => halt(v, e, er),
                Ok(p) => match read_float_op_spec(v.frame, e, z) {
                    Err(er) => halt(v, e, er),
                    Ok(zv) => ask(
                        v,
                        e,
                        HostRequest::Spawn {
                            sub: as_u16_wrapped(sub as int),
                            x: fxv(p.0),
                            y: fxv(p.1),
                            z: fxv(zv),
                            life,
                            bonus,
                            score,
                        },
                        Pending::Discard,
                    ),
                },
            }
        },
        SubInstruction::SetAnim(idx) => fine(v, EnemyV { anim: as_u8_wrapped(idx as int), ..e }),
        SubInstruction::SetMultipleAnims(default, end_left, end_right, left, right, _unused) => {
            if left == -1 {
                fine(v, EnemyV { movement_dependant_sprites: None, ..e })
            } else {
                fine(
                    v,
                    EnemyV {
                        anim: as_u8_wrapped(default as int),
                        movement_dependant_sprites: Some(
                            SpriteSet {
                                end_left: as_u8_wrapped(end_left as int),
                                end_right: as_u8_wrapped(end_right as int),
                                left: as_u8_wrapped(left as int),
                                right: as_u8_wrapped(right as int),
                            },
                        ),
                        ..e
                    },
                )
            }
        },
        SubInstruction::SetAuxAnm(number, script) => if number < 0 || number >= 8
            || number as int >= e.aux_anms.len() {
            halt(v, e, EclError::MalformedProgram)
        } else {
            fine(v, EnemyV { aux_anms: e.aux_anms.update(number as int, Some(script)), ..e })
        },
        SubInstruction::SetDeathAnim(idx) => fine(v, EnemyV { death_anim: idx, ..e }),
        SubInstruction::SetBossMode(x) => fine(v, EnemyV { boss: x >= 0, ..e }),
        SubInstruction::SetHitbox(w, h, _d) => fine(
            v,
            EnemyV { hitbox: Hitbox { width: w, height: h }, ..e },
        ),
        SubInstruction::SetCollidable(c) => fine(
            v,
            EnemyV { collidable: (c as int) % 2 != 0, ..e },
        ),
        SubInstruction::SetDamageable(d) => fine(
            v,
            EnemyV { damageable: (d as int) % 2 != 0, ..e },
        ),
        SubInstruction::PlaySound(idx) => ask(
            v,
            e,
            HostRequest::PlaySound { index: idx },
            Pending::Discard,
        ),
        SubInstruction::SetDeathFlags(fl) => fine(v, EnemyV { death_flags: fl, ..e }),
        SubInstruction::SetDeathCallback(sub) => fine(
            v,
            EnemyV { death_callback: Some(sub), ..e },
        ),
        SubInstruction::MemoryWriteInt(_a, _b) => halt(v, e, EclError::UnimplementedInstruction),
        SubInstruction::SetElapsedTime(x) => fine(v, EnemyV { frame: as_u32_wrapped(x), ..e }),
        SubInstruction::SetTouchable(t) => fine(v, EnemyV { touchable: t != 0, ..e }),
        SubInstruction::CallSpecialFunction(fnid, arg) => special_spec(v, e, fnid, arg),
        SubInstruction::SetSpecialFunctionCallback(fnid) => if fnid == 12 {
            fine(v, EnemyV { special_callback: Some(fnid), ..e })
        } else {
            halt(v, e, EclError::UnimplementedSpecialFunction)
        },
    }
}

/// What the host's answer does to a suspended tick: the continuation
/// recorded in the pending slot consumes the matching response variant;
/// any other variant is a protocol violation and fatal.
pub open spec fn apply_pending_spec(v: VmV, e: EnemyV, p: Pending, resp: HostResponse) -> (
    VmV,
    EnemyV,
    Result<(), EclError>,
) {
    match p {
        Pending::WriteFloat { var_id } => match resp {
            HostResponse::Float(f) => match write_float_spec(v.frame, e, var_id, f) {
                Ok(q) => (with_frame(v, q.0), q.1, Ok(())),
                Err(er) => (v, e, Err(er)),
            },
            _ => (v, e, Err(EclError::BadHostResponse)),
        },
        Pending::RandInt { var_id, max_ref, min_ref, has_min } => match resp {
            HostResponse::Word(w) => match read_int_spec(v.frame, e, max_ref) {
                Err(er) => (v, e, Err(er)),
                Ok(m) => if m == 0 {
                    (v, e, Err(EclError::DivisionByZero))
                } else {
                    let base = rem32_trunc(wrap32(w as int), m);
                    if has_min {
                        match read_int_spec(v.frame, e, min_ref) {
                            Err(er) => (v, e, Err(er)),
                            Ok(mn) => match write_int_spec(
                                v.frame,
                                e,
                                var_id,
                                wrap32(base + mn) as i32,
                            ) {
                                Ok(q) => (with_frame(v, q.0), q.1, Ok(())),
                                Err(er) => (v, e, Err(er)),
                            },
                        }
                    } else {
                        match write_int_spec(v.frame, e, var_id, base as i32) {
                            Ok(q) => (with_frame(v, q.0), q.1, Ok(())),
                            Err(er) => (v, e, Err(er)),
                        }
                    }
                },
            },
            _ => (v, e, Err(EclError::BadHostResponse)),
        },
        Pending::LaunchInterval { interval } => match resp {
            HostResponse::Word(w) => (
                v,
                EnemyV {
                    bullet_launch_interval: interval,
                    bullet_launch_timer: if interval > 0 {
                        ((w as int) % (interval as int)) as u32
                    } else {
                        0
                    },
                    ..e
                },
                Ok(()),
            ),
            _ => (v, e, Err(EclError::BadHostResponse)),
        },
        Pending::SetAngle => match resp {
            HostResponse::Float(f) => (v, EnemyV { angle: f, ..e }, Ok(())),
            _ => (v, e, Err(EclError::BadHostResponse)),
        },
        Pending::TargetSpeed { speed } => match resp {
            HostResponse::Float(f) => (
                v,
                EnemyV { update_mode: 0, speed, angle: f, ..e },
                Ok(()),
            ),
            _ => (v, e, Err(EclError::BadHostResponse)),
        },
        Pending::CountInto { var_id } => match resp {
            HostResponse::Int(n) => match write_int_spec(v.frame, e, var_id, n) {
                Ok(q) => (with_frame(v, q.0), q.1, Ok(())),
                Err(er) => (v, e, Err(er)),
            },
            _ => (v, e, Err(EclError::BadHostResponse)),
        },
        Pending::FloatSlot3 => match resp {
            HostResponse::Float(f) => (
                with_frame(v, StackFrame { floats: FRegs4 { f3: f, ..v.frame.floats }, ..v.frame }),
                e,
                Ok(()),
            ),
            _ => (v, e, Err(EclError::BadHostResponse)),
        },
        Pending::FloatSlots23 => match resp {
            HostResponse::Pair(a, b) => (
                with_frame(
                    v,
                    StackFrame { floats: FRegs4 { f2: a, f3: b, ..v.frame.floats }, ..v.frame },
                ),
                e,
                Ok(()),
            ),
            _ => (v, e, Err(EclError::BadHostResponse)),
        },
        Pending::Discard => match resp {
            HostResponse::Unit => (v, e, Ok(())),
            _ => (v, e, Err(EclError::BadHostResponse)),
        },
    }
}

/// The bookkeeping claim of [`lemma_step_pending`], shared by its
/// per-class pieces.
pub open spec fn step_pending_claim(v: VmV, e: EnemyV, instr: SubInstruction) -> bool {
    let s = step_spec(v, e, instr);
    &&& (s.2 matches Ok(f) && f is Need ==> s.0.pending is Some && s.0.running == v.running)
    &&& (s.2 matches Ok(f) && f is Done ==> s.0.pending == v.pending && s.0.running == v.running)
    &&& (s.2 is Err ==> s.0.pending == v.pending && s.0.running == v.running)
}

#[verifier::rlimit(100)]
#[verifier::spinoff_prover]
proof fn lemma_step_pending_c0(v: VmV, e: EnemyV, instr: SubInstruction)
    requires
        crate::runner::instr_class(instr) == 0,
    ensures
        step_pending_claim(v, e, instr),
{
}

#[verifier::rlimit(100)]
#[verifier::spinoff_prover]
proof fn lemma_step_pending_c1(v: VmV, e: EnemyV, instr: SubInstruction)
    requires
        crate::runner::instr_class(instr) == 1,
    ensures
        step_pending_claim(v, e, instr),
{
}

#[verifier::rlimit(100)]
#[verifier::spinoff_prover]
proof fn lemma_step_pending_c2(v: VmV, e: EnemyV, instr: SubInstruction)
    requires
        crate::runner::instr_class(instr) == 2,
    ensures
        step_pending_claim(v, e, instr),
{
}

#[verifier::rlimit(100)]
#[verifier::spinoff_prover]
proof fn lemma_step_pending_c4(v: VmV, e: EnemyV, instr: SubInstruction)
    requires
        crate::runner::instr_class(instr) == 4,
    ensures
        step_pending_claim(v, e, instr),
{
    reveal(bullet_attrs_spec);
}

#[verifier::rlimit(100)]
#[verifier::spinoff_prover]
proof fn lemma_step_pending_c3(v: VmV, e: EnemyV, instr: SubInstruction)
    requires
        crate::runner::instr_class(instr) == 3,
    ensures
        step_pending_claim(v, e, instr),
{
    reveal(bullet_attrs_spec);
    reveal(special_spec);
}

/// Bookkeeping of a step: a finished or failed step leaves the pending
/// slot and the running flag alone, and a suspended one records its
/// continuation.
pub proof fn lemma_step_pending(v: VmV, e: EnemyV, instr: SubInstruction)
    ensures
        step_pending_claim(v, e, instr),
{
    let c = crate::runner::instr_class(instr);
    if c == 0 {
        lemma_step_pending_c0(v, e, instr);
    } else if c == 1 {
        lemma_step_pending_c1(v, e, instr);
    } else if c == 2 {
        lemma_step_pending_c2(v, e, instr);
    } else if c == 4 {
        lemma_step_pending_c4(v, e, instr);
    } else {
        lemma_step_pending_c3(v, e, instr);
    }
}

/// The continuation side never touches the pending slot or the running
/// flag: those belong to the scheduler.
pub proof fn lemma_apply_keeps_flags(v: VmV, e: EnemyV, p: Pending, resp: HostResponse)
    ensures
        ({
            let a = apply_pending_spec(v, e, p, resp);
            a.0.pending == v.pending && a.0.running == v.running
        }),
{
}

} // verus!
