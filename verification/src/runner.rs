//! The interpreter: stack frames, the call stack, the variable-redirection
//! layer, the instruction dispatcher and the per-tick scheduler.
//!
//! A runner is bound to one starting subroutine and drives one entity.
//! Each call to [`EclRunner::run_frame`] advances simulated time by one
//! tick: it executes every due instruction of the current frame, then
//! increments the frame's virtual time. Work the core cannot do itself
//! (float arithmetic, PRNG draws, game-context effects) suspends the tick
//! with a [`HostRequest`]; the driver answers through
//! [`EclRunner::resume`] until the tick reports done.
//!
//! Every mutation is pinned down by the spec functions in this module:
//! the redirection layer by `read_int_spec` and friends, and each
//! instruction by `step_spec`, a function from machine state to machine
//! state that the dispatcher provably implements.

use vstd::prelude::*;

verus! {

use crate::arith::{wrap32, to_i32_wrapped, to_u32_wrapped, to_u16_wrapped, to_u8_wrapped,
    to_i16_wrapped, wrap_add_i32, wrap_sub_i32, wrap_mul_i32, div_i32_trunc, rem_i32_trunc};
use crate::enemy::{BulletAttributes, ExtendedAttributes, Offset, ScreenBox, Hitbox, SpriteSet};
use crate::fx32::fx_cmp;
use crate::host::{HostRequest, FloatOp};
use crate::prog::{SubInstruction, Ecl, CallSub};
use crate::host::HostResponse;
use crate::step::{apply_pending_spec, Flow, IntOp, step_spec, put_int, put_float, int_binop_spec, float_binop_spec,
    cond_call_spec, bullet_attrs_spec, special_spec, called, fine};
use crate::enemy::{Enemy, EnemyV};
use crate::fx32::{Fx32, fx_to_i32, fx_to_i32_spec, fx_of_i32, fx_of_i32_spec, fx_of_u32,
    fx_of_u32_spec};
use crate::host::EclError;

/// One bank of four general-purpose integer registers.
#[derive(Clone, Copy, PartialEq, Eq, Structural, Debug)]
pub struct Regs4 {
    pub r0: i32,
    pub r1: i32,
    pub r2: i32,
    pub r3: i32,
}

impl Regs4 {
    pub fn zero() -> (r: Regs4)
        ensures
            r == (Regs4 { r0: 0, r1: 0, r2: 0, r3: 0 }),
    {
        Regs4 { r0: 0, r1: 0, r2: 0, r3: 0 }
    }
}

/// The bank of four general-purpose float registers, as bit patterns.
#[derive(Clone, Copy, PartialEq, Eq, Structural, Debug)]
pub struct FRegs4 {
    pub f0: Fx32,
    pub f1: Fx32,
    pub f2: Fx32,
    pub f3: Fx32,
}

impl FRegs4 {
    pub fn zero() -> (r: FRegs4)
        ensures
            r == zero_fregs(),
    {
        FRegs4 {
            f0: Fx32 { bits: 0 },
            f1: Fx32 { bits: 0 },
            f2: Fx32 { bits: 0 },
            f3: Fx32 { bits: 0 },
        }
    }
}

pub open spec fn zero_fregs() -> FRegs4 {
    FRegs4 { f0: Fx32 { bits: 0 }, f1: Fx32 { bits: 0 }, f2: Fx32 { bits: 0 }, f3: Fx32 { bits: 0 } }
}

/// One execution context: virtual time, instruction pointer, the three
/// register banks, the comparison flag and the subroutine being run.
#[derive(Clone, Copy, PartialEq, Eq, Structural, Debug)]
pub struct StackFrame {
    /// Virtual time of this frame; instructions are gated on it.
    pub frame: i32,
    /// Index of the next instruction within the subroutine.
    pub ip: i32,
    /// First integer register bank; `r0` receives a call's first argument.
    pub ints1: Regs4,
    /// Float registers; `f0` receives a call's second argument.
    pub floats: FRegs4,
    /// Second integer register bank.
    pub ints2: Regs4,
    /// Set by the compare instructions to -1, 0 or 1.
    pub comparison_reg: i32,
    /// The subroutine this frame executes.
    pub sub: u16,
}

/// The frame a fresh runner, or a call, enters a subroutine with: both
/// arguments placed, everything else zeroed.
pub open spec fn entry_frame(sub: u16, arg1: i32, arg2: Fx32) -> StackFrame {
    StackFrame {
        frame: 0,
        ip: 0,
        ints1: Regs4 { r0: arg1, r1: 0, r2: 0, r3: 0 },
        floats: FRegs4 { f0: arg2, f1: Fx32 { bits: 0 }, f2: Fx32 { bits: 0 }, f3: Fx32 { bits: 0 } },
        ints2: Regs4 { r0: 0, r1: 0, r2: 0, r3: 0 },
        comparison_reg: 0,
        sub,
    }
}

/// Builds [`entry_frame`] in executable code.
pub fn make_entry_frame(sub: u16, arg1: i32, arg2: Fx32) -> (r: StackFrame)
    ensures
        r == entry_frame(sub, arg1, arg2),
{
    StackFrame {
        frame: 0,
        ip: 0,
        ints1: Regs4 { r0: arg1, r1: 0, r2: 0, r3: 0 },
        floats: FRegs4 {
            f0: arg2,
            f1: Fx32 { bits: 0 },
            f2: Fx32 { bits: 0 },
            f3: Fx32 { bits: 0 },
        },
        ints2: Regs4 { r0: 0, r1: 0, r2: 0, r3: 0 },
        comparison_reg: 0,
        sub,
    }
}

/// What remains to be done with the host's answer when a tick suspended
/// mid-instruction.
#[derive(Clone, Copy, PartialEq, Eq, Structural, Debug)]
pub enum Pending {
    /// Write the answered float through the redirection layer.
    WriteFloat { var_id: i32 },
    /// Finish a random-integer instruction: reduce the answered word
    /// modulo the integer at `max_ref` (plus the integer at `min_ref`
    /// when `has_min`) and write it to `var_id`.
    RandInt { var_id: i32, max_ref: i32, min_ref: i32, has_min: bool },
    /// Finish the randomised launch-interval instruction with the
    /// answered word as initial phase.
    LaunchInterval { interval: i32 },
    /// Store the answered float as the entity's angle.
    SetAngle,
    /// Finish aiming at the player: reset the interpolation mode, set the
    /// held speed, and store the answered angle.
    TargetSpeed { speed: Fx32 },
    /// Write the answered bullet count to `var_id`.
    CountInto { var_id: i32 },
    /// Store the answered float in the fourth float register.
    FloatSlot3,
    /// Store the answered pair in the third and fourth float registers.
    FloatSlots23,
    /// The answer carries no data; the instruction is already complete.
    Discard,
}

/// Interpreter for one enemy's behaviour script.
#[derive(Clone, Debug)]
pub struct EclRunner {
    /// False once the instruction stream ended or an error stopped the
    /// runner.
    pub running: bool,
    /// The current execution context.
    pub frame: StackFrame,
    /// Suspended caller frames.
    pub stack: Vec<StackFrame>,
    /// What the outstanding host request's answer is for, while a tick is
    /// suspended.
    pub pending: Option<Pending>,
    /// The fatal error that stopped the runner, if one did; distinguishes
    /// a failed stop from clean exhaustion of the instruction stream.
    pub error: Option<EclError>,
}

/// Mathematical view of a runner: the call stack as a sequence.
pub ghost struct VmV {
    pub running: bool,
    pub frame: StackFrame,
    pub stack: Seq<StackFrame>,
    pub pending: Option<Pending>,
    pub error: Option<EclError>,
}

impl View for EclRunner {
    type V = VmV;

    open spec fn view(&self) -> VmV {
        VmV {
            running: self.running,
            frame: self.frame,
            stack: self.stack@,
            pending: self.pending,
            error: self.error,
        }
    }
}

/// Spec-level view of a `Result` carrying an `i32`.
pub open spec fn res_int(r: Result<i32, EclError>) -> Result<int, EclError> {
    match r {
        Ok(v) => Ok(v as int),
        Err(e) => Err(e),
    }
}

/// Spec-level view of a `Result` carrying float bits.
pub open spec fn res_fx(r: Result<Fx32, EclError>) -> Result<int, EclError> {
    match r {
        Ok(v) => Ok(v.bits as int),
        Err(e) => Err(e),
    }
}

/// The unsigned 32-bit reinterpretation of a signed value.
pub open spec fn as_u32_wrapped(v: i32) -> u32 {
    ((v as int) % 0x1_0000_0000) as u32
}

/// First bit pattern of the float sentinel range (the encoding of the
/// reference to the first integer register).
pub const FLOAT_VAR_BASE: u32 = 0xC61C_4400;

/// Last bit pattern of the float sentinel range.
pub const FLOAT_VAR_LAST: u32 = 0xC61C_A400;

/// Whether a float operand's bit pattern denotes a variable reference:
/// the encodings of the 25 sentinel values, consecutive at a spacing of
/// 0x400 (one unit in the last place at that exponent).
pub open spec fn is_float_sentinel(b: u32) -> bool {
    0xC61C_4400 <= b <= 0xC61C_A400 && (b - 0xC61C_4400) % 0x400 == 0
}

/// The integer variable id a sentinel float operand denotes.
pub open spec fn float_sentinel_var(b: u32) -> int {
    -10001 - ((b - 0xC61C_4400) as int) / 0x400
}

/// Whether an integer operand denotes a variable reference.
pub open spec fn is_int_sentinel(var: i32) -> bool {
    -10025 <= var <= -10001
}

/// The redirection layer's integer read: registers and readable entity
/// fields resolve to their values (float slots truncate), sentinels
/// without a mapping fail, and everything outside the sentinel range is a
/// literal.
#[verifier::opaque]
pub open spec fn read_int_spec(fr: StackFrame, en: EnemyV, var: i32) -> Result<int, EclError> {
    if var == -10001 {
        Ok(fr.ints1.r0 as int)
    } else if var == -10002 {
        Ok(fr.ints1.r1 as int)
    } else if var == -10003 {
        Ok(fr.ints1.r2 as int)
    } else if var == -10004 {
        Ok(fr.ints1.r3 as int)
    } else if var == -10005 {
        Ok(fx_to_i32_spec(fr.floats.f0.bits))
    } else if var == -10006 {
        Ok(fx_to_i32_spec(fr.floats.f1.bits))
    } else if var == -10007 {
        Ok(fx_to_i32_spec(fr.floats.f2.bits))
    } else if var == -10008 {
        Ok(fx_to_i32_spec(fr.floats.f3.bits))
    } else if var == -10009 {
        Ok(fr.ints2.r0 as int)
    } else if var == -10010 {
        Ok(fr.ints2.r1 as int)
    } else if var == -10011 {
        Ok(fr.ints2.r2 as int)
    } else if var == -10012 {
        Ok(fr.ints2.r3 as int)
    } else if var == -10013 {
        Ok(en.rank as int)
    } else if var == -10014 {
        Ok(en.difficulty as int)
    } else if var == -10015 {
        Ok(fx_to_i32_spec(en.pos.x.bits))
    } else if var == -10016 {
        Ok(fx_to_i32_spec(en.pos.y.bits))
    } else if var == -10017 {
        Ok(fx_to_i32_spec(en.z.bits))
    } else if var == -10022 {
        Ok(wrap32(en.frame as int))
    } else if var == -10024 {
        Ok(wrap32(en.life as int))
    } else if is_int_sentinel(var) {
        Err(EclError::UnknownVariable)
    } else {
        Ok(var as int)
    }
}

/// The redirection layer's integer write. Slots that exist but take no
/// integer write (float registers, positions, rank, difficulty) fail as
/// unsupported; unmapped sentinels and literals fail as unknown.
#[verifier::opaque]
pub open spec fn write_int_spec(fr: StackFrame, en: EnemyV, var: i32, value: i32) -> Result<
    (StackFrame, EnemyV),
    EclError,
> {
    if var == -10001 {
        Ok((StackFrame { ints1: Regs4 { r0: value, ..fr.ints1 }, ..fr }, en))
    } else if var == -10002 {
        Ok((StackFrame { ints1: Regs4 { r1: value, ..fr.ints1 }, ..fr }, en))
    } else if var == -10003 {
        Ok((StackFrame { ints1: Regs4 { r2: value, ..fr.ints1 }, ..fr }, en))
    } else if var == -10004 {
        Ok((StackFrame { ints1: Regs4 { r3: value, ..fr.ints1 }, ..fr }, en))
    } else if var == -10009 {
        Ok((StackFrame { ints2: Regs4 { r0: value, ..fr.ints2 }, ..fr }, en))
    } else if var == -10010 {
        Ok((StackFrame { ints2: Regs4 { r1: value, ..fr.ints2 }, ..fr }, en))
    } else if var == -10011 {
        Ok((StackFrame { ints2: Regs4 { r2: value, ..fr.ints2 }, ..fr }, en))
    } else if var == -10012 {
        Ok((StackFrame { ints2: Regs4 { r3: value, ..fr.ints2 }, ..fr }, en))
    } else if var == -10022 {
        Ok((fr, EnemyV { frame: as_u32_wrapped(value), ..en }))
    } else if var == -10024 {
        Ok((fr, EnemyV { life: as_u32_wrapped(value), ..en }))
    } else if var == -10005 || var == -10006 || var == -10007 || var == -10008 || var == -10013
        || var == -10014 || var == -10015 || var == -10016 || var == -10017 {
        Err(EclError::UnsupportedVariable)
    } else {
        Err(EclError::UnknownVariable)
    }
}

/// The redirection layer's float read of a sentinel slot: float registers
/// resolve directly, integer slots convert, and unmapped sentinels fail.
#[verifier::opaque]
pub open spec fn read_float_slot_spec(fr: StackFrame, en: EnemyV, var: int) -> Result<
    int,
    EclError,
> {
    if var == -10001 {
        Ok(fx_of_i32_spec(fr.ints1.r0))
    } else if var == -10002 {
        Ok(fx_of_i32_spec(fr.ints1.r1))
    } else if var == -10003 {
        Ok(fx_of_i32_spec(fr.ints1.r2))
    } else if var == -10004 {
        Ok(fx_of_i32_spec(fr.ints1.r3))
    } else if var == -10005 {
        Ok(fr.floats.f0.bits as int)
    } else if var == -10006 {
        Ok(fr.floats.f1.bits as int)
    } else if var == -10007 {
        Ok(fr.floats.f2.bits as int)
    } else if var == -10008 {
        Ok(fr.floats.f3.bits as int)
    } else if var == -10009 {
        Ok(fx_of_i32_spec(fr.ints2.r0))
    } else if var == -10010 {
        Ok(fx_of_i32_spec(fr.ints2.r1))
    } else if var == -10011 {
        Ok(fx_of_i32_spec(fr.ints2.r2))
    } else if var == -10012 {
        Ok(fx_of_i32_spec(fr.ints2.r3))
    } else if var == -10013 {
        Ok(fx_of_u32_spec(en.rank as u32))
    } else if var == -10014 {
        Ok(fx_of_i32_spec(en.difficulty))
    } else if var == -10015 {
        Ok(en.pos.x.bits as int)
    } else if var == -10016 {
        Ok(en.pos.y.bits as int)
    } else if var == -10017 {
        Ok(en.z.bits as int)
    } else if var == -10022 {
        Ok(fx_of_u32_spec(en.frame))
    } else if var == -10024 {
        Ok(fx_of_u32_spec(en.life))
    } else {
        Err(EclError::UnknownVariable)
    }
}

/// Float read of a float-typed operand: a sentinel bit pattern resolves
/// through the slot table, anything else is the literal itself.
pub open spec fn read_float_op_spec(fr: StackFrame, en: EnemyV, op: Fx32) -> Result<int, EclError> {
    if is_float_sentinel(op.bits) {
        read_float_slot_spec(fr, en, float_sentinel_var(op.bits))
    } else {
        Ok(op.bits as int)
    }
}

/// Float read of an integer-typed variable id (instructions that name
/// their float target by id): sentinels resolve through the slot table;
/// any other id reads as the float encoding of the id itself, exactly as
/// the engine's id-to-float widening behaves.
pub open spec fn read_float_var_spec(fr: StackFrame, en: EnemyV, var: i32) -> Result<
    int,
    EclError,
> {
    if is_int_sentinel(var) {
        read_float_slot_spec(fr, en, var as int)
    } else {
        Ok(fx_of_i32_spec(var))
    }
}

/// The redirection layer's float write: float registers and the position
/// take the value; integer registers, timers and life take no float
/// write; unmapped sentinels and literals fail as unknown.
#[verifier::opaque]
pub open spec fn write_float_spec(fr: StackFrame, en: EnemyV, var: i32, value: Fx32) -> Result<
    (StackFrame, EnemyV),
    EclError,
> {
    if var == -10005 {
        Ok((StackFrame { floats: FRegs4 { f0: value, ..fr.floats }, ..fr }, en))
    } else if var == -10006 {
        Ok((StackFrame { floats: FRegs4 { f1: value, ..fr.floats }, ..fr }, en))
    } else if var == -10007 {
        Ok((StackFrame { floats: FRegs4 { f2: value, ..fr.floats }, ..fr }, en))
    } else if var == -10008 {
        Ok((StackFrame { floats: FRegs4 { f3: value, ..fr.floats }, ..fr }, en))
    } else if var == -10015 {
        Ok((fr, EnemyV { pos: crate::enemy::Position { x: value, ..en.pos }, ..en }))
    } else if var == -10016 {
        Ok((fr, EnemyV { pos: crate::enemy::Position { y: value, ..en.pos }, ..en }))
    } else if var == -10017 {
        Ok((fr, EnemyV { z: value, ..en }))
    } else if var == -10001 || var == -10002 || var == -10003 || var == -10004 || var == -10009
        || var == -10010 || var == -10011 || var == -10012 || var == -10013 || var == -10014
        || var == -10022 || var == -10024 {
        Err(EclError::UnsupportedVariable)
    } else {
        Err(EclError::UnknownVariable)
    }
}

/// The machine with another current frame, all else equal.
pub open spec fn with_frame(v: VmV, fr: StackFrame) -> VmV {
    VmV { frame: fr, ..v }
}

/// Relation of a redirection-layer write: on success the frame and entity
/// take the written values; on an error nothing changes.
pub open spec fn set_rel(
    w: Result<(StackFrame, EnemyV), EclError>,
    r0: VmV,
    e0: EnemyV,
    r1: VmV,
    e1: EnemyV,
    res: Result<(), EclError>,
) -> bool {
    match w {
        Ok(p) => res is Ok && r1 == with_frame(r0, p.0) && e1 == p.1,
        Err(e) => res == Err::<(), EclError>(e) && r1 == r0 && e1 == e0,
    }
}

impl EclRunner {
    /// A runner bound to its starting subroutine, ready for its first tick.
    pub fn new(sub: u16) -> (r: EclRunner)
        ensures
            r.running,
            r.frame == entry_frame(sub, 0, Fx32 { bits: 0 }),
            r.stack@.len() == 0,
            r.pending is None,
            r.error is None,
    {
        EclRunner {
            running: true,
            frame: make_entry_frame(sub, 0, Fx32 { bits: 0 }),
            stack: Vec::new(),
            pending: None,
            error: None,
        }
    }

    /// Integer read through the redirection layer.
    pub fn get_i32(&self, enemy: &Enemy, var: i32) -> (r: Result<i32, EclError>)
        ensures
            res_int(r) == read_int_spec(self.frame, enemy@, var),
    {
        proof {
            reveal(read_int_spec);
        }
        if var == -10001 {
            Ok(self.frame.ints1.r0)
        } else if var == -10002 {
            Ok(self.frame.ints1.r1)
        } else if var == -10003 {
            Ok(self.frame.ints1.r2)
        } else if var == -10004 {
            Ok(self.frame.ints1.r3)
        } else if var == -10005 {
            Ok(fx_to_i32(self.frame.floats.f0))
        } else if var == -10006 {
            Ok(fx_to_i32(self.frame.floats.f1))
        } else if var == -10007 {
            Ok(fx_to_i32(self.frame.floats.f2))
        } else if var == -10008 {
            Ok(fx_to_i32(self.frame.floats.f3))
        } else if var == -10009 {
            Ok(self.frame.ints2.r0)
        } else if var == -10010 {
            Ok(self.frame.ints2.r1)
        } else if var == -10011 {
            Ok(self.frame.ints2.r2)
        } else if var == -10012 {
            Ok(self.frame.ints2.r3)
        } else if var == -10013 {
            Ok(enemy.rank as i32)
        } else if var == -10014 {
            Ok(enemy.difficulty)
        } else if var == -10015 {
            Ok(fx_to_i32(enemy.pos.x))
        } else if var == -10016 {
            Ok(fx_to_i32(enemy.pos.y))
        } else if var == -10017 {
            Ok(fx_to_i32(enemy.z))
        } else if var == -10022 {
            Ok(to_i32_wrapped(enemy.frame))
        } else if var == -10024 {
            Ok(to_i32_wrapped(enemy.life))
        } else if var >= -10025 && var <= -10001 {
            Err(EclError::UnknownVariable)
        } else {
            Ok(var)
        }
    }

    /// Integer write through the redirection layer.
    pub fn set_i32(&mut self, enemy: &mut Enemy, var: i32, value: i32) -> (res: Result<
        (),
        EclError,
    >)
        ensures
            set_rel(
                write_int_spec(old(self).frame, old(enemy)@, var, value),
                old(self)@,
                old(enemy)@,
                final(self)@,
                final(enemy)@,
                res,
            ),
    {
        proof {
            reveal(write_int_spec);
        }
        if var == -10001 {
            self.frame.ints1.r0 = value;
            Ok(())
        } else if var == -10002 {
            self.frame.ints1.r1 = value;
            Ok(())
        } else if var == -10003 {
            self.frame.ints1.r2 = value;
            Ok(())
        } else if var == -10004 {
            self.frame.ints1.r3 = value;
            Ok(())
        } else if var == -10009 {
            self.frame.ints2.r0 = value;
            Ok(())
        } else if var == -10010 {
            self.frame.ints2.r1 = value;
            Ok(())
        } else if var == -10011 {
            self.frame.ints2.r2 = value;
            Ok(())
        } else if var == -10012 {
            self.frame.ints2.r3 = value;
            Ok(())
        } else if var == -10022 {
            enemy.frame = to_u32_wrapped(value);
            Ok(())
        } else if var == -10024 {
            enemy.life = to_u32_wrapped(value);
            Ok(())
        } else if var == -10005 || var == -10006 || var == -10007 || var == -10008 || var == -10013
            || var == -10014 || var == -10015 || var == -10016 || var == -10017 {
            Err(EclError::UnsupportedVariable)
        } else {
            Err(EclError::UnknownVariable)
        }
    }

    /// Float read of a float-typed operand.
    pub fn get_f32(&self, enemy: &Enemy, op: Fx32) -> (r: Result<Fx32, EclError>)
        ensures
            res_fx(r) == read_float_op_spec(self.frame, enemy@, op),
    {
        let b: u32 = op.bits;
        if b >= FLOAT_VAR_BASE && b <= FLOAT_VAR_LAST && (b - FLOAT_VAR_BASE) % 0x400 == 0 {
            let idx: u32 = (b - FLOAT_VAR_BASE) / 0x400;
            let var: i32 = -10001 - (idx as i32);
            self.read_float_slot(enemy, var)
        } else {
            Ok(op)
        }
    }

    /// Float read of an integer-typed variable id.
    pub fn get_f32_var(&self, enemy: &Enemy, var: i32) -> (r: Result<Fx32, EclError>)
        ensures
            res_fx(r) == read_float_var_spec(self.frame, enemy@, var),
    {
        if var >= -10025 && var <= -10001 {
            self.read_float_slot(enemy, var)
        } else {
            Ok(fx_of_i32(var))
        }
    }

    /// Resolves a sentinel slot to its float value.
    fn read_float_slot(&self, enemy: &Enemy, var: i32) -> (r: Result<Fx32, EclError>)
        requires
            -10025 <= var <= -10001,
        ensures
            res_fx(r) == read_float_slot_spec(self.frame, enemy@, var as int),
    {
        proof {
            reveal(read_float_slot_spec);
        }
        if var == -10001 {
            Ok(fx_of_i32(self.frame.ints1.r0))
        } else if var == -10002 {
            Ok(fx_of_i32(self.frame.ints1.r1))
        } else if var == -10003 {
            Ok(fx_of_i32(self.frame.ints1.r2))
        } else if var == -10004 {
            Ok(fx_of_i32(self.frame.ints1.r3))
        } else if var == -10005 {
            Ok(self.frame.floats.f0)
        } else if var == -10006 {
            Ok(self.frame.floats.f1)
        } else if var == -10007 {
            Ok(self.frame.floats.f2)
        } else if var == -10008 {
            Ok(self.frame.floats.f3)
        } else if var == -10009 {
            Ok(fx_of_i32(self.frame.ints2.r0))
        } else if var == -10010 {
            Ok(fx_of_i32(self.frame.ints2.r1))
        } else if var == -10011 {
            Ok(fx_of_i32(self.frame.ints2.r2))
        } else if var == -10012 {
            Ok(fx_of_i32(self.frame.ints2.r3))
        } else if var == -10013 {
            Ok(fx_of_u32(enemy.rank as u32))
        } else if var == -10014 {
            Ok(fx_of_i32(enemy.difficulty))
        } else if var == -10015 {
            Ok(enemy.pos.x)
        } else if var == -10016 {
            Ok(enemy.pos.y)
        } else if var == -10017 {
            Ok(enemy.z)
        } else if var == -10022 {
            Ok(fx_of_u32(enemy.frame))
        } else if var == -10024 {
            Ok(fx_of_u32(enemy.life))
        } else {
            Err(EclError::UnknownVariable)
        }
    }

    /// Float write through the redirection layer.
    pub fn set_f32(&mut self, enemy: &mut Enemy, var: i32, value: Fx32) -> (res: Result<
        (),
        EclError,
    >)
        ensures
            set_rel(
                write_float_spec(old(self).frame, old(enemy)@, var, value),
                old(self)@,
                old(enemy)@,
                final(self)@,
                final(enemy)@,
                res,
            ),
    {
        proof {
            reveal(write_float_spec);
        }
        if var == -10005 {
            self.frame.floats.f0 = value;
            Ok(())
        } else if var == -10006 {
            self.frame.floats.f1 = value;
            Ok(())
        } else if var == -10007 {
            self.frame.floats.f2 = value;
            Ok(())
        } else if var == -10008 {
            self.frame.floats.f3 = value;
            Ok(())
        } else if var == -10015 {
            enemy.pos.x = value;
            Ok(())
        } else if var == -10016 {
            enemy.pos.y = value;
            Ok(())
        } else if var == -10017 {
            enemy.z = value;
            Ok(())
        } else if var == -10001 || var == -10002 || var == -10003 || var == -10004 || var == -10009
            || var == -10010 || var == -10011 || var == -10012 || var == -10013 || var == -10014
            || var == -10022 || var == -10024 {
            Err(EclError::UnsupportedVariable)
        } else {
            Err(EclError::UnknownVariable)
        }
    }
}


/// The dispatcher is verified in four quarters; this assigns every
/// instruction its quarter.
pub open spec fn instr_class(instr: SubInstruction) -> int {
    match instr {
        SubInstruction::Noop() => 0,
        SubInstruction::Destroy(..) => 0,
        SubInstruction::RelativeJump(..) => 0,
        SubInstruction::RelativeJumpEx(..) => 0,
        SubInstruction::SetInt(..) => 0,
        SubInstruction::SetFloat(..) => 0,
        SubInstruction::SetRandomInt(..) => 0,
        SubInstruction::SetRandomIntMin(..) => 0,
        SubInstruction::SetRandomFloat(..) => 0,
        SubInstruction::SetRandomFloatMin(..) => 0,
        SubInstruction::StoreX(..) => 0,
        SubInstruction::StoreY(..) => 0,
        SubInstruction::StoreZ(..) => 0,
        SubInstruction::AddInt(..) => 0,
        SubInstruction::AddFloat(..) => 0,
        SubInstruction::SubstractInt(..) => 0,
        SubInstruction::SubstractFloat(..) => 0,
        SubInstruction::MultiplyInt(..) => 0,
        SubInstruction::DivideInt(..) => 0,
        SubInstruction::DivideFloat(..) => 0,
        SubInstruction::ModuloInt(..) => 0,
        SubInstruction::ModuloFloat(..) => 0,
        SubInstruction::Increment(..) => 0,
        SubInstruction::Decrement(..) => 0,
        SubInstruction::GetDirection(..) => 1,
        SubInstruction::FloatToUnitCircle(..) => 1,
        SubInstruction::CompareInts(..) => 1,
        SubInstruction::CompareFloats(..) => 1,
        SubInstruction::RelativeJumpIfLowerThan(..) => 1,
        SubInstruction::RelativeJumpIfLowerOrEqual(..) => 1,
        SubInstruction::RelativeJumpIfEqual(..) => 1,
        SubInstruction::RelativeJumpIfGreaterThan(..) => 1,
        SubInstruction::RelativeJumpIfGreaterOrEqual(..) => 1,
        SubInstruction::RelativeJumpIfNotEqual(..) => 1,
        SubInstruction::Call(..) => 1,
        SubInstruction::Return() => 1,
        SubInstruction::CallIfSuperior(..) => 1,
        SubInstruction::CallIfSuperiorOrEqual(..) => 1,
        SubInstruction::CallIfEqual(..) => 1,
        SubInstruction::CallIfInferior(..) => 1,
        SubInstruction::CallIfInferiorOrEqual(..) => 1,
        SubInstruction::CallIfNotEqual(..) => 1,
        SubInstruction::SetPosition(..) => 2,
        SubInstruction::SetAngleAndSpeed(..) => 2,
        SubInstruction::SetRotationSpeed(..) => 2,
        SubInstruction::SetSpeed(..) => 2,
        SubInstruction::SetAcceleration(..) => 2,
        SubInstruction::SetRandomAngle(..) => 2,
        SubInstruction::TargetPlayer(..) => 2,
        SubInstruction::SetScreenBox(..) => 2,
        SubInstruction::ClearScreenBox() => 2,
        SubInstruction::SetBulletAttributes1(..) => 4,
        SubInstruction::SetBulletAttributes2(..) => 4,
        SubInstruction::SetBulletAttributes3(..) => 4,
        SubInstruction::SetBulletAttributes4(..) => 4,
        SubInstruction::SetBulletAttributes5(..) => 4,
        SubInstruction::SetBulletAttributes6(..) => 4,
        SubInstruction::SetBulletAttributes7(..) => 4,
        SubInstruction::SetBulletInterval(..) => 4,
        SubInstruction::SetBulletIntervalEx(..) => 4,
        SubInstruction::DelayAttack() => 4,
        SubInstruction::NoDelayAttack() => 4,
        SubInstruction::SetBulletLaunchOffset(..) => 4,
        _ => 3,
    }
}

/// Executable form of [`instr_class`].
fn instr_class_exec(instr: &SubInstruction) -> (r: u8)
    ensures
        r as int == instr_class(*instr),
{
    match *instr {
        SubInstruction::Noop() | SubInstruction::Destroy(..) | SubInstruction::RelativeJump(..)
            | SubInstruction::RelativeJumpEx(..) | SubInstruction::SetInt(..)
            | SubInstruction::SetFloat(..) | SubInstruction::SetRandomInt(..)
            | SubInstruction::SetRandomIntMin(..) | SubInstruction::SetRandomFloat(..)
            | SubInstruction::SetRandomFloatMin(..) | SubInstruction::StoreX(..)
            | SubInstruction::StoreY(..) | SubInstruction::StoreZ(..)
            | SubInstruction::AddInt(..) | SubInstruction::AddFloat(..)
            | SubInstruction::SubstractInt(..) | SubInstruction::SubstractFloat(..)
            | SubInstruction::MultiplyInt(..) | SubInstruction::DivideInt(..)
            | SubInstruction::DivideFloat(..) | SubInstruction::ModuloInt(..)
            | SubInstruction::ModuloFloat(..) | SubInstruction::Increment(..)
            | SubInstruction::Decrement(..) => 0,
        SubInstruction::GetDirection(..) | SubInstruction::FloatToUnitCircle(..)
            | SubInstruction::CompareInts(..) | SubInstruction::CompareFloats(..)
            | SubInstruction::RelativeJumpIfLowerThan(..)
            | SubInstruction::RelativeJumpIfLowerOrEqual(..)
            | SubInstruction::RelativeJumpIfEqual(..)
            | SubInstruction::RelativeJumpIfGreaterThan(..)
            | SubInstruction::RelativeJumpIfGreaterOrEqual(..)
            | SubInstruction::RelativeJumpIfNotEqual(..) | SubInstruction::Call(..)
            | SubInstruction::Return() | SubInstruction::CallIfSuperior(..)
            | SubInstruction::CallIfSuperiorOrEqual(..) | SubInstruction::CallIfEqual(..)
            | SubInstruction::CallIfInferior(..) | SubInstruction::CallIfInferiorOrEqual(..)
            | SubInstruction::CallIfNotEqual(..) => 1,
        SubInstruction::SetPosition(..) | SubInstruction::SetAngleAndSpeed(..)
            | SubInstruction::SetRotationSpeed(..) | SubInstruction::SetSpeed(..)
            | SubInstruction::SetAcceleration(..) | SubInstruction::SetRandomAngle(..)
            | SubInstruction::TargetPlayer(..) | SubInstruction::SetScreenBox(..)
            | SubInstruction::ClearScreenBox() => 2,
        SubInstruction::SetBulletAttributes1(..) | SubInstruction::SetBulletAttributes2(..)
            | SubInstruction::SetBulletAttributes3(..) | SubInstruction::SetBulletAttributes4(..)
            | SubInstruction::SetBulletAttributes5(..) | SubInstruction::SetBulletAttributes6(..)
            | SubInstruction::SetBulletAttributes7(..) | SubInstruction::SetBulletInterval(..)
            | SubInstruction::SetBulletIntervalEx(..) | SubInstruction::DelayAttack()
            | SubInstruction::NoDelayAttack() | SubInstruction::SetBulletLaunchOffset(..) => 4,
        _ => 3,
    }
}

impl EclRunner {
    /// Wrapping write of an integer result, as [`crate::step::put_int`].
    fn do_put_int(&mut self, enemy: &mut Enemy, var: i32, val: i32) -> (r: Result<Flow, EclError>)
        ensures
            ({
                let s = put_int(old(self)@, old(enemy)@, var, val);
                final(self)@ == s.0 && final(enemy)@ == s.1 && r == s.2
            }),
    {
        match self.set_i32(enemy, var, val) {
            Ok(()) => Ok(Flow::Done),
            Err(er) => Err(er),
        }
    }

    /// Write of a float result, as [`crate::step::put_float`].
    fn do_put_float(&mut self, enemy: &mut Enemy, var: i32, val: Fx32) -> (r: Result<
        Flow,
        EclError,
    >)
        ensures
            ({
                let s = put_float(old(self)@, old(enemy)@, var, val);
                final(self)@ == s.0 && final(enemy)@ == s.1 && r == s.2
            }),
    {
        match self.set_f32(enemy, var, val) {
            Ok(()) => Ok(Flow::Done),
            Err(er) => Err(er),
        }
    }

    /// One integer arithmetic instruction.
    fn do_int_binop(&mut self, enemy: &mut Enemy, var: i32, a: i32, b: i32, op: IntOp) -> (r:
        Result<Flow, EclError>)
        ensures
            ({
                let s = int_binop_spec(old(self)@, old(enemy)@, var, a, b, op);
                final(self)@ == s.0 && final(enemy)@ == s.1 && r == s.2
            }),
    {
        let av: i32 = match self.get_i32(enemy, a) {
            Ok(x) => x,
            Err(er) => {
                return Err(er);
            },
        };
        let bv: i32 = match self.get_i32(enemy, b) {
            Ok(x) => x,
            Err(er) => {
                return Err(er);
            },
        };
        let val: i32 = match op {
            IntOp::Add => wrap_add_i32(av, bv),
            IntOp::Sub => wrap_sub_i32(av, bv),
            IntOp::Mul => wrap_mul_i32(av, bv),
            IntOp::Div => {
                if bv == 0 {
                    return Err(EclError::DivisionByZero);
                }
                div_i32_trunc(av, bv)
            },
            IntOp::Rem => {
                if bv == 0 {
                    return Err(EclError::DivisionByZero);
                }
                rem_i32_trunc(av, bv)
            },
        };
        self.do_put_int(enemy, var, val)
    }

    /// One float arithmetic instruction: operands resolved here, the
    /// operation delegated to the host.
    fn do_float_binop(&mut self, enemy: &mut Enemy, var: i32, a: Fx32, b: Fx32, op: FloatOp) -> (r:
        Result<Flow, EclError>)
        ensures
            ({
                let s = float_binop_spec(old(self)@, old(enemy)@, var, a, b, op);
                final(self)@ == s.0 && final(enemy)@ == s.1 && r == s.2
            }),
    {
        let av: Fx32 = match self.get_f32(enemy, a) {
            Ok(x) => x,
            Err(er) => {
                return Err(er);
            },
        };
        let bv: Fx32 = match self.get_f32(enemy, b) {
            Ok(x) => x,
            Err(er) => {
                return Err(er);
            },
        };
        self.pending = Some(Pending::WriteFloat { var_id: var });
        Ok(Flow::Need(HostRequest::Arith(op, av, bv)))
    }

    /// The unconditional call transfer.
    fn do_call(&mut self, sub: i32, a1: i32, a2: Fx32) -> (r: Result<Flow, EclError>)
        ensures
            final(self)@ == called(old(self)@, sub, a1, a2),
            final(self).frame == entry_frame(crate::arith::as_u16_wrapped(sub as int), a1, a2),
            r == Ok::<Flow, EclError>(Flow::Done),
    {
        let fr: StackFrame = self.frame;
        self.stack.push(fr);
        self.frame = make_entry_frame(to_u16_wrapped(sub), a1, a2);
        Ok(Flow::Done)
    }

    /// A conditional call.
    fn do_cond_call(
        &mut self,
        enemy: &mut Enemy,
        sub: i32,
        a1: i32,
        a2: Fx32,
        a: i32,
        b: i32,
        op: IntOp,
    ) -> (r: Result<Flow, EclError>)
        ensures
            ({
                let s = cond_call_spec(old(self)@, old(enemy)@, sub, a1, a2, a, b, op);
                final(self)@ == s.0 && final(enemy)@ == s.1 && r == s.2
            }),
    {
        let av: i32 = match self.get_i32(enemy, a) {
            Ok(x) => x,
            Err(er) => {
                return Err(er);
            },
        };
        let bv: i32 = match self.get_i32(enemy, b) {
            Ok(x) => x,
            Err(er) => {
                return Err(er);
            },
        };
        let taken: bool = match op {
            IntOp::Add => av < bv,
            IntOp::Sub => av <= bv,
            IntOp::Mul => av == bv,
            IntOp::Div => bv < av,
            IntOp::Rem => bv <= av,
        };
        if taken {
            self.do_call(sub, a1, a2)
        } else {
            Ok(Flow::Done)
        }
    }

    /// The bullet-attribute template writers.
    fn do_bullet_attrs(
        &mut self,
        enemy: &mut Enemy,
        opcode: u16,
        anim: i16,
        sio: i16,
        bps: i32,
        nos: i32,
        sp: Fx32,
        sp2: Fx32,
        la: Fx32,
        an: Fx32,
        flags: u32,
    ) -> (r: Result<Flow, EclError>)
        ensures
            ({
                let s = bullet_attrs_spec(
                    old(self)@,
                    old(enemy)@,
                    opcode,
                    anim,
                    sio,
                    bps,
                    nos,
                    sp,
                    sp2,
                    la,
                    an,
                    flags,
                );
                final(self)@ == s.0 && final(enemy)@ == s.1 && r == s.2
            }),
    {
        proof {
            reveal(bullet_attrs_spec);
        }
        let sio_v: i32 = match self.get_i32(enemy, sio as i32) {
            Ok(x) => x,
            Err(er) => {
                return Err(er);
            },
        };
        let bps_v: i32 = match self.get_i32(enemy, bps) {
            Ok(x) => x,
            Err(er) => {
                return Err(er);
            },
        };
        let nos_v: i32 = match self.get_i32(enemy, nos) {
            Ok(x) => x,
            Err(er) => {
                return Err(er);
            },
        };
        let sp_v: Fx32 = match self.get_f32(enemy, sp) {
            Ok(x) => x,
            Err(er) => {
                return Err(er);
            },
        };
        let sp2_v: Fx32 = match self.get_f32(enemy, sp2) {
            Ok(x) => x,
            Err(er) => {
                return Err(er);
            },
        };
        let la_v: Fx32 = match self.get_f32(enemy, la) {
            Ok(x) => x,
            Err(er) => {
                return Err(er);
            },
        };
        let an_v: Fx32 = match self.get_f32(enemy, an) {
            Ok(x) => x,
            Err(er) => {
                return Err(er);
            },
        };
        enemy.bullet_attributes = BulletAttributes {
            pos: enemy.bullet_attributes.pos,
            z: enemy.bullet_attributes.z,
            anim,
            sprite_index_offset: to_i16_wrapped(sio_v),
            bullets_per_shot: to_i16_wrapped(bps_v),
            number_of_shots: to_i16_wrapped(nos_v),
            speed: sp_v,
            speed2: sp2_v,
            launch_angle: la_v,
            angle: an_v,
            flags,
            bullet_type: opcode,
            extended_attributes: enemy.bullet_attributes.extended_attributes,
            sound: enemy.bullet_attributes.sound,
        };
        Ok(Flow::Done)
    }

    /// The special-function table, "call now" side.
    fn do_special(&mut self, enemy: &mut Enemy, fnid: i32, arg: i32) -> (r: Result<Flow, EclError>)
        ensures
            ({
                let s = special_spec(old(self)@, old(enemy)@, fnid, arg);
                final(self)@ == s.0 && final(enemy)@ == s.1 && r == s.2
            }),
    {
        proof {
            reveal(special_spec);
        }
        if fnid == 0 {
            self.pending = Some(Pending::Discard);
            Ok(Flow::Need(HostRequest::StopBullets { arg }))
        } else if fnid == 1 {
            self.pending = Some(Pending::Discard);
            Ok(Flow::Need(HostRequest::Fire { attributes: enemy.bullet_attributes }))
        } else if fnid == 3 {
            self.frame.ints1.r1 = 0;
            self.frame.ints1.r2 = 3;
            self.frame.ints1.r3 = 1;
            Ok(Flow::Done)
        } else if fnid == 4 {
            Ok(Flow::Done)
        } else if fnid == 7 || fnid == 9 || fnid == 11 {
            self.pending = Some(Pending::Discard);
            Ok(Flow::Need(HostRequest::RandDiscard))
        } else if fnid == 8 {
            self.pending = Some(Pending::CountInto { var_id: -10004 });
            Ok(Flow::Need(HostRequest::CountAndFireBullets))
        } else if fnid == 13 {
            self.frame.ints1.r3 = wrap_add_i32(self.frame.ints1.r3, 1);
            Ok(Flow::Done)
        } else if fnid == 14 {
            let mut n: i32 = 0;
            let mut i: usize = 0;
            proof {
                crate::arith::lemma_wrap32_small(0);
            }
            while i < enemy.lasers.len()
                invariant
                    i <= enemy.lasers@.len(),
                    n as int == wrap32(i as int),
                decreases enemy.lasers@.len() - i,
            {
                proof {
                    crate::arith::lemma_wrap32_step(i as int);
                }
                n = wrap_add_i32(n, 1);
                i = i + 1;
            }
            self.frame.ints1.r3 = n;
            Ok(Flow::Done)
        } else if fnid == 16 {
            if arg == 0 {
                let p: u64 = (enemy.life as u64) * 240;
                let low: u64 = p % 0x1_0000_0000;
                let q: u64 = low / 6000 + 40;
                self.frame.ints2.r1 = q as i32;
                self.pending = Some(Pending::FloatSlot3);
                Ok(Flow::Need(HostRequest::LifeFraction { life: enemy.life }))
            } else {
                self.pending = Some(Pending::FloatSlots23);
                Ok(Flow::Need(HostRequest::LifeSpread { life: enemy.life }))
            }
        } else {
            Err(EclError::UnimplementedSpecialFunction)
        }
    }

    /// First quarter of the dispatcher: register writes and arithmetic.
    #[verifier::rlimit(100)]
    #[verifier::spinoff_prover]
    fn exec_class0(&mut self, enemy: &mut Enemy, instr: &SubInstruction) -> (r: Result<
        Flow,
        EclError,
    >)
        requires
            instr_class(*instr) == 0,
        ensures
            ({
                let s = step_spec(old(self)@, old(enemy)@, *instr);
                final(self)@ == s.0 && final(enemy)@ == s.1 && r == s.2
            }),
    {
        match *instr {
            SubInstruction::Noop() => Ok(Flow::Done),
            SubInstruction::Destroy(_x) => {
                enemy.removed = true;
                Ok(Flow::Done)
            },
            SubInstruction::RelativeJump(f, ip) => {
                self.frame.frame = f;
                self.frame.ip = ip;
                Ok(Flow::Done)
            },
            SubInstruction::RelativeJumpEx(f, ip, var) => {
                let c: i32 = match self.get_i32(enemy, var) {
                    Ok(x) => x,
                    Err(er) => {
                        return Err(er);
                    },
                };
                let c1: i32 = wrap_sub_i32(c, 1);
                match self.set_i32(enemy, var, c1) {
                    Ok(()) => {},
                    Err(er) => {
                        return Err(er);
                    },
                }
                if c1 > 0 {
                    self.frame.frame = f;
                    self.frame.ip = ip;
                }
                Ok(Flow::Done)
            },
            SubInstruction::SetInt(var, val) => self.do_put_int(enemy, var, val),
            SubInstruction::SetFloat(var, val) => self.do_put_float(enemy, var, val),
            SubInstruction::SetRandomInt(var, max) => {
                self.pending = Some(
                    Pending::RandInt { var_id: var, max_ref: max, min_ref: 0, has_min: false },
                );
                Ok(Flow::Need(HostRequest::RandWord))
            },
            SubInstruction::SetRandomIntMin(var, max, min) => {
                self.pending = Some(
                    Pending::RandInt { var_id: var, max_ref: max, min_ref: min, has_min: true },
                );
                Ok(Flow::Need(HostRequest::RandWord))
            },
            SubInstruction::SetRandomFloat(var, max) => {
                let m: Fx32 = match self.get_f32(enemy, max) {
                    Ok(x) => x,
                    Err(er) => {
                        return Err(er);
                    },
                };
                self.pending = Some(Pending::WriteFloat { var_id: var });
                Ok(Flow::Need(HostRequest::RandFloat { max: m }))
            },
            SubInstruction::SetRandomFloatMin(var, max, min) => {
                let m: Fx32 = match self.get_f32(enemy, max) {
                    Ok(x) => x,
                    Err(er) => {
                        return Err(er);
                    },
                };
                let mn: Fx32 = match self.get_f32(enemy, min) {
                    Ok(x) => x,
                    Err(er) => {
                        return Err(er);
                    },
                };
                self.pending = Some(Pending::WriteFloat { var_id: var });
                Ok(Flow::Need(HostRequest::RandFloatMin { max: m, min: mn }))
            },
            SubInstruction::StoreX(var) => {
                let x: i32 = fx_to_i32(enemy.pos.x);
                self.do_put_int(enemy, var, x)
            },
            SubInstruction::StoreY(var) => {
                let y: i32 = fx_to_i32(enemy.pos.y);
                self.do_put_int(enemy, var, y)
            },
            SubInstruction::StoreZ(var) => {
                let z: i32 = fx_to_i32(enemy.z);
                self.do_put_int(enemy, var, z)
            },
            SubInstruction::AddInt(var, a, b) => self.do_int_binop(enemy, var, a, b, IntOp::Add),
            SubInstruction::AddFloat(var, a, b) => self.do_float_binop(
                enemy,
                var,
                a,
                b,
                FloatOp::Add,
            ),
            SubInstruction::SubstractInt(var, a, b) => self.do_int_binop(
                enemy,
                var,
                a,
                b,
                IntOp::Sub,
            ),
            SubInstruction::SubstractFloat(var, a, b) => self.do_float_binop(
                enemy,
                var,
                a,
                b,
                FloatOp::Sub,
            ),
            SubInstruction::MultiplyInt(var, a, b) => self.do_int_binop(
                enemy,
                var,
                a,
                b,
                IntOp::Mul,
            ),
            SubInstruction::DivideInt(var, a, b) => self.do_int_binop(enemy, var, a, b, IntOp::Div),
            SubInstruction::DivideFloat(var, a, b) => self.do_float_binop(
                enemy,
                var,
                a,
                b,
                FloatOp::Div,
            ),
            SubInstruction::ModuloInt(var, a, b) => self.do_int_binop(enemy, var, a, b, IntOp::Rem),
            SubInstruction::ModuloFloat(var, a, b) => self.do_float_binop(
                enemy,
                var,
                a,
                b,
                FloatOp::Rem,
            ),
            SubInstruction::Increment(var) => {
                let x: i32 = match self.get_i32(enemy, var) {
                    Ok(v) => v,
                    Err(er) => {
                        return Err(er);
                    },
                };
                self.do_put_int(enemy, var, wrap_add_i32(x, 1))
            },
            SubInstruction::Decrement(var) => {
                let x: i32 = match self.get_i32(enemy, var) {
                    Ok(v) => v,
                    Err(er) => {
                        return Err(er);
                    },
                };
                self.do_put_int(enemy, var, wrap_sub_i32(x, 1))
            },
            _ => {
                proof {
                    assert(false);
                }
                Ok(Flow::Done)
            },
        }
    }

    /// Second quarter of the dispatcher: comparisons, jumps and calls.
    #[verifier::rlimit(100)]
    #[verifier::spinoff_prover]
    fn exec_class1(&mut self, enemy: &mut Enemy, instr: &SubInstruction) -> (r: Result<
        Flow,
        EclError,
    >)
        requires
            instr_class(*instr) == 1,
        ensures
            ({
                let s = step_spec(old(self)@, old(enemy)@, *instr);
                final(self)@ == s.0 && final(enemy)@ == s.1 && r == s.2
            }),
    {
        match *instr {
            SubInstruction::GetDirection(var, x1, y1, x2, y2) => {
                let x1v: Fx32 = match self.get_f32(enemy, x1) {
                    Ok(x) => x,
                    Err(er) => {
                        return Err(er);
                    },
                };
                let y1v: Fx32 = match self.get_f32(enemy, y1) {
                    Ok(x) => x,
                    Err(er) => {
                        return Err(er);
                    },
                };
                let x2v: Fx32 = match self.get_f32(enemy, x2) {
                    Ok(x) => x,
                    Err(er) => {
                        return Err(er);
                    },
                };
                let y2v: Fx32 = match self.get_f32(enemy, y2) {
                    Ok(x) => x,
                    Err(er) => {
                        return Err(er);
                    },
                };
                self.pending = Some(Pending::WriteFloat { var_id: var });
                Ok(Flow::Need(HostRequest::Direction { x1: x1v, y1: y1v, x2: x2v, y2: y2v }))
            },
            SubInstruction::FloatToUnitCircle(var) => {
                let x: Fx32 = match self.get_f32_var(enemy, var) {
                    Ok(v) => v,
                    Err(er) => {
                        return Err(er);
                    },
                };
                self.pending = Some(Pending::WriteFloat { var_id: var });
                Ok(Flow::Need(HostRequest::WrapAngle(x)))
            },
            SubInstruction::CompareInts(a, b) => {
                let av: i32 = match self.get_i32(enemy, a) {
                    Ok(x) => x,
                    Err(er) => {
                        return Err(er);
                    },
                };
                let bv: i32 = match self.get_i32(enemy, b) {
                    Ok(x) => x,
                    Err(er) => {
                        return Err(er);
                    },
                };
                self.frame.comparison_reg = if av < bv {
                    -1
                } else if av == bv {
                    0
                } else {
                    1
                };
                Ok(Flow::Done)
            },
            SubInstruction::CompareFloats(a, b) => {
                let av: Fx32 = match self.get_f32(enemy, a) {
                    Ok(x) => x,
                    Err(er) => {
                        return Err(er);
                    },
                };
                let bv: Fx32 = match self.get_f32(enemy, b) {
                    Ok(x) => x,
                    Err(er) => {
                        return Err(er);
                    },
                };
                self.frame.comparison_reg = fx_cmp(av, bv);
                Ok(Flow::Done)
            },
            SubInstruction::RelativeJumpIfLowerThan(f, ip) => {
                if self.frame.comparison_reg == -1 {
                    self.frame.frame = f;
                    self.frame.ip = ip;
                }
                Ok(Flow::Done)
            },
            SubInstruction::RelativeJumpIfLowerOrEqual(f, ip) => {
                if self.frame.comparison_reg != 1 {
                    self.frame.frame = f;
                    self.frame.ip = ip;
                }
                Ok(Flow::Done)
            },
            SubInstruction::RelativeJumpIfEqual(f, ip) => {
                if self.frame.comparison_reg == 0 {
                    self.frame.frame = f;
                    self.frame.ip = ip;
                }
                Ok(Flow::Done)
            },
            SubInstruction::RelativeJumpIfGreaterThan(f, ip) => {
                if self.frame.comparison_reg == 1 {
                    self.frame.frame = f;
                    self.frame.ip = ip;
                }
                Ok(Flow::Done)
            },
            SubInstruction::RelativeJumpIfGreaterOrEqual(f, ip) => {
                if self.frame.comparison_reg != -1 {
                    self.frame.frame = f;
                    self.frame.ip = ip;
                }
                Ok(Flow::Done)
            },
            SubInstruction::RelativeJumpIfNotEqual(f, ip) => {
                if self.frame.comparison_reg != 0 {
                    self.frame.frame = f;
                    self.frame.ip = ip;
                }
                Ok(Flow::Done)
            },
            SubInstruction::Call(sub, a1, a2) => self.do_call(sub, a1, a2),
            SubInstruction::Return() => {
                match self.stack.pop() {
                    Some(fr) => {
                        self.frame = fr;
                        proof {
                            assert(old(self)@.stack.drop_last() =~= self@.stack);
                        }
                        Ok(Flow::Done)
                    },
                    None => Err(EclError::StackUnderflow),
                }
            },
            SubInstruction::CallIfSuperior(sub, a1, a2, a, b) => self.do_cond_call(
                enemy,
                sub,
                a1,
                a2,
                a,
                b,
                IntOp::Add,
            ),
            SubInstruction::CallIfSuperiorOrEqual(sub, a1, a2, a, b) => self.do_cond_call(
                enemy,
                sub,
                a1,
                a2,
                a,
                b,
                IntOp::Sub,
            ),
            SubInstruction::CallIfEqual(sub, a1, a2, a, b) => self.do_cond_call(
                enemy,
                sub,
                a1,
                a2,
                a,
                b,
                IntOp::Mul,
            ),
            SubInstruction::CallIfInferior(sub, a1, a2, a, b) => self.do_cond_call(
                enemy,
                sub,
                a1,
                a2,
                a,
                b,
                IntOp::Div,
            ),
            SubInstruction::CallIfInferiorOrEqual(sub, a1, a2, a, b) => self.do_cond_call(
                enemy,
                sub,
                a1,
                a2,
                a,
                b,
                IntOp::Rem,
            ),
            SubInstruction::CallIfNotEqual(sub, a1, a2, a, b) => {
                let av: i32 = match self.get_i32(enemy, a) {
                    Ok(x) => x,
                    Err(er) => {
                        return Err(er);
                    },
                };
                let bv: i32 = match self.get_i32(enemy, b) {
                    Ok(x) => x,
                    Err(er) => {
                        return Err(er);
                    },
                };
                if av != bv {
                    self.do_call(sub, a1, a2)
                } else {
                    Ok(Flow::Done)
                }
            },
            _ => {
                proof {
                    assert(false);
                }
                Ok(Flow::Done)
            },
        }
    }

    /// Third quarter of the dispatcher: movement and bullet-template state.
    #[verifier::rlimit(100)]
    #[verifier::spinoff_prover]
    fn exec_class2(&mut self, enemy: &mut Enemy, instr: &SubInstruction) -> (r: Result<
        Flow,
        EclError,
    >)
        requires
            instr_class(*instr) == 2,
        ensures
            ({
                let s = step_spec(old(self)@, old(enemy)@, *instr);
                final(self)@ == s.0 && final(enemy)@ == s.1 && r == s.2
            }),
    {
        match *instr {
            SubInstruction::SetPosition(x, y, z) => {
                let xv: Fx32 = match self.get_f32(enemy, x) {
                    Ok(v) => v,
                    Err(er) => {
                        return Err(er);
                    },
                };
                let yv: Fx32 = match self.get_f32(enemy, y) {
                    Ok(v) => v,
                    Err(er) => {
                        return Err(er);
                    },
                };
                let zv: Fx32 = match self.get_f32(enemy, z) {
                    Ok(v) => v,
                    Err(er) => {
                        return Err(er);
                    },
                };
                enemy.pos.x = xv;
                enemy.pos.y = yv;
                enemy.z = zv;
                Ok(Flow::Done)
            },
            SubInstruction::SetAngleAndSpeed(an, sp) => {
                let av: Fx32 = match self.get_f32(enemy, an) {
                    Ok(v) => v,
                    Err(er) => {
                        return Err(er);
                    },
                };
                let sv: Fx32 = match self.get_f32(enemy, sp) {
                    Ok(v) => v,
                    Err(er) => {
                        return Err(er);
                    },
                };
                enemy.update_mode = 0;
                enemy.angle = av;
                enemy.speed = sv;
                Ok(Flow::Done)
            },
            SubInstruction::SetRotationSpeed(sp) => {
                let sv: Fx32 = match self.get_f32(enemy, sp) {
                    Ok(v) => v,
                    Err(er) => {
                        return Err(er);
                    },
                };
                enemy.update_mode = 0;
                enemy.rotation_speed = sv;
                Ok(Flow::Done)
            },
            SubInstruction::SetSpeed(sp) => {
                let sv: Fx32 = match self.get_f32(enemy, sp) {
                    Ok(v) => v,
                    Err(er) => {
                        return Err(er);
                    },
                };
                enemy.update_mode = 0;
                enemy.speed = sv;
                Ok(Flow::Done)
            },
            SubInstruction::SetAcceleration(ac) => {
                let av: Fx32 = match self.get_f32(enemy, ac) {
                    Ok(v) => v,
                    Err(er) => {
                        return Err(er);
                    },
                };
                enemy.update_mode = 0;
                enemy.acceleration = av;
                Ok(Flow::Done)
            },
            SubInstruction::SetRandomAngle(min, max) => {
                self.pending = Some(Pending::SetAngle);
                Ok(Flow::Need(HostRequest::RandAngle { min, max }))
            },
            SubInstruction::TargetPlayer(delta, sp) => {
                let sv: Fx32 = match self.get_f32(enemy, sp) {
                    Ok(v) => v,
                    Err(er) => {
                        return Err(er);
                    },
                };
                self.pending = Some(Pending::TargetSpeed { speed: sv });
                Ok(Flow::Need(HostRequest::TargetAngle { x: enemy.pos.x, y: enemy.pos.y, delta }))
            },
            SubInstruction::SetScreenBox(xmin, ymin, xmax, ymax) => {
                enemy.screen_box = Some(ScreenBox { xmin, ymin, xmax, ymax });
                Ok(Flow::Done)
            },
            SubInstruction::ClearScreenBox() => {
                enemy.screen_box = None;
                Ok(Flow::Done)
            },
            _ => {
                proof {
                    assert(false);
                }
                Ok(Flow::Done)
            },
        }
    }

    /// Fifth quarter of the dispatcher: the bullet-template writers.
    #[verifier::rlimit(100)]
    #[verifier::spinoff_prover]
    fn exec_class4(&mut self, enemy: &mut Enemy, instr: &SubInstruction) -> (r: Result<
        Flow,
        EclError,
    >)
        requires
            instr_class(*instr) == 4,
        ensures
            ({
                let s = step_spec(old(self)@, old(enemy)@, *instr);
                final(self)@ == s.0 && final(enemy)@ == s.1 && r == s.2
            }),
    {
        match *instr {
            SubInstruction::SetBulletAttributes1(anim, sio, bps, nos, sp, sp2, la, an, fl) => self
                .do_bullet_attrs(enemy, 67, anim, sio, bps, nos, sp, sp2, la, an, fl),
            SubInstruction::SetBulletAttributes2(anim, sio, bps, nos, sp, sp2, la, an, fl) => self
                .do_bullet_attrs(enemy, 68, anim, sio, bps, nos, sp, sp2, la, an, fl),
            SubInstruction::SetBulletAttributes3(anim, sio, bps, nos, sp, sp2, la, an, fl) => self
                .do_bullet_attrs(enemy, 69, anim, sio, bps, nos, sp, sp2, la, an, fl),
            SubInstruction::SetBulletAttributes4(anim, sio, bps, nos, sp, sp2, la, an, fl) => self
                .do_bullet_attrs(enemy, 70, anim, sio, bps, nos, sp, sp2, la, an, fl),
            SubInstruction::SetBulletAttributes5(anim, sio, bps, nos, sp, sp2, la, an, fl) => self
                .do_bullet_attrs(enemy, 71, anim, sio, bps, nos, sp, sp2, la, an, fl),
            SubInstruction::SetBulletAttributes6(anim, sio, bps, nos, sp, sp2, la, an, fl) => self
                .do_bullet_attrs(enemy, 74, anim, sio, bps, nos, sp, sp2, la, an, fl),
            SubInstruction::SetBulletAttributes7(anim, sio, bps, nos, sp, sp2, la, an, fl) => self
                .do_bullet_attrs(enemy, 75, anim, sio, bps, nos, sp, sp2, la, an, fl),
            SubInstruction::SetBulletInterval(iv) => {
                enemy.bullet_launch_interval = iv;
                enemy.bullet_launch_timer = 0;
                Ok(Flow::Done)
            },
            SubInstruction::SetBulletIntervalEx(iv) => {
                self.pending = Some(Pending::LaunchInterval { interval: iv });
                Ok(Flow::Need(HostRequest::RandWord))
            },
            SubInstruction::DelayAttack() => {
                enemy.delay_attack = true;
                Ok(Flow::Done)
            },
            SubInstruction::NoDelayAttack() => {
                enemy.delay_attack = false;
                Ok(Flow::Done)
            },
            SubInstruction::SetBulletLaunchOffset(dx, dy, dz) => {
                let dxv: Fx32 = match self.get_f32(enemy, dx) {
                    Ok(v) => v,
                    Err(er) => {
                        return Err(er);
                    },
                };
                let dyv: Fx32 = match self.get_f32(enemy, dy) {
                    Ok(v) => v,
                    Err(er) => {
                        return Err(er);
                    },
                };
                let _dzv: Fx32 = match self.get_f32(enemy, dz) {
                    Ok(v) => v,
                    Err(er) => {
                        return Err(er);
                    },
                };
                enemy.bullet_offset = Offset { dx: dxv, dy: dyv };
                Ok(Flow::Done)
            },
            _ => {
                proof {
                    assert(false);
                }
                Ok(Flow::Done)
            },
        }
    }

    /// Fourth quarter of the dispatcher: the remaining entity state and the
    /// special-function table.
    #[verifier::rlimit(100)]
    #[verifier::spinoff_prover]
    fn exec_class3(&mut self, enemy: &mut Enemy, instr: &SubInstruction) -> (r: Result<
        Flow,
        EclError,
    >)
        requires
            instr_class(*instr) == 3,
        ensures
            ({
                let s = step_spec(old(self)@, old(enemy)@, *instr);
                final(self)@ == s.0 && final(enemy)@ == s.1 && r == s.2
            }),
    {
        match *instr {
            SubInstruction::SetExtendedBulletAttributes(a, b, c, d, x, y, z, w) => {
                let av: i32 = match self.get_i32(enemy, a) {
                    Ok(v) => v,
                    Err(er) => {
                        return Err(er);
                    },
                };
                let bv: i32 = match self.get_i32(enemy, b) {
                    Ok(v) => v,
                    Err(er) => {
                        return Err(er);
                    },
                };
                let cv: i32 = match self.get_i32(enemy, c) {
                    Ok(v) => v,
                    Err(er) => {
                        return Err(er);
                    },
                };
                let dv: i32 = match self.get_i32(enemy, d) {
                    Ok(v) => v,
                    Err(er) => {
                        return Err(er);
                    },
                };
                let xv: Fx32 = match self.get_f32(enemy, x) {
                    Ok(v) => v,
                    Err(er) => {
                        return Err(er);
                    },
                };
                let yv: Fx32 = match self.get_f32(enemy, y) {
                    Ok(v) => v,
                    Err(er) => {
                        return Err(er);
                    },
                };
                let zv: Fx32 = match self.get_f32(enemy, z) {
                    Ok(v) => v,
                    Err(er) => {
                        return Err(er);
                    },
                };
                let wv: Fx32 = match self.get_f32(enemy, w) {
                    Ok(v) => v,
                    Err(er) => {
                        return Err(er);
                    },
                };
                enemy.bullet_attributes.extended_attributes = ExtendedAttributes {
                    i0: av,
                    i1: bv,
                    i2: cv,
                    i3: dv,
                    f0: xv,
                    f1: yv,
                    f2: zv,
                    f3: wv,
                };
                proof {
                    crate::arith::lemma_wrap32_small(av as int);
                    crate::arith::lemma_wrap32_small(bv as int);
                    crate::arith::lemma_wrap32_small(cv as int);
                    crate::arith::lemma_wrap32_small(dv as int);
                }
                Ok(Flow::Done)
            },
            SubInstruction::SetBulletSound(snd) => {
                if snd < 0 {
                    enemy.bullet_attributes.sound = None;
                    Ok(Flow::Done)
                } else if snd > 255 {
                    Err(EclError::MalformedProgram)
                } else {
                    enemy.bullet_attributes.sound = Some(snd as u8);
                    Ok(Flow::Done)
                }
            },
            SubInstruction::SetUpcomingLaserId(id) => {
                enemy.current_laser_id = id;
                Ok(Flow::Done)
            },
            SubInstruction::LaserSetCompare(id) => {
                let alive: bool = enemy.has_laser(id);
                self.frame.comparison_reg = if alive {
                    1
                } else {
                    0
                };
                Ok(Flow::Done)
            },
            SubInstruction::SetSpellcard(_a, _b) => Err(EclError::UnimplementedInstruction),
            SubInstruction::EndSpellcard() => Err(EclError::UnimplementedInstruction),
            SubInstruction::SpawnEnemy(sub, x, y, z, life, bonus, score) => {
                let xv: Fx32 = match self.get_f32(enemy, x) {
                    Ok(v) => v,
                    Err(er) => {
                        return Err(er);
                    },
                };
                let yv: Fx32 = match self.get_f32(enemy, y) {
                    Ok(v) => v,
                    Err(er) => {
                        return Err(er);
                    },
                };
                let zv: Fx32 = match self.get_f32(enemy, z) {
                    Ok(v) => v,
                    Err(er) => {
                        return Err(er);
                    },
                };
                self.pending = Some(Pending::Discard);
                Ok(
                    Flow::Need(
                        HostRequest::Spawn {
                            sub: to_u16_wrapped(sub),
                            x: xv,
                            y: yv,
                            z: zv,
                            life,
                            bonus,
                            score,
                        },
                    ),
                )
            },
            SubInstruction::SetAnim(idx) => {
                enemy.anim = to_u8_wrapped(idx);
                Ok(Flow::Done)
            },
            SubInstruction::SetMultipleAnims(default, end_left, end_right, left, right, _u) => {
                if left == -1 {
                    enemy.movement_dependant_sprites = None;
                } else {
                    enemy.anim = to_u8_wrapped(default);
                    enemy.movement_dependant_sprites = Some(
                        SpriteSet {
                            end_left: to_u8_wrapped(end_left),
                            end_right: to_u8_wrapped(end_right),
                            left: to_u8_wrapped(left),
                            right: to_u8_wrapped(right),
                        },
                    );
                }
                Ok(Flow::Done)
            },
            SubInstruction::SetAuxAnm(number, script) => {
                if number < 0 || number >= 8 || number as usize >= enemy.aux_anms.len() {
                    Err(EclError::MalformedProgram)
                } else {
                    enemy.aux_anms[number as usize] = Some(script);
                    Ok(Flow::Done)
                }
            },
            SubInstruction::SetDeathAnim(idx) => {
                enemy.death_anim = idx;
                Ok(Flow::Done)
            },
            SubInstruction::SetBossMode(x) => {
                enemy.boss = x >= 0;
                Ok(Flow::Done)
            },
            SubInstruction::SetHitbox(w, h, _d) => {
                enemy.hitbox = Hitbox { width: w, height: h };
                Ok(Flow::Done)
            },
            SubInstruction::SetCollidable(c) => {
                let u: u32 = to_u32_wrapped(c);
                proof {
                    vstd::arithmetic::div_mod::lemma_mod_mod(c as int, 2, 0x8000_0000);
                }
                enemy.collidable = u % 2 == 1;
                Ok(Flow::Done)
            },
            SubInstruction::SetDamageable(d) => {
                let u: u32 = to_u32_wrapped(d);
                proof {
                    vstd::arithmetic::div_mod::lemma_mod_mod(d as int, 2, 0x8000_0000);
                }
                enemy.damageable = u % 2 == 1;
                Ok(Flow::Done)
            },
            SubInstruction::PlaySound(idx) => {
                self.pending = Some(Pending::Discard);
                Ok(Flow::Need(HostRequest::PlaySound { index: idx }))
            },
            SubInstruction::SetDeathFlags(fl) => {
                enemy.death_flags = fl;
                Ok(Flow::Done)
            },
            SubInstruction::SetDeathCallback(sub) => {
                enemy.death_callback = Some(sub);
                Ok(Flow::Done)
            },
            SubInstruction::MemoryWriteInt(_a, _b) => Err(EclError::UnimplementedInstruction),
            SubInstruction::SetElapsedTime(x) => {
                enemy.frame = to_u32_wrapped(x);
                Ok(Flow::Done)
            },
            SubInstruction::SetTouchable(t) => {
                enemy.touchable = t != 0;
                Ok(Flow::Done)
            },
            SubInstruction::CallSpecialFunction(fnid, arg) => self.do_special(enemy, fnid, arg),
            SubInstruction::SetSpecialFunctionCallback(fnid) => {
                if fnid == 12 {
                    enemy.special_callback = Some(fnid);
                    Ok(Flow::Done)
                } else {
                    Err(EclError::UnimplementedSpecialFunction)
                }
            },
            _ => {
                proof {
                    assert(false);
                }
                Ok(Flow::Done)
            },
        }
    }

    /// Executes one instruction against the current frame and the entity:
    /// the dispatcher. Implements [`step_spec`] exactly.
    pub fn exec_instruction(&mut self, enemy: &mut Enemy, instr: &SubInstruction) -> (r: Result<
        Flow,
        EclError,
    >)
        ensures
            ({
                let s = step_spec(old(self)@, old(enemy)@, *instr);
                final(self)@ == s.0 && final(enemy)@ == s.1 && r == s.2
            }),
    {
        let class: u8 = instr_class_exec(instr);
        if class == 0 {
            self.exec_class0(enemy, instr)
        } else if class == 1 {
            self.exec_class1(enemy, instr)
        } else if class == 2 {
            self.exec_class2(enemy, instr)
        } else if class == 4 {
            self.exec_class4(enemy, instr)
        } else {
            self.exec_class3(enemy, instr)
        }
    }
}



/// How a runner's tick call ended: the tick completed, the tick is
/// suspended on host work, or a fatal error stopped the runner.
#[derive(Clone, Copy, PartialEq, Eq, Structural, Debug)]
pub enum RunStatus {
    Done,
    Need(HostRequest),
    Failed(EclError),
}

/// What one scheduler iteration did with the tick.
#[derive(Clone, Copy, PartialEq, Eq, Structural, Debug)]
pub enum TickMove {
    /// An instruction was consumed; the loop goes on.
    Continue,
    /// The tick is over: the stream is exhausted or the next instruction
    /// waits for a future tick.
    Over,
    /// An instruction suspended the tick on a host request.
    Need(HostRequest),
    /// A fatal error stopped the runner.
    Fail(EclError),
}

/// The subroutine id addresses a subroutine of the program.
pub open spec fn sub_in_range(ecl: Ecl, sub: u16) -> bool {
    (sub as int) < ecl.subs@.len()
}

/// The instruction pointer addresses an instruction of the subroutine.
pub open spec fn ip_in_range(ecl: Ecl, sub: u16, ip: i32) -> bool {
    0 <= ip && (ip as int) < ecl.subs@[sub as int].instructions@.len()
}

/// The guarded instruction the frame points at.
pub open spec fn cur_instr(ecl: Ecl, fr: StackFrame) -> CallSub {
    ecl.subs@[fr.sub as int].instructions@[fr.ip as int]
}

/// One iteration of the per-tick scheduler, as a function: fetch the
/// instruction under the pointer, stop cleanly when the stream is out or
/// the instruction is not yet due, otherwise consume it (the pointer
/// advances whether or not it executes), filter by rank, and execute it
/// exactly when its scheduled time equals the frame's virtual time. A
/// subroutine id escaping the loader's validation stops the runner with a
/// malformed-program error instead of corrupting state.
#[verifier::opaque]
pub open spec fn sched_step_spec(ecl: Ecl, v: VmV, e: EnemyV) -> (VmV, EnemyV, TickMove)
    recommends
        v.running,
        v.pending is None,
{
    let fr = v.frame;
    if !sub_in_range(ecl, fr.sub) {
        (
            VmV { running: false, error: Some(EclError::MalformedProgram), ..v },
            e,
            TickMove::Fail(EclError::MalformedProgram),
        )
    } else if !ip_in_range(ecl, fr.sub, fr.ip) {
        (VmV { running: false, ..v }, e, TickMove::Over)
    } else {
        let g = cur_instr(ecl, fr);
        if g.time > fr.frame {
            (v, e, TickMove::Over)
        } else {
            let v1 = with_frame(v, StackFrame { ip: wrap32(fr.ip + 1) as i32, ..fr });
            if g.rank_mask & e.rank == 0 {
                (v1, e, TickMove::Continue)
            } else if g.time == fr.frame {
                let s = step_spec(v1, e, g.instr);
                match s.2 {
                    Ok(Flow::Done) => (s.0, s.1, TickMove::Continue),
                    Ok(Flow::Need(req)) => (s.0, s.1, TickMove::Need(req)),
                    Err(er) => (
                        VmV { running: false, error: Some(er), ..s.0 },
                        s.1,
                        TickMove::Fail(er),
                    ),
                }
            } else {
                (v1, e, TickMove::Continue)
            }
        }
    }
}

/// The per-tick instruction budget. It exists to give the scheduler
/// loop a termination measure; a tick that consumes this many
/// instructions is cut off as malformed. No real program approaches the
/// bound.
pub const TICK_FUEL: u64 = 0xffff_ffff_ffff_ffff;

/// The machine at the end of a completed tick: virtual time advanced by
/// one, everything else as the scheduler left it.
pub open spec fn end_of_tick(v: VmV) -> VmV {
    with_frame(v, StackFrame { frame: wrap32(v.frame.frame + 1) as i32, ..v.frame })
}

/// A whole tick, as a function: [`sched_step_spec`] iterated while it
/// continues, within `fuel` steps. The tick completes (`Done`, virtual
/// time advanced by exactly one) when the runner was not running to
/// begin with, when the instruction stream is exhausted, or when the
/// next instruction waits for a future tick; a host request or a fatal
/// error surfaces as the scheduler reports it, with virtual time left
/// alone until the tick completes; and a tick that consumes the whole
/// budget is cut off as malformed.
pub open spec fn tick_spec(ecl: Ecl, v: VmV, e: EnemyV, fuel: nat) -> (VmV, EnemyV, RunStatus)
    decreases fuel,
{
    if !v.running {
        (end_of_tick(v), e, RunStatus::Done)
    } else if fuel == 0 {
        (
            VmV { running: false, error: Some(EclError::MalformedProgram), ..v },
            e,
            RunStatus::Failed(EclError::MalformedProgram),
        )
    } else {
        let s = sched_step_spec(ecl, v, e);
        match s.2 {
            TickMove::Continue => tick_spec(ecl, s.0, s.1, (fuel - 1) as nat),
            TickMove::Over => (end_of_tick(s.0), s.1, RunStatus::Done),
            TickMove::Need(req) => (s.0, s.1, RunStatus::Need(req)),
            TickMove::Fail(er) => (s.0, s.1, RunStatus::Failed(er)),
        }
    }
}

impl EclRunner {
    /// One scheduler iteration; implements [`sched_step_spec`] exactly.
    pub fn sched_step(&mut self, ecl: &Ecl, enemy: &mut Enemy) -> (r: TickMove)
        requires
            old(self).running,
            old(self).pending is None,
        ensures
            ({
                let s = sched_step_spec(*ecl, old(self)@, old(enemy)@);
                final(self)@ == s.0 && final(enemy)@ == s.1 && r == s.2
            }),
            r is Continue ==> final(self).pending is None && final(self).running,
            r is Over ==> final(self).pending is None,
            r is Need ==> final(self).pending is Some && final(self).running,
            r is Fail ==> final(self).pending is None && !final(self).running
                && final(self).error is Some,
    {
        proof {
            reveal(sched_step_spec);
        }
        let sub: usize = self.frame.sub as usize;
        if sub >= ecl.subs.len() {
            self.running = false;
            self.error = Some(EclError::MalformedProgram);
            return TickMove::Fail(EclError::MalformedProgram);
        }
        let nins: usize = ecl.subs[sub].instructions.len();
        if self.frame.ip < 0 || self.frame.ip as usize >= nins {
            self.running = false;
            return TickMove::Over;
        }
        let g: CallSub = ecl.subs[sub].instructions[self.frame.ip as usize];
        if g.time > self.frame.frame {
            return TickMove::Over;
        }
        self.frame.ip = wrap_add_i32(self.frame.ip, 1);
        if g.rank_mask & enemy.rank == 0 {
            return TickMove::Continue;
        }
        if g.time == self.frame.frame {
            proof {
                crate::step::lemma_step_pending(self@, enemy@, g.instr);
            }
            match self.exec_instruction(enemy, &g.instr) {
                Ok(Flow::Done) => TickMove::Continue,
                Ok(Flow::Need(req)) => TickMove::Need(req),
                Err(er) => {
                    self.running = false;
                    self.error = Some(er);
                    TickMove::Fail(er)
                },
            }
        } else {
            TickMove::Continue
        }
    }

    /// Applies the host's answer to the recorded continuation; implements
    /// [`apply_pending_spec`] exactly.
    #[verifier::rlimit(100)]
    #[verifier::spinoff_prover]
    pub fn apply_pending(&mut self, enemy: &mut Enemy, p: Pending, resp: HostResponse) -> (r:
        Result<(), EclError>)
        ensures
            ({
                let s = apply_pending_spec(old(self)@, old(enemy)@, p, resp);
                &&& final(self)@ == s.0
                &&& final(enemy)@ == s.1
                &&& match r {
                    Ok(x) => s.2 == Ok::<(), EclError>(x),
                    Err(er) => s.2 == Err::<(), EclError>(er),
                }
            }),
    {
        match p {
            Pending::WriteFloat { var_id } => match resp {
                HostResponse::Float(f) => self.set_f32(enemy, var_id, f),
                _ => Err(EclError::BadHostResponse),
            },
            Pending::RandInt { var_id, max_ref, min_ref, has_min } => match resp {
                HostResponse::Word(w) => {
                    let m: i32 = match self.get_i32(enemy, max_ref) {
                        Ok(x) => x,
                        Err(er) => {
                            return Err(er);
                        },
                    };
                    if m == 0 {
                        return Err(EclError::DivisionByZero);
                    }
                    let base: i32 = rem_i32_trunc(to_i32_wrapped(w), m);
                    if has_min {
                        let mn: i32 = match self.get_i32(enemy, min_ref) {
                            Ok(x) => x,
                            Err(er) => {
                                return Err(er);
                            },
                        };
                        self.set_i32(enemy, var_id, wrap_add_i32(base, mn))
                    } else {
                        self.set_i32(enemy, var_id, base)
                    }
                },
                _ => Err(EclError::BadHostResponse),
            },
            Pending::LaunchInterval { interval } => match resp {
                HostResponse::Word(w) => {
                    enemy.bullet_launch_interval = interval;
                    enemy.bullet_launch_timer = if interval > 0 {
                        w % (interval as u32)
                    } else {
                        0
                    };
                    Ok(())
                },
                _ => Err(EclError::BadHostResponse),
            },
            Pending::SetAngle => match resp {
                HostResponse::Float(f) => {
                    enemy.angle = f;
                    Ok(())
                },
                _ => Err(EclError::BadHostResponse),
            },
            Pending::TargetSpeed { speed } => match resp {
                HostResponse::Float(f) => {
                    enemy.update_mode = 0;
                    enemy.speed = speed;
                    enemy.angle = f;
                    Ok(())
                },
                _ => Err(EclError::BadHostResponse),
            },
            Pending::CountInto { var_id } => match resp {
                HostResponse::Int(n) => self.set_i32(enemy, var_id, n),
                _ => Err(EclError::BadHostResponse),
            },
            Pending::FloatSlot3 => match resp {
                HostResponse::Float(f) => {
                    self.frame.floats.f3 = f;
                    Ok(())
                },
                _ => Err(EclError::BadHostResponse),
            },
            Pending::FloatSlots23 => match resp {
                HostResponse::Pair(a, b) => {
                    self.frame.floats.f2 = a;
                    self.frame.floats.f3 = b;
                    Ok(())
                },
                _ => Err(EclError::BadHostResponse),
            },
            Pending::Discard => match resp {
                HostResponse::Unit => Ok(()),
                _ => Err(EclError::BadHostResponse),
            },
        }
    }

    /// Runs the scheduler loop until the tick ends, then advances virtual
    /// time by one: the shared tail of [`EclRunner::run_frame`] and
    /// [`EclRunner::resume`]. A tick is cut off as malformed after an
    /// instruction budget of 2^64 - 1, a bound no real program reaches,
    /// which is what lets the loop carry a termination measure.
    #[verifier::rlimit(100)]
    #[verifier::spinoff_prover]
    fn finish_tick(&mut self, ecl: &Ecl, enemy: &mut Enemy) -> (r: RunStatus)
        requires
            old(self).pending is None,
        ensures
            ({
                let t = tick_spec(*ecl, old(self)@, old(enemy)@, TICK_FUEL as nat);
                final(self)@ == t.0 && final(enemy)@ == t.1 && r == t.2
            }),
            r is Need ==> final(self).pending is Some && final(self).running,
            r is Done ==> final(self).pending is None,
            r is Failed ==> final(self).pending is None && !final(self).running
                && final(self).error is Some,
    {
        let mut fuel: u64 = TICK_FUEL;
        while self.running
            invariant_except_break
                self.pending is None,
                tick_spec(*ecl, old(self)@, old(enemy)@, TICK_FUEL as nat) == tick_spec(
                    *ecl,
                    self@,
                    enemy@,
                    fuel as nat,
                ),
            ensures
                self.pending is None,
                tick_spec(*ecl, old(self)@, old(enemy)@, TICK_FUEL as nat) == (
                    end_of_tick(self@),
                    enemy@,
                    RunStatus::Done,
                ),
            decreases fuel,
        {
            let ghost vpre = self@;
            let ghost epre = enemy@;
            let ghost fpre = fuel as nat;
            if fuel == 0 {
                self.running = false;
                self.error = Some(EclError::MalformedProgram);
                proof {
                    assert(tick_spec(*ecl, vpre, epre, fpre) == (
                        self@,
                        enemy@,
                        RunStatus::Failed(EclError::MalformedProgram),
                    ));
                }
                return RunStatus::Failed(EclError::MalformedProgram);
            }
            fuel = fuel - 1;
            match self.sched_step(ecl, enemy) {
                TickMove::Continue => {
                    proof {
                        assert(tick_spec(*ecl, vpre, epre, fpre) == tick_spec(
                            *ecl,
                            self@,
                            enemy@,
                            fuel as nat,
                        ));
                    }
                },
                TickMove::Over => {
                    proof {
                        assert(tick_spec(*ecl, vpre, epre, fpre) == (
                            end_of_tick(self@),
                            enemy@,
                            RunStatus::Done,
                        ));
                    }
                    break;
                },
                TickMove::Need(req) => {
                    proof {
                        assert(tick_spec(*ecl, vpre, epre, fpre) == (
                            self@,
                            enemy@,
                            RunStatus::Need(req),
                        ));
                    }
                    return RunStatus::Need(req);
                },
                TickMove::Fail(er) => {
                    proof {
                        assert(tick_spec(*ecl, vpre, epre, fpre) == (
                            self@,
                            enemy@,
                            RunStatus::Failed(er),
                        ));
                    }
                    return RunStatus::Failed(er);
                },
            }
        }
        self.frame.frame = wrap_add_i32(self.frame.frame, 1);
        RunStatus::Done
    }

    /// Advances the entity's script by one simulated tick: executes every
    /// instruction of the current frame that is due now, then increments
    /// the frame's virtual time. Stops early with `Need` when an
    /// instruction requires host work (the driver answers through
    /// [`EclRunner::resume`]) and with `Failed` on a fatal error, which
    /// also leaves the running state permanently. A runner that is no
    /// longer running still counts time forward.
    pub fn run_frame(&mut self, ecl: &Ecl, enemy: &mut Enemy) -> (r: RunStatus)
        ensures
            old(self).pending is None ==> ({
                let t = tick_spec(*ecl, old(self)@, old(enemy)@, TICK_FUEL as nat);
                final(self)@ == t.0 && final(enemy)@ == t.1 && r == t.2
            }),
            old(self).pending is Some ==> final(self)@ == (VmV {
                pending: None,
                running: false,
                error: Some(EclError::BadHostResponse),
                ..old(self)@
            }) && final(enemy)@ == old(enemy)@ && r == RunStatus::Failed(
                EclError::BadHostResponse,
            ),
            r is Need ==> final(self).pending is Some && final(self).running,
            r is Done ==> final(self).pending is None,
            r is Failed ==> final(self).pending is None && !final(self).running
                && final(self).error is Some,
    {
        if self.pending.is_some() {
            self.pending = None;
            self.running = false;
            self.error = Some(EclError::BadHostResponse);
            return RunStatus::Failed(EclError::BadHostResponse);
        }
        self.finish_tick(ecl, enemy)
    }

    /// Answers the outstanding host request and continues the suspended
    /// tick. Resuming a runner with no outstanding request, or with a
    /// response of the wrong shape, is a protocol violation and fatal.
    pub fn resume(&mut self, ecl: &Ecl, enemy: &mut Enemy, resp: HostResponse) -> (r: RunStatus)
        ensures
            old(self).pending is None ==> final(self)@ == (VmV {
                running: false,
                error: Some(EclError::BadHostResponse),
                ..old(self)@
            }) && final(enemy)@ == old(enemy)@ && r == RunStatus::Failed(
                EclError::BadHostResponse,
            ),
            old(self).pending matches Some(p) ==> ({
                let a = apply_pending_spec(
                    VmV { pending: None, ..old(self)@ },
                    old(enemy)@,
                    p,
                    resp,
                );
                match a.2 {
                    Ok(u) => ({
                        let t = tick_spec(*ecl, a.0, a.1, TICK_FUEL as nat);
                        final(self)@ == t.0 && final(enemy)@ == t.1 && r == t.2
                    }),
                    Err(er) => final(self)@ == (VmV { running: false, error: Some(er), ..a.0 })
                        && final(enemy)@ == a.1 && r == RunStatus::Failed(er),
                }
            }),
            r is Need ==> final(self).pending is Some && final(self).running,
            r is Done ==> final(self).pending is None,
            r is Failed ==> final(self).pending is None && !final(self).running
                && final(self).error is Some,
    {
        let p: Pending = match self.pending {
            Some(p) => p,
            None => {
                self.running = false;
                self.error = Some(EclError::BadHostResponse);
                return RunStatus::Failed(EclError::BadHostResponse);
            },
        };
        self.pending = None;
        proof {
            crate::step::lemma_apply_keeps_flags(self@, enemy@, p, resp);
        }
        match self.apply_pending(enemy, p, resp) {
            Ok(()) => self.finish_tick(ecl, enemy),
            Err(er) => {
                self.running = false;
                self.error = Some(er);
                RunStatus::Failed(er)
            },
        }
    }
}


} // verus!
