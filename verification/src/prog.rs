//! The pre-parsed enemy-control program the interpreter consumes.
//!
//! A program ([`Ecl`]) is an immutable collection of subroutines and
//! optional main sequences, each a time-ordered list of guarded
//! instructions. Decoding the on-disk bytecode into these structures —
//! including resolving jump targets to local instruction indices and
//! validating that times are non-decreasing — is the loader's job and out
//! of scope here; the scheduler never executes an instruction before its
//! scheduled time in any case.

use vstd::prelude::*;

verus! {

use crate::fx32::Fx32;

/// One difficulty level. A guarded instruction carries a *mask* of these
/// (see [`CallSub::rank_mask`]); an enemy runs at exactly one of them.
#[allow(non_camel_case_types)]
#[derive(Clone, Copy, PartialEq, Eq, Structural, Debug)]
pub enum Rank {
    EASY,
    NORMAL,
    HARD,
    LUNATIC,
}

impl Rank {
    /// The bit this difficulty occupies in a rank mask.
    pub fn bits(self) -> (r: u8)
        ensures
            r == rank_bits(self),
    {
        match self {
            Rank::EASY => 1,
            Rank::NORMAL => 2,
            Rank::HARD => 4,
            Rank::LUNATIC => 8,
        }
    }
}

/// The bit a difficulty occupies in a rank mask.
pub open spec fn rank_bits(r: Rank) -> u8 {
    match r {
        Rank::EASY => 1,
        Rank::NORMAL => 2,
        Rank::HARD => 4,
        Rank::LUNATIC => 8,
    }
}

/// One instruction of a subroutine, with its execution guards: the tick at
/// which it becomes due, and the difficulty levels it applies to.
/// `param_mask` is carried through from the file format but unused by the
/// interpreter core.
#[derive(Clone, Copy, PartialEq, Eq, Structural, Debug)]
pub struct CallSub {
    /// Tick (relative to the frame's virtual time) at which this
    /// instruction is due.
    pub time: i32,
    /// Difficulty levels for which this instruction executes.
    pub rank_mask: u8,
    /// Reserved by the file format; ignored by the interpreter.
    pub param_mask: u16,
    /// The operation itself.
    pub instr: SubInstruction,
}

impl CallSub {
    /// A guarded instruction due at `time` for the single difficulty `rank`.
    pub fn new(time: i32, rank: Rank, instr: SubInstruction) -> (r: CallSub)
        ensures
            r.time == time,
            r.rank_mask == rank_bits(rank),
            r.param_mask == 0,
            r.instr == instr,
    {
        CallSub { time, rank_mask: rank.bits(), param_mask: 0, instr }
    }

    /// A guarded instruction with an explicit difficulty mask, as the
    /// loader produces for instructions shared between difficulties.
    pub fn with_mask(time: i32, rank_mask: u8, instr: SubInstruction) -> (r: CallSub)
        ensures
            r.time == time,
            r.rank_mask == rank_mask,
            r.param_mask == 0,
            r.instr == instr,
    {
        CallSub { time, rank_mask, param_mask: 0, instr }
    }
}

/// A subroutine: a time-ordered sequence of guarded instructions.
#[derive(Clone, Debug)]
pub struct Sub {
    /// The instructions, in non-decreasing `time` order.
    pub instructions: Vec<CallSub>,
}

/// A whole enemy-control program: subroutines reachable through calls and
/// spawns, plus the stage-level main sequences (consumed by the stage
/// driver, not by per-enemy runners).
#[derive(Clone, Debug)]
pub struct Ecl {
    /// Stage-level sequences; opaque to the per-enemy interpreter.
    pub mains: Vec<Sub>,
    /// The subroutines, indexed by the ids that call instructions carry.
    pub subs: Vec<Sub>,
}

/// The closed instruction set of the enemy virtual machine, one variant
/// per opcode the engine knows. Operands are already decoded: integer and
/// float operands may be literals or sentinel variable references
/// (resolved by the redirection layer at execution time), and jump targets
/// are local instruction indices within the current subroutine.
#[derive(Clone, Copy, PartialEq, Eq, Structural, Debug)]
pub enum SubInstruction {
    /// Does nothing.
    Noop(),
    /// Flags the entity as removed; the container garbage-collects it.
    Destroy(i32),
    /// Reassigns the frame's virtual time and instruction pointer.
    RelativeJump(i32, i32),
    /// Bounded loop: decrements the counter at the variable reference and
    /// jumps only while the decremented value stays positive.
    RelativeJumpEx(i32, i32, i32),
    /// `SetInt(var, value)`.
    SetInt(i32, i32),
    /// `SetFloat(var, value)`.
    SetFloat(i32, Fx32),
    /// Draws one 32-bit random number, reduced modulo the max operand.
    SetRandomInt(i32, i32),
    /// As `SetRandomInt`, then offset by the min operand.
    SetRandomIntMin(i32, i32, i32),
    /// Draws one random float in [0, 1), scaled by the max operand.
    SetRandomFloat(i32, Fx32),
    /// As `SetRandomFloat`, then offset by the min operand.
    SetRandomFloatMin(i32, Fx32, Fx32),
    /// Stores the entity's x position, truncated to an integer.
    StoreX(i32),
    /// Stores the entity's y position, truncated to an integer.
    StoreY(i32),
    /// Stores the entity's z position, truncated to an integer.
    StoreZ(i32),
    /// `AddInt(var, a, b)` and the other integer arithmetic, wrapping.
    AddInt(i32, i32, i32),
    /// Float addition, delegated to the host's arithmetic.
    AddFloat(i32, Fx32, Fx32),
    SubstractInt(i32, i32, i32),
    SubstractFloat(i32, Fx32, Fx32),
    MultiplyInt(i32, i32, i32),
    DivideInt(i32, i32, i32),
    DivideFloat(i32, Fx32, Fx32),
    ModuloInt(i32, i32, i32),
    ModuloFloat(i32, Fx32, Fx32),
    /// Adds one to the integer at the reference.
    Increment(i32),
    /// Subtracts one from the integer at the reference.
    Decrement(i32),
    /// Stores the angle from one point to another.
    GetDirection(i32, Fx32, Fx32, Fx32, Fx32),
    /// Normalises the float at the reference into (-pi, pi].
    FloatToUnitCircle(i32),
    /// Sets the comparison flag from two integers.
    CompareInts(i32, i32),
    /// Sets the comparison flag from two floats.
    CompareFloats(Fx32, Fx32),
    RelativeJumpIfLowerThan(i32, i32),
    RelativeJumpIfLowerOrEqual(i32, i32),
    RelativeJumpIfEqual(i32, i32),
    RelativeJumpIfGreaterThan(i32, i32),
    RelativeJumpIfGreaterOrEqual(i32, i32),
    RelativeJumpIfNotEqual(i32, i32),
    /// `Call(sub, arg1, arg2)`: suspends the current frame and enters the
    /// subroutine with `arg1` in the first integer register and `arg2` in
    /// the first float register.
    Call(i32, i32, Fx32),
    /// Pops the call stack, discarding the callee's frame.
    Return(),
    CallIfSuperior(i32, i32, Fx32, i32, i32),
    CallIfSuperiorOrEqual(i32, i32, Fx32, i32, i32),
    CallIfEqual(i32, i32, Fx32, i32, i32),
    CallIfInferior(i32, i32, Fx32, i32, i32),
    CallIfInferiorOrEqual(i32, i32, Fx32, i32, i32),
    CallIfNotEqual(i32, i32, Fx32, i32, i32),
    /// Moves the entity to the given position.
    SetPosition(Fx32, Fx32, Fx32),
    SetAngleAndSpeed(Fx32, Fx32),
    SetRotationSpeed(Fx32),
    SetSpeed(Fx32),
    SetAcceleration(Fx32),
    /// Draws one random float and sets the angle within [min, max).
    SetRandomAngle(Fx32, Fx32),
    /// Aims at the player with the given angular offset and speed.
    TargetPlayer(Fx32, Fx32),
    /// Clips the entity's movement to a screen box.
    SetScreenBox(Fx32, Fx32, Fx32, Fx32),
    ClearScreenBox(),
    /// The family of bullet-attribute template writers, one per opcode.
    SetBulletAttributes1(i16, i16, i32, i32, Fx32, Fx32, Fx32, Fx32, u32),
    SetBulletAttributes2(i16, i16, i32, i32, Fx32, Fx32, Fx32, Fx32, u32),
    SetBulletAttributes3(i16, i16, i32, i32, Fx32, Fx32, Fx32, Fx32, u32),
    SetBulletAttributes4(i16, i16, i32, i32, Fx32, Fx32, Fx32, Fx32, u32),
    SetBulletAttributes5(i16, i16, i32, i32, Fx32, Fx32, Fx32, Fx32, u32),
    SetBulletAttributes6(i16, i16, i32, i32, Fx32, Fx32, Fx32, Fx32, u32),
    SetBulletAttributes7(i16, i16, i32, i32, Fx32, Fx32, Fx32, Fx32, u32),
    /// Sets the bullet launch interval.
    SetBulletInterval(i32),
    /// Sets the bullet launch interval with a random initial phase.
    SetBulletIntervalEx(i32),
    DelayAttack(),
    NoDelayAttack(),
    /// Sets the offset bullets are launched from.
    SetBulletLaunchOffset(Fx32, Fx32, Fx32),
    /// Sets the opaque extended attribute payload of the template.
    SetExtendedBulletAttributes(i32, i32, i32, i32, Fx32, Fx32, Fx32, Fx32),
    /// Selects the launch sound; a negative index selects none.
    SetBulletSound(i32),
    /// Selects which laser id the next laser instructions address.
    SetUpcomingLaserId(i32),
    /// Sets the comparison flag from whether that laser is alive.
    LaserSetCompare(i32),
    /// Spell-card presentation; not implemented by this engine.
    SetSpellcard(i32, i32),
    /// Spell-card presentation; not implemented by this engine.
    EndSpellcard(),
    /// Synchronously spawns a new enemy running the given subroutine.
    SpawnEnemy(i32, Fx32, Fx32, Fx32, i32, i32, i32),
    /// Selects the entity's animation script.
    SetAnim(i32),
    /// Selects the movement-dependent sprite set; a `left` of -1 disables it.
    SetMultipleAnims(i32, i32, i32, i32, i32, i32),
    /// Attaches an animation script to one of the eight auxiliary slots.
    SetAuxAnm(i32, i32),
    /// Selects the animation played on death.
    SetDeathAnim(i32),
    /// A negative value leaves boss mode, any other enters it.
    SetBossMode(i32),
    /// Sets the collision hitbox (the depth operand is ignored).
    SetHitbox(Fx32, Fx32, Fx32),
    /// Lowest bit switches collision with the player on or off.
    SetCollidable(i32),
    /// Lowest bit switches damageability on or off.
    SetDamageable(i32),
    /// Plays a sound effect on the host.
    PlaySound(i32),
    SetDeathFlags(u32),
    /// Registers the subroutine run when the entity dies.
    SetDeathCallback(i32),
    /// Direct write into engine memory; not implemented by this engine.
    MemoryWriteInt(i32, i32),
    /// Overrides the entity's elapsed-frame counter.
    SetElapsedTime(i32),
    /// Nonzero switches touchability on, zero off.
    SetTouchable(i32),
    /// Runs the numbered special function now, with one argument.
    CallSpecialFunction(i32, i32),
    /// Registers the numbered special function as a per-tick callback.
    SetSpecialFunctionCallback(i32),
}

} // verus!
