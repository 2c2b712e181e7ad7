//! The boundary between the verified interpreter and its host driver.
//!
//! The interpreter core is a pure state machine: everything it cannot
//! compute itself — floating-point arithmetic on the bit patterns it
//! carries, pseudo-random draws, and effects on the shared game context
//! (bullets, lasers, sounds, spawning) — is expressed as a [`HostRequest`]
//! handed back to the caller. The driver performs the work (tests and the
//! surrounding program do so with real float arithmetic and a PRNG) and
//! resumes the runner with a [`HostResponse`]. Each request documents
//! exactly what the driver owes, including how many PRNG draws it makes,
//! so that the fixed draw order the engine's determinism depends on is
//! preserved.

use vstd::prelude::*;

verus! {

use crate::fx32::Fx32;
use crate::enemy::BulletAttributes;

/// Why a runner stopped, all fatal: the runner reports the error, leaves
/// the running state and never resumes. A clean end of the instruction
/// stream is not an error and reports nothing.
#[derive(Clone, Copy, PartialEq, Eq, Structural, Debug)]
pub enum EclError {
    /// A redirection-layer read or write hit a slot lacking that
    /// capability (the rank, difficulty and position projections are
    /// partly read-only, and the register banks are typed).
    UnsupportedVariable,
    /// An operand in the sentinel range with no defined mapping, or a
    /// write aimed at a literal.
    UnknownVariable,
    /// A return instruction with an empty call stack.
    StackUnderflow,
    /// A special-function id the table does not know.
    UnimplementedSpecialFunction,
    /// A subroutine id, jump target or argument from the loader is out of
    /// range; detected here so a bad program fails instead of corrupting
    /// state.
    MalformedProgram,
    /// An integer divide or modulo with a zero divisor. The original
    /// engine leaves this case open; this implementation makes it fatal.
    DivisionByZero,
    /// An opcode the engine knows but has never implemented (spell-card
    /// presentation, raw memory writes).
    UnimplementedInstruction,
    /// The driver resumed the runner with a response that does not match
    /// the outstanding request, or resumed when nothing was pending.
    BadHostResponse,
}

/// Work the interpreter asks its driver to do. Each variant states the
/// exact computation owed, over IEEE 754 single bit patterns ([`Fx32`])
/// and the driver's PRNG (`u32` draws and `f64` draws in [0, 1)).
#[derive(Clone, Copy, PartialEq, Eq, Structural, Debug)]
pub enum FloatOp {
    /// `a + b`.
    Add,
    /// `a - b`.
    Sub,
    /// `a / b`, with the host's own zero/infinity behaviour.
    Div,
    /// `a % b`, the host's float remainder.
    Rem,
}

/// Work the interpreter asks its driver to do before it can finish the
/// current tick.
#[derive(Clone, Copy, PartialEq, Eq, Structural, Debug)]
pub enum HostRequest {
    /// Apply the float operation to the two operands; answer `Float`.
    Arith(FloatOp, Fx32, Fx32),
    /// The angle from (x1, y1) to (x2, y2): `atan2(y2 - y1, x2 - x1)` in
    /// single precision; answer `Float`.
    Direction { x1: Fx32, y1: Fx32, x2: Fx32, y2: Fx32 },
    /// `((v + pi) % (2 * pi)) - pi` in single precision; answer `Float`.
    WrapAngle(Fx32),
    /// One `u32` PRNG draw; answer `Word`.
    RandWord,
    /// One `f64` PRNG draw `r`, cast to single precision before any
    /// arithmetic; answer `Float(max * (r as f32))`, the product in
    /// single precision.
    RandFloat { max: Fx32 },
    /// One `f64` PRNG draw `r`, cast to single precision first; answer
    /// `Float(max * (r as f32) + min)`, multiply then add, each in
    /// single precision.
    RandFloatMin { max: Fx32, min: Fx32 },
    /// One `f64` PRNG draw `r`, cast to single precision first; answer
    /// `Float((r as f32) * (max - min) + min)`, each operation in single
    /// precision.
    RandAngle { min: Fx32, max: Fx32 },
    /// One `f64` PRNG draw whose value the engine discards; answer `Unit`.
    RandDiscard,
    /// The angle from (x, y) to the player plus `delta`; answer `Float`.
    TargetAngle { x: Fx32, y: Fx32, delta: Fx32 },
    /// Play the sound effect; answer `Unit`.
    PlaySound { index: i32 },
    /// Two `f64` draws, then fire the bullet template into the pool;
    /// answer `Unit`.
    Fire { attributes: BulletAttributes },
    /// Sweep the bullet pool: with `arg` 0 freeze every bullet, otherwise
    /// decorate each with one `f64` draw; answer `Unit`.
    StopBullets { arg: i32 },
    /// For every live bullet, one `f64` draw and one shot from that
    /// bullet's position; answer `Int` with the number of bullets seen.
    CountAndFireBullets,
    /// `2.0 - life / 6000.0` in single precision; answer `Float`.
    LifeFraction { life: u32 },
    /// Two `f64` draws `rx`, `ry`; with `fx = 320 - life * 160 / 6000` and
    /// `fy = 128 - life * 64 / 6000`, answer
    /// `Pair(rx * fx + (192 - fx / 2), ry * fy + (96 - fy / 2))`.
    LifeSpread { life: u32 },
    /// Construct a fresh enemy at (x, y, z) bound to subroutine `sub` and
    /// run its first frame synchronously before answering `Unit`.
    Spawn { sub: u16, x: Fx32, y: Fx32, z: Fx32, life: i32, bonus: i32, score: i32 },
}

/// The driver's answer to a [`HostRequest`]; each request names the
/// variant it expects, and anything else stops the runner with
/// [`EclError::BadHostResponse`].
#[derive(Clone, Copy, PartialEq, Eq, Structural, Debug)]
pub enum HostResponse {
    Unit,
    Int(i32),
    Word(u32),
    Float(Fx32),
    Pair(Fx32, Fx32),
}

} // verus!
