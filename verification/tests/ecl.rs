//! End-to-end tests of the enemy-script interpreter: the scheduler's time
//! and rank gates, calls and returns, arithmetic, the host boundary, and
//! every fatal error.

use touhou_ecl::enemy::{Enemy, Position};
use touhou_ecl::fx32::Fx32;
use touhou_ecl::host::{EclError, FloatOp, HostRequest, HostResponse};
use touhou_ecl::prog::{CallSub, Ecl, Rank, Sub, SubInstruction};
use touhou_ecl::runner::{EclRunner, RunStatus};

fn fx(v: f32) -> Fx32 {
    Fx32 { bits: v.to_bits() }
}

fn enemy() -> Enemy {
    Enemy::new(
        Position::new(fx(0.0), fx(0.0)),
        500,
        0,
        640,
        Rank::EASY.bits(),
        0,
    )
}

fn one_sub(instructions: Vec<CallSub>) -> Ecl {
    Ecl {
        mains: vec![],
        subs: vec![Sub { instructions }],
    }
}

/// Answers a request exactly as the host contract states, with a fixed
/// word for PRNG draws.
fn answer(req: &HostRequest, word: u32) -> HostResponse {
    match *req {
        HostRequest::Arith(op, a, b) => {
            let x = f32::from_bits(a.bits);
            let y = f32::from_bits(b.bits);
            let r = match op {
                FloatOp::Add => x + y,
                FloatOp::Sub => x - y,
                FloatOp::Div => x / y,
                FloatOp::Rem => x % y,
            };
            HostResponse::Float(fx(r))
        }
        HostRequest::Direction { x1, y1, x2, y2 } => {
            let r = (f32::from_bits(y2.bits) - f32::from_bits(y1.bits))
                .atan2(f32::from_bits(x2.bits) - f32::from_bits(x1.bits));
            HostResponse::Float(fx(r))
        }
        HostRequest::WrapAngle(v) => {
            let x = f32::from_bits(v.bits);
            let r = (x + std::f32::consts::PI) % (2.0 * std::f32::consts::PI)
                - std::f32::consts::PI;
            HostResponse::Float(fx(r))
        }
        HostRequest::RandWord => HostResponse::Word(word),
        HostRequest::RandFloat { max } => {
            let r = (word as f64 / 4294967296.0) as f32;
            HostResponse::Float(fx(f32::from_bits(max.bits) * r))
        }
        HostRequest::RandFloatMin { max, min } => {
            let r = (word as f64 / 4294967296.0) as f32;
            HostResponse::Float(fx(
                f32::from_bits(max.bits) * r + f32::from_bits(min.bits)
            ))
        }
        HostRequest::RandAngle { min, max } => {
            let r = (word as f64 / 4294967296.0) as f32;
            HostResponse::Float(fx(
                r * (f32::from_bits(max.bits) - f32::from_bits(min.bits))
                    + f32::from_bits(min.bits),
            ))
        }
        HostRequest::RandDiscard => HostResponse::Unit,
        HostRequest::TargetAngle { x, y, delta } => {
            // A fixed player at the origin for tests.
            let r = (0.0 - f32::from_bits(y.bits)).atan2(0.0 - f32::from_bits(x.bits))
                + f32::from_bits(delta.bits);
            HostResponse::Float(fx(r))
        }
        HostRequest::PlaySound { .. } => HostResponse::Unit,
        HostRequest::Fire { .. } => HostResponse::Unit,
        HostRequest::StopBullets { .. } => HostResponse::Unit,
        HostRequest::CountAndFireBullets => HostResponse::Int(word as i32),
        HostRequest::LifeFraction { life } => {
            HostResponse::Float(fx(2.0 - life as f32 / 6000.0))
        }
        HostRequest::LifeSpread { life } => {
            let f = life as f32;
            HostResponse::Pair(fx(320.0 - f * 160.0 / 6000.0), fx(128.0 - f * 64.0 / 6000.0))
        }
        HostRequest::Spawn { .. } => HostResponse::Unit,
    }
}

/// Drives one tick to completion, answering every request.
fn tick(runner: &mut EclRunner, ecl: &Ecl, enemy: &mut Enemy, word: u32) -> RunStatus {
    let mut st = runner.run_frame(ecl, enemy);
    loop {
        match st {
            RunStatus::Need(req) => {
                let resp = answer(&req, word);
                st = runner.resume(ecl, enemy, resp);
            }
            other => return other,
        }
    }
}

#[test]
fn call_and_return() {
    let mut e = enemy();
    let ecl = Ecl {
        mains: vec![],
        subs: vec![
            Sub {
                instructions: vec![CallSub::new(
                    0,
                    Rank::EASY,
                    SubInstruction::Call(1, 13, fx(12.)),
                )],
            },
            Sub {
                instructions: vec![
                    CallSub::new(0, Rank::EASY, SubInstruction::Noop()),
                    CallSub::new(1, Rank::EASY, SubInstruction::Return()),
                ],
            },
        ],
    };
    let mut ecl_runner = EclRunner::new(0);
    ecl_runner.run_frame(&ecl, &mut e);
    assert_eq!(ecl_runner.frame.ints1.r0, 13);
    assert_eq!(f32::from_bits(ecl_runner.frame.floats.f0.bits), 12.);
    assert_eq!(ecl_runner.stack.len(), 1);
    ecl_runner.run_frame(&ecl, &mut e);
    assert_eq!(ecl_runner.frame.ints1.r0, 0);
    assert_eq!(f32::from_bits(ecl_runner.frame.floats.f0.bits), 0.);
    assert_eq!(ecl_runner.stack.len(), 0);
}

#[test]
fn arithmetic_same_tick() {
    // SetInt then AddInt with a literal on the same tick reads 15 back.
    let mut e = enemy();
    let ecl = one_sub(vec![
        CallSub::new(0, Rank::EASY, SubInstruction::SetInt(-10001, 10)),
        CallSub::new(0, Rank::EASY, SubInstruction::AddInt(-10001, -10001, 5)),
    ]);
    let mut r = EclRunner::new(0);
    assert!(matches!(tick(&mut r, &ecl, &mut e, 0), RunStatus::Done));
    assert_eq!(r.frame.ints1.r0, 15);
}

#[test]
fn equality_gated_execution() {
    // A forward time jump consumes the passed-over instruction without
    // executing it; the instruction whose time is reached exactly runs.
    let mut e = enemy();
    let ecl = one_sub(vec![
        CallSub::new(0, Rank::EASY, SubInstruction::RelativeJump(2, 1)),
        CallSub::new(1, Rank::EASY, SubInstruction::SetInt(-10001, 99)),
        CallSub::new(2, Rank::EASY, SubInstruction::SetInt(-10002, 5)),
    ]);
    let mut r = EclRunner::new(0);
    assert!(matches!(tick(&mut r, &ecl, &mut e, 0), RunStatus::Done));
    assert_eq!(r.frame.ints1.r0, 0, "passed-over instruction must not run");
    assert_eq!(r.frame.ints1.r1, 5, "instruction at the reached time runs");
}

#[test]
fn waits_for_future_time() {
    // An instruction scheduled later executes on the tick whose virtual
    // time matches, exactly once.
    let mut e = enemy();
    let ecl = one_sub(vec![CallSub::new(
        5,
        Rank::EASY,
        SubInstruction::Increment(-10001),
    )]);
    let mut r = EclRunner::new(0);
    for t in 0..5 {
        assert!(matches!(tick(&mut r, &ecl, &mut e, 0), RunStatus::Done));
        assert_eq!(r.frame.ints1.r0, 0, "tick {t}: not due yet");
    }
    assert!(matches!(tick(&mut r, &ecl, &mut e, 0), RunStatus::Done));
    assert_eq!(r.frame.ints1.r0, 1, "executes on its scheduled tick");
    assert!(matches!(tick(&mut r, &ecl, &mut e, 0), RunStatus::Done));
    assert_eq!(r.frame.ints1.r0, 1, "and only once");
}

#[test]
fn bounded_loop() {
    // A counter of 3 makes exactly two backward jumps: the loop body runs
    // three times.
    let mut e = enemy();
    let ecl = one_sub(vec![
        CallSub::new(0, Rank::EASY, SubInstruction::SetInt(-10001, 3)),
        CallSub::new(0, Rank::EASY, SubInstruction::Increment(-10002)),
        CallSub::new(0, Rank::EASY, SubInstruction::RelativeJumpEx(0, 1, -10001)),
    ]);
    let mut r = EclRunner::new(0);
    assert!(matches!(tick(&mut r, &ecl, &mut e, 0), RunStatus::Done));
    assert_eq!(r.frame.ints1.r1, 3, "body runs once per decrement down to zero");
    assert_eq!(r.frame.ints1.r0, 0, "counter is written back");
}

#[test]
fn rank_filtering() {
    // An instruction masked for another difficulty never touches state.
    let mut e = enemy();
    let ecl = one_sub(vec![
        CallSub::new(0, Rank::HARD, SubInstruction::SetInt(-10001, 77)),
        CallSub::new(0, Rank::EASY, SubInstruction::SetInt(-10002, 1)),
    ]);
    let mut r = EclRunner::new(0);
    assert!(matches!(tick(&mut r, &ecl, &mut e, 0), RunStatus::Done));
    assert_eq!(r.frame.ints1.r0, 0, "filtered instruction is skipped");
    assert_eq!(r.frame.ints1.r1, 1, "matching instruction still runs");
}

#[test]
fn return_underflow_is_fatal() {
    let mut e = enemy();
    let ecl = one_sub(vec![CallSub::new(0, Rank::EASY, SubInstruction::Return())]);
    let mut r = EclRunner::new(0);
    match tick(&mut r, &ecl, &mut e, 0) {
        RunStatus::Failed(er) => assert_eq!(er, EclError::StackUnderflow),
        other => panic!("expected failure, got {other:?}"),
    }
    assert!(!r.running);
    assert_eq!(r.error, Some(EclError::StackUnderflow));
}

#[test]
fn unknown_variable_write_is_fatal() {
    let mut e = enemy();
    let ecl = one_sub(vec![CallSub::new(
        0,
        Rank::EASY,
        SubInstruction::SetInt(12345, 1),
    )]);
    let mut r = EclRunner::new(0);
    match tick(&mut r, &ecl, &mut e, 0) {
        RunStatus::Failed(er) => assert_eq!(er, EclError::UnknownVariable),
        other => panic!("expected failure, got {other:?}"),
    }
}

#[test]
fn unsupported_variable_write_is_fatal() {
    // The float registers take no integer write.
    let mut e = enemy();
    let ecl = one_sub(vec![CallSub::new(
        0,
        Rank::EASY,
        SubInstruction::SetInt(-10005, 1),
    )]);
    let mut r = EclRunner::new(0);
    match tick(&mut r, &ecl, &mut e, 0) {
        RunStatus::Failed(er) => assert_eq!(er, EclError::UnsupportedVariable),
        other => panic!("expected failure, got {other:?}"),
    }
}

#[test]
fn division_by_zero_is_fatal() {
    let mut e = enemy();
    let ecl = one_sub(vec![CallSub::new(
        0,
        Rank::EASY,
        SubInstruction::DivideInt(-10001, 10, 0),
    )]);
    let mut r = EclRunner::new(0);
    match tick(&mut r, &ecl, &mut e, 0) {
        RunStatus::Failed(er) => assert_eq!(er, EclError::DivisionByZero),
        other => panic!("expected failure, got {other:?}"),
    }
}

#[test]
fn bad_subroutine_is_fatal() {
    let mut e = enemy();
    let ecl = one_sub(vec![CallSub::new(
        0,
        Rank::EASY,
        SubInstruction::Call(9, 0, fx(0.0)),
    )]);
    let mut r = EclRunner::new(0);
    match tick(&mut r, &ecl, &mut e, 0) {
        RunStatus::Failed(er) => assert_eq!(er, EclError::MalformedProgram),
        other => panic!("expected failure, got {other:?}"),
    }
}

#[test]
fn unknown_special_function_is_fatal() {
    let mut e = enemy();
    let ecl = one_sub(vec![CallSub::new(
        0,
        Rank::EASY,
        SubInstruction::CallSpecialFunction(999, 0),
    )]);
    let mut r = EclRunner::new(0);
    match tick(&mut r, &ecl, &mut e, 0) {
        RunStatus::Failed(er) => assert_eq!(er, EclError::UnimplementedSpecialFunction),
        other => panic!("expected failure, got {other:?}"),
    }
}

#[test]
fn float_add_through_host() {
    let mut e = enemy();
    let ecl = one_sub(vec![CallSub::new(
        0,
        Rank::EASY,
        SubInstruction::AddFloat(-10005, fx(1.5), fx(2.25)),
    )]);
    let mut r = EclRunner::new(0);
    let st = r.run_frame(&ecl, &mut e);
    match st {
        RunStatus::Need(HostRequest::Arith(FloatOp::Add, a, b)) => {
            assert_eq!(f32::from_bits(a.bits), 1.5);
            assert_eq!(f32::from_bits(b.bits), 2.25);
            let done = r.resume(&ecl, &mut e, HostResponse::Float(fx(1.5 + 2.25)));
            assert!(matches!(done, RunStatus::Done));
        }
        other => panic!("expected an addition request, got {other:?}"),
    }
    assert_eq!(f32::from_bits(r.frame.floats.f0.bits), 3.75);
}

#[test]
fn float_operand_reads_register() {
    // A float operand holding a sentinel bit pattern reads the register,
    // not the literal.
    let mut e = enemy();
    let ecl = one_sub(vec![
        CallSub::new(0, Rank::EASY, SubInstruction::SetFloat(-10005, fx(8.0))),
        CallSub::new(
            0,
            Rank::EASY,
            SubInstruction::AddFloat(-10006, fx(-10005.0), fx(0.5)),
        ),
    ]);
    let mut r = EclRunner::new(0);
    assert!(matches!(tick(&mut r, &ecl, &mut e, 0), RunStatus::Done));
    assert_eq!(f32::from_bits(r.frame.floats.f1.bits), 8.5);
}

#[test]
fn random_int_draw() {
    // The drawn word is reduced modulo the max operand.
    let mut e = enemy();
    let ecl = one_sub(vec![CallSub::new(
        0,
        Rank::EASY,
        SubInstruction::SetRandomInt(-10001, 7),
    )]);
    let mut r = EclRunner::new(0);
    assert!(matches!(tick(&mut r, &ecl, &mut e, 10), RunStatus::Done));
    assert_eq!(r.frame.ints1.r0, 10 % 7);
}

#[test]
fn entity_mutation_and_destroy() {
    let mut e = enemy();
    let ecl = one_sub(vec![
        CallSub::new(
            0,
            Rank::EASY,
            SubInstruction::SetPosition(fx(32.0), fx(-16.0), fx(1.0)),
        ),
        CallSub::new(0, Rank::EASY, SubInstruction::SetElapsedTime(9)),
        CallSub::new(1, Rank::EASY, SubInstruction::Destroy(0)),
    ]);
    let mut r = EclRunner::new(0);
    assert!(matches!(tick(&mut r, &ecl, &mut e, 0), RunStatus::Done));
    assert_eq!(f32::from_bits(e.pos.x.bits), 32.0);
    assert_eq!(f32::from_bits(e.pos.y.bits), -16.0);
    assert_eq!(e.frame, 9);
    assert!(!e.removed);
    assert!(matches!(tick(&mut r, &ecl, &mut e, 0), RunStatus::Done));
    assert!(e.removed);
}

#[test]
fn exhaustion_stops_cleanly() {
    let mut e = enemy();
    let ecl = one_sub(vec![CallSub::new(0, Rank::EASY, SubInstruction::Noop())]);
    let mut r = EclRunner::new(0);
    assert!(matches!(tick(&mut r, &ecl, &mut e, 0), RunStatus::Done));
    assert!(!r.running, "stream exhausted");
    assert_eq!(r.error, None, "clean exhaustion reports no error");
}

#[test]
fn determinism_two_runs() {
    // Identical programs, entities and response words give bit-identical
    // registers tick by tick.
    let ecl = one_sub(vec![
        CallSub::new(0, Rank::EASY, SubInstruction::SetRandomInt(-10001, 100)),
        CallSub::new(1, Rank::EASY, SubInstruction::AddFloat(-10005, fx(0.1), fx(0.2))),
        CallSub::new(2, Rank::EASY, SubInstruction::CompareInts(-10001, 50)),
    ]);
    let mut e1 = enemy();
    let mut e2 = enemy();
    let mut r1 = EclRunner::new(0);
    let mut r2 = EclRunner::new(0);
    for t in 0..4 {
        tick(&mut r1, &ecl, &mut e1, 0xdead_beef);
        tick(&mut r2, &ecl, &mut e2, 0xdead_beef);
        assert_eq!(r1.frame, r2.frame, "tick {t}");
        assert_eq!(e1.pos, e2.pos, "tick {t}");
        assert_eq!(e1.frame, e2.frame, "tick {t}");
    }
}

#[test]
fn comparison_flag_and_jump() {
    // CompareInts sets the three-valued flag; the conditional jump
    // consumes it.
    let mut e = enemy();
    let ecl = one_sub(vec![
        CallSub::new(0, Rank::EASY, SubInstruction::CompareInts(3, 5)),
        CallSub::new(0, Rank::EASY, SubInstruction::RelativeJumpIfLowerThan(0, 3)),
        CallSub::new(0, Rank::EASY, SubInstruction::SetInt(-10001, 1)),
        CallSub::new(0, Rank::EASY, SubInstruction::SetInt(-10002, 2)),
    ]);
    let mut r = EclRunner::new(0);
    assert!(matches!(tick(&mut r, &ecl, &mut e, 0), RunStatus::Done));
    assert_eq!(r.frame.comparison_reg, -1);
    assert_eq!(r.frame.ints1.r0, 0, "jumped over");
    assert_eq!(r.frame.ints1.r1, 2);
}
