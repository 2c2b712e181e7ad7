//! The bit-pattern float model against the host's real `f32`: the
//! conversions, the comparison, and the sentinel encodings.

use touhou_ecl::fx32::{fx_cmp, fx_of_i32, fx_of_u32, fx_to_i32, Fx32};
use touhou_ecl::runner::{FLOAT_VAR_BASE, FLOAT_VAR_LAST};

fn fx(v: f32) -> Fx32 {
    Fx32 { bits: v.to_bits() }
}

#[test]
fn float_to_int_matches_host_cast() {
    let samples: Vec<f32> = vec![
        0.0,
        -0.0,
        0.5,
        -0.99,
        1.0,
        -1.0,
        12.0,
        -10001.0,
        16777216.0,
        16777217.0,
        -16777217.0,
        2147483500.0,
        2147483648.0,
        -2147483648.0,
        -2147483904.0,
        1.0e10,
        -1.0e10,
        f32::MAX,
        f32::MIN,
        f32::INFINITY,
        f32::NEG_INFINITY,
        f32::NAN,
        f32::MIN_POSITIVE,
        1.5,
        -2.75,
    ];
    for v in samples {
        assert_eq!(
            fx_to_i32(fx(v)),
            v as i32,
            "truncating cast of {v} (bits {:#x})",
            v.to_bits()
        );
    }
}

#[test]
fn int_to_float_matches_host_cast() {
    let samples: Vec<i32> = vec![
        0,
        1,
        -1,
        13,
        255,
        -10001,
        8388607,
        8388608,
        16777215,
        16777216,
        16777217,
        -16777217,
        33554430,
        33554433,
        i32::MAX,
        i32::MIN,
        i32::MAX - 63,
        1234567891,
    ];
    for v in samples {
        assert_eq!(
            fx_of_i32(v).bits,
            (v as f32).to_bits(),
            "rounding cast of {v}"
        );
    }
}

#[test]
fn uint_to_float_matches_host_cast() {
    let samples: Vec<u32> = vec![
        0,
        1,
        16777217,
        2147483648,
        4294967295,
        4294967167,
        4294967040,
        3000000001,
    ];
    for v in samples {
        assert_eq!(
            fx_of_u32(v).bits,
            (v as f32).to_bits(),
            "rounding cast of {v}"
        );
    }
}

#[test]
fn compare_matches_ieee() {
    let vals: Vec<f32> = vec![
        0.0,
        -0.0,
        1.0,
        -1.0,
        f32::INFINITY,
        f32::NEG_INFINITY,
        f32::NAN,
        0.5,
        -10001.0,
    ];
    for &a in &vals {
        for &b in &vals {
            let expect = if a < b {
                -1
            } else if a == b {
                0
            } else {
                1
            };
            assert_eq!(fx_cmp(fx(a), fx(b)), expect, "compare {a} vs {b}");
        }
    }
}

#[test]
fn sentinel_range_encodes_variable_ids() {
    assert_eq!((-10001.0f32).to_bits(), FLOAT_VAR_BASE);
    assert_eq!((-10025.0f32).to_bits(), FLOAT_VAR_LAST);
    for n in 0u32..25 {
        let expect = (-10001.0f32 - n as f32).to_bits();
        assert_eq!(expect, FLOAT_VAR_BASE + n * 0x400, "sentinel -{}", 10001 + n);
    }
}
