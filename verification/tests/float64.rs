use ucx::float64::{
    above_zero, dollars_to_cents, from_i64, from_u64, is_finite, round, round_up,
    times, truncate, F64,
};

fn f(x: f64) -> F64 {
    F64 { bits: x.to_bits() }
}

fn sample() -> Vec<f64> {
    vec![
        0.0, -0.0, 1.0, -1.0, 0.5, 0.1, 0.25, 1.5, 2.5, 3.999999, 15.0, 16.0, 16.7, 79.99,
        1e-300, 5e-324, 2.2250738585072014e-308, 1e10, 1e15, 9007199254740993.0, 1.8e19, 1.9e19,
        4294967295.0, 4294967296.5, 1e300, f64::MAX, -1e10, f64::INFINITY, f64::NEG_INFINITY,
        f64::NAN, 0.29, 1.005, 19.99, 184467440737095516.15, 1.1, 123456.789,
    ]
}

#[test]
fn signs_and_finiteness() {
    for x in sample() {
        assert_eq!(above_zero(f(x)), x > 0.0, "{x}");
        assert_eq!(is_finite(f(x)), x.is_finite(), "{x}");
    }
}

#[test]
fn integers_as_doubles() {
    let naturals: Vec<u64> = vec![
        0, 1, 2, 3, 10, 1000, 4095, (1 << 53) - 1, 1 << 53, (1 << 53) + 1, (1 << 53) + 3,
        (1 << 54) + 2, (1 << 54) + 6, u64::MAX, u64::MAX - 1024, u64::MAX - 1023, u64::MAX / 3,
    ];
    for n in naturals {
        assert_eq!(from_u64(n).bits, (n as f64).to_bits(), "{n}");
    }
    let integers: Vec<i64> = vec![0, 1, -1, -1000, i64::MIN, i64::MAX, -(1 << 53) - 1, 12345];
    for n in integers {
        assert_eq!(from_i64(n).bits, (n as f64).to_bits(), "{n}");
    }
}

#[test]
fn cutting_to_an_integer() {
    for x in sample() {
        assert_eq!(truncate(f(x), 10, u64::MAX), (x * 1024.0) as u64, "{x}");
        assert_eq!(truncate(f(x), 0, u32::MAX as u64), (x as u32) as u64, "{x}");
    }
}

#[test]
fn products_and_quotients() {
    let mut n: u64 = 1;
    while n < 1 << 60 {
        for d in 0..5u64 {
            let k = n + d;
            let x = k as f64 / 1000.0;
            let seconds = times(from_u64(k), 1, 1000, 0);
            assert_eq!(seconds.bits, x.to_bits(), "{k}");
            let scaled = times(seconds, 200, 1, 0);
            assert_eq!(scaled.bits, (x * 200.0).to_bits(), "{k}");
            let hours = times(scaled, 1, 3600, 0);
            assert_eq!(hours.bits, (x * 200.0 / 3600.0).to_bits(), "{k}");
            assert_eq!(round_up(hours, u64::MAX), (x * 200.0 / 3600.0).ceil() as u64, "{k}");
            let tenth = times(seconds, 0x19_9999_9999_999A, 1, -56);
            assert_eq!(tenth.bits, (x * 0.1).to_bits(), "{k}");
            let quarter = times(from_u64(k), 1, 1, -2);
            assert_eq!(quarter.bits, (k as f64 * 0.25).to_bits(), "{k}");
        }
        n = n * 7 / 2 + 1;
    }
    assert_eq!(times(f(0.0), 200, 1, 0).bits, 0);
}

#[test]
fn rounding_up() {
    assert_eq!(round_up(f(0.0), 10), 0);
    assert_eq!(round_up(f(0.001), 10), 1);
    assert_eq!(round_up(f(2.0), 10), 2);
    assert_eq!(round_up(f(2.0000001), 10), 3);
    assert_eq!(round_up(f(1e15), 10), 10);
}

#[test]
fn rounding_to_tenths() {
    let mut ms: u64 = 0;
    while ms < 3_000_000 {
        let x = ms as f64 / 1000.0;
        let tenths = round(times(from_u64(ms), 1, 1000, 0), 10);
        assert_eq!(format!("{}.{}", tenths / 10, tenths % 10), format!("{x:.1}"), "{ms}");
        ms = ms + 1 + ms / 50;
    }
    for ms in [250u64, 750, 1250, 1750, 50, 150, 12_350, 49, 51] {
        let x = ms as f64 / 1000.0;
        let tenths = round(times(from_u64(ms), 1, 1000, 0), 10);
        assert_eq!(format!("{}.{}", tenths / 10, tenths % 10), format!("{x:.1}"), "{ms}");
    }
    assert_eq!(round(f(0.0), 10), 0);
    assert_eq!(round(f(0.25), 10), 2);
    assert_eq!(round(f(2.5), 1), 2);
    assert_eq!(round(f(3.5), 1), 4);
}

#[test]
fn dollars_in_cents() {
    for x in sample() {
        assert_eq!(dollars_to_cents(f(x)), (x * 100.0) as u64, "{x}");
    }
    let mut cents: u64 = 0;
    while cents < 100_000 {
        let x = cents as f64 / 100.0;
        assert_eq!(dollars_to_cents(f(x)), (x * 100.0) as u64, "{cents}");
        cents = cents + 37;
    }
}
