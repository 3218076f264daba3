use ballistics_frontend::double::Double;

fn d(x: f64) -> Double {
    Double::from_bits(x.to_bits())
}

fn f(x: Double) -> f64 {
    f64::from_bits(x.to_bits())
}

fn same(got: Double, want: f64) -> bool {
    let got = f(got);
    (got.is_nan() && want.is_nan()) || got.to_bits() == want.to_bits()
}

struct Stream(u64);

impl Stream {
    fn next(&mut self) -> u64 {
        self.0 ^= self.0 << 13;
        self.0 ^= self.0 >> 7;
        self.0 ^= self.0 << 17;
        self.0
    }
}

fn edge_values() -> Vec<f64> {
    let mut v = vec![
        0.0,
        1.0,
        1.5,
        2.0,
        3.0,
        0.1,
        10.0,
        0.3048,
        0.9144,
        0.0254,
        0.00006479891,
        f64::MIN_POSITIVE,
        f64::MIN_POSITIVE / 2.0,
        f64::from_bits(1),
        f64::from_bits(2),
        f64::from_bits(3),
        f64::from_bits(0x000f_ffff_ffff_ffff),
        f64::from_bits(0x0010_0000_0000_0001),
        f64::MAX,
        f64::MAX / 2.0,
        f64::EPSILON,
        1.0 + f64::EPSILON,
        1.0 - f64::EPSILON / 2.0,
        9007199254740992.0,
        9007199254740993.0,
        f64::INFINITY,
        f64::NAN,
    ];
    let negatives: Vec<f64> = v.iter().map(|x| -x).collect();
    v.extend(negatives);
    v
}

fn check_pair(a: f64, b: f64) {
    assert!(same(d(a).plus(d(b)), a + b), "{a:e} + {b:e}");
    assert!(same(d(a).minus(d(b)), a - b), "{a:e} - {b:e}");
    assert!(same(d(a).times(d(b)), a * b), "{a:e} * {b:e}");
    assert!(same(d(a).over(d(b)), a / b), "{a:e} / {b:e}");
    assert_eq!(d(a).lt(d(b)), a < b);
    assert_eq!(d(a).le(d(b)), a <= b);
    assert_eq!(d(a).eq_number(d(b)), a == b);
}

fn check_one(a: f64) {
    assert!(same(d(a).sqrt(), a.sqrt()), "sqrt {a:e}");
    assert!(same(d(a).neg(), -a));
    assert!(same(d(a).abs(), a.abs()));
    assert_eq!(d(a).is_finite(), a.is_finite());
    assert_eq!(d(a).is_nan(), a.is_nan());
}

#[test]
fn arithmetic_agrees_with_the_hardware_on_edge_values() {
    let v = edge_values();
    for a in &v {
        check_one(*a);
        for b in &v {
            check_pair(*a, *b);
        }
    }
}

#[test]
fn arithmetic_agrees_with_the_hardware_on_random_bits() {
    let mut s = Stream(0x9e37_79b9_7f4a_7c15);
    for _ in 0..200_000 {
        let a = f64::from_bits(s.next());
        let b = f64::from_bits(s.next());
        check_one(a);
        check_pair(a, b);
    }
}

#[test]
fn arithmetic_agrees_with_the_hardware_on_close_exponents() {
    let mut s = Stream(0x1234_5678_9abc_def1);
    for _ in 0..200_000 {
        let x = s.next();
        let a = f64::from_bits(x);
        let shift = (s.next() % 140) << 52;
        let b = f64::from_bits((x ^ (s.next() >> 12)).wrapping_sub(shift));
        check_pair(a, b);
        check_pair(b, a);
    }
}

#[test]
fn arithmetic_agrees_with_the_hardware_among_subnormals() {
    let mut s = Stream(0x0bad_cafe_dead_beef);
    for _ in 0..100_000 {
        let a = f64::from_bits(s.next() >> (12 + s.next() % 40));
        let b = f64::from_bits(s.next() >> (12 + s.next() % 40));
        let c = f64::from_bits((s.next() % 80 + 980) << 52 | s.next() >> 12);
        check_one(a);
        check_pair(a, b);
        check_pair(a, c);
        check_pair(c, a);
    }
}

#[test]
fn counts_convert_to_the_nearest_number() {
    for n in [
        0u64,
        1,
        2,
        7,
        1000,
        9007199254740991,
        9007199254740992,
        9007199254740993,
        9007199254740995,
        u64::MAX,
        u64::MAX - 1024,
        u64::MAX - 1025,
    ] {
        assert!(same(Double::of_count(n), n as f64), "{n}");
    }
    let mut s = Stream(77);
    for _ in 0..100_000 {
        let n = s.next() >> (s.next() % 64);
        assert!(same(Double::of_count(n), n as f64), "{n}");
    }
}
