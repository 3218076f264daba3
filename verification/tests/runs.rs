use ballistics_engine::monte_carlo::{calculate_cep, calculate_confidence_ellipse, percentile};
use ballistics_frontend::conditions::{PyAtmosphericConditions, PyWindConditions};
use ballistics_frontend::dict::{Dict, Value};
use ballistics_frontend::double::Double;
use ballistics_frontend::exception::{Exception, ExceptionKind};
use ballistics_frontend::inputs::{ballistic_inputs_from_dict, full_to_si, BallisticInputs};
use ballistics_frontend::montecarlo::{
    check_threads, field_value, hit_radius, impacts, monte_carlo_parallel, monte_carlo_report, percentile_ranks,
    read_params, run_monte_carlo, sorted_fields, thread_pool_failure, Ellipse, FieldPercentiles, FieldStatistics,
    MonteCarloResults, MonteCarloSummary, PerField, Percentiles, Spread,
};
use ballistics_frontend::sampling::{
    apply_parameter, arrival_at_target, full_solver_call, mc_inputs_to_si, point_at_range, sample_inputs,
    solve_via_full_solver, station_request, Crossing, TrajectoryOutput,
};
use ballistics_frontend::sorting::sort_numbers;
use ballistics_frontend::trajectory::{TrajectoryPoint, TrajectoryResult};

fn d(x: f64) -> Double {
    Double::from_bits(x.to_bits())
}

fn f(x: Double) -> f64 {
    f64::from_bits(x.to_bits())
}

fn fs(v: &[Double]) -> Vec<f64> {
    v.iter().map(|x| f(*x)).collect()
}

fn wrong() -> Exception {
    Exception {
        kind: ExceptionKind::Raised(7),
        message: "wrong".to_string(),
    }
}

fn num(x: f64) -> Value {
    Value {
        is_none: false,
        number: Ok(d(x)),
        flag: Err(wrong()),
        index: Ok(x as usize),
        text: Err(wrong()),
        numbers: None,
        rows: None,
        drag_model: None,
        items: None,
        dict: None,
    }
}

fn bad() -> Value {
    Value {
        number: Err(wrong()),
        index: Err(wrong()),
        ..num(0.0)
    }
}

fn dict(entries: Vec<(&str, Value)>) -> Dict {
    Dict {
        entries: entries
            .into_iter()
            .map(|(k, v)| (k.to_string(), v))
            .collect(),
    }
}

fn base() -> BallisticInputs {
    ballistic_inputs_from_dict(&dict(vec![]), "").unwrap()
}

const NAMES: [&str; 15] = [
    "bc_value",
    "bullet_mass",
    "muzzle_velocity",
    "wind_speed",
    "wind_angle",
    "target_distance",
    "muzzle_angle",
    "altitude",
    "temperature",
    "pressure",
    "humidity",
    "latitude",
    "twist_rate",
    "bullet_length",
    "bullet_diameter",
];

fn parameters(b: &BallisticInputs) -> Vec<Option<Double>> {
    vec![
        Some(b.bc_value),
        Some(b.bullet_mass),
        Some(b.muzzle_velocity),
        Some(b.wind_speed),
        Some(b.wind_angle),
        Some(b.target_distance),
        Some(b.muzzle_angle),
        Some(b.altitude),
        Some(b.temperature),
        Some(b.pressure),
        Some(b.humidity),
        b.latitude,
        Some(b.twist_rate),
        Some(b.bullet_length),
        Some(b.bullet_diameter),
    ]
}

#[test]
fn each_parameter_sets_its_own_field() {
    let before = parameters(&base());
    for (i, name) in NAMES.iter().enumerate() {
        let mut b = base();
        apply_parameter(&mut b, name, d(-77.0));
        let after = parameters(&b);
        for j in 0..NAMES.len() {
            let want = if i == j { Some(d(-77.0)) } else { before[j] };
            assert_eq!(after[j], want, "{name} {j}");
        }
    }
}

#[test]
fn an_unknown_parameter_is_ignored() {
    for name in ["", "mass", "Bc_value", "sight_height"] {
        let mut b = base();
        apply_parameter(&mut b, name, d(-77.0));
        assert_eq!(b, base());
    }
}

#[test]
fn a_later_value_holds() {
    let names = vec!["bc_value".to_string(), "bc_value".to_string(), "altitude".to_string()];
    let s = sample_inputs(&base(), &names, &vec![d(0.1), d(0.2)]);
    assert_eq!(s.bc_value, d(0.2));
    assert_eq!(f(s.altitude), 0.0);
}

#[test]
fn a_run_becomes_metric_with_the_drop_from_the_bore() {
    let mut b = base();
    b.wind_speed = d(18.0);
    b.wind_angle = d(90.0);
    b.muzzle_angle = d(0.2);
    b.humidity = d(40.0);
    b.altitude = d(1000.0);
    b.muzzle_height = d(9.0);
    b.target_height = d(9.0);
    b.cant_angle = d(3.0);
    mc_inputs_to_si(&mut b);
    assert_eq!(f(b.target_distance), 100.0 * 0.9144);
    assert_eq!(f(b.muzzle_velocity), 2650.0 * 0.3048);
    assert_eq!(f(b.altitude), 1000.0 * 0.3048);
    assert_eq!((f(b.sight_height), f(b.muzzle_height), f(b.target_height)), (0.0, 0.0, 0.0));
    assert_eq!(f(b.wind_speed), 18.0 * 0.2777778);
    assert_eq!(f(b.wind_angle), 90.0f64.to_radians());
    assert_eq!(f(b.muzzle_angle), 0.2f64.to_radians());
    assert_eq!(f(b.humidity), 40.0 / 100.0);
    assert_eq!(f(b.cant_angle), 3.0);
    assert_eq!(f(b.bullet_mass), 168.0 * 0.00006479891);
    assert_eq!((f(b.caliber_inches), f(b.weight_grains)), (0.308, 168.0));
}

fn point(x: f64, y: f64) -> TrajectoryPoint {
    TrajectoryPoint {
        time: d(x * 0.001),
        x: d(x),
        y: d(y),
        z: d(y * 0.5),
        velocity_magnitude: d(800.0 - x),
        kinetic_energy: d(3000.0 - 2.0 * x),
    }
}

fn blend(a: f64, b: f64, t: f64) -> f64 {
    a + t * (b - a)
}

#[test]
fn a_trajectory_is_read_between_points() {
    let points = vec![point(0.0, 0.0), point(100.0, -0.1), point(300.0, -0.9)];
    let c = point_at_range(&points, d(170.0)).unwrap();
    let t = (170.0 - 100.0) / (300.0 - 100.0);
    assert_eq!(f(c.y), blend(-0.1, -0.9, t));
    assert_eq!(f(c.z), blend(-0.05, -0.45, t));
    assert_eq!(f(c.velocity), blend(700.0, 500.0, t));
    assert_eq!(f(c.energy), blend(2800.0, 2400.0, t));
    assert_eq!(f(c.time), blend(100.0 * 0.001, 300.0 * 0.001, t));
}

#[test]
fn the_first_neighbours_win_and_the_last_point_is_the_fallback() {
    let points = vec![point(0.0, 0.0), point(100.0, -0.1), point(300.0, -0.9)];
    assert_eq!(f(point_at_range(&points, d(100.0)).unwrap().y), blend(0.0, -0.1, 1.0));
    for range in [301.0, 1e9, -1.0, f64::NAN] {
        let c = point_at_range(&points, d(range)).unwrap();
        assert_eq!((f(c.y), f(c.time)), (-0.9, 300.0 * 0.001));
    }
    assert_eq!(point_at_range(&Vec::new(), d(1.0)), None);
    let one = point_at_range(&vec![point(5.0, -3.0)], d(1.0)).unwrap();
    assert_eq!(f(one.y), -3.0);
    let close = vec![point(10.0, -1.0), point(10.0 + 5e-11, -2.0), point(20.0, -3.0)];
    assert_eq!(f(point_at_range(&close, d(10.0)).unwrap().y), -1.0);
}

#[test]
fn a_run_is_requested_for_a_sound_distance() {
    let mut b = base();
    for bad in [0.0, -0.0, -5.0, f64::NAN, f64::INFINITY, f64::NEG_INFINITY] {
        b.target_distance = d(bad);
        assert_eq!(full_solver_call(&b), None);
    }
    b.wind_speed = d(3.0);
    b.wind_angle = d(0.5);
    b.humidity = d(0.25);
    for (x, room) in [(91.44, 2000.0), (1000.0, 2000.0), (1500.0, 3000.0), (5e-324, 2000.0)] {
        b.target_distance = d(x);
        let c = full_solver_call(&b).unwrap();
        assert_eq!(f(c.max_range), room);
        assert_eq!((f(c.wind.speed), f(c.wind.direction), f(c.wind.vertical_speed)), (3.0, 0.5, 0.0));
        assert_eq!((f(c.atmosphere.temperature), f(c.atmosphere.pressure)), (15.0, 1013.25));
        assert_eq!((f(c.atmosphere.humidity), f(c.atmosphere.altitude)), (25.0, 0.0));
    }
}

fn solved(max_range: f64) -> Option<TrajectoryResult> {
    Some(TrajectoryResult {
        max_range: d(max_range),
        max_height: d(0.0),
        time_of_flight: d(0.0),
        impact_velocity: d(0.0),
        impact_energy: d(0.0),
        line_of_sight_height_m: d(0.0),
        points: vec![point(0.0, 0.0), point(400.0, -2.0)],
        sampled_points: None,
        transonic_mach: None,
    })
}

#[test]
fn a_run_that_falls_short_arrives_nowhere() {
    let mut b = base();
    b.target_distance = d(300.0);
    assert_eq!(arrival_at_target(&b, &None), None);
    assert_eq!(arrival_at_target(&b, &solved(299.0)), None);
    assert_eq!(
        arrival_at_target(&b, &solved(299.9)),
        point_at_range(&solved(1.0).unwrap().points, d(300.0))
    );
    assert!(arrival_at_target(&b, &solved(300.0 * 0.999)).is_some());
}

#[test]
fn the_outcome_of_a_run() {
    let mut b = base();
    mc_inputs_to_si(&mut b);
    let c = Crossing {
        y: d(-1.5),
        z: d(0.25),
        velocity: d(500.0),
        energy: d(1200.0),
        time: d(0.4),
    };
    b.altitude = d(120.0);
    b.humidity = d(0.4);
    b.is_twist_right = false;
    let s = station_request(&b, &c);
    assert_eq!((f(s.altitude), f(s.temperature), f(s.pressure)), (120.0, 15.0, 1013.25));
    assert_eq!((f(s.humidity_percent), f(s.time), s.is_twist_right), (40.0, 0.4, false));
    let o = solve_via_full_solver(&b, &c, d(340.0), d(0.05));
    assert_eq!(f(o.drop), 1.5);
    assert_eq!((f(o.wind_drift), f(o.time), f(o.velocity), f(o.energy)), (0.25, 0.4, 500.0, 1200.0));
    assert_eq!(f(o.mach), 500.0 / 340.0);
    assert_eq!(f(o.spin_drift), 0.0);
    assert_eq!(f(o.distance), 100.0 * 0.9144);
    b.use_enhanced_spin_drift = true;
    b.sight_height = d(0.04);
    b.muzzle_height = d(1.0);
    let o = solve_via_full_solver(&b, &c, d(340.0), d(0.05));
    assert_eq!(f(o.spin_drift), 0.05);
    assert_eq!(f(o.drop), (1.0 + 0.04) - -1.5);
}

fn output(drop: f64, drift: f64) -> TrajectoryOutput {
    TrajectoryOutput {
        drop: d(drop),
        wind_drift: d(drift),
        time: d(0.9 + drop),
        velocity: d(400.0 - drop),
        energy: d(900.0 + drift),
        mach: d(1.1),
        spin_drift: d(0.0),
        distance: d(500.0),
    }
}

#[test]
fn fields_have_names_and_units() {
    let o = output(0.5, 0.25);
    assert_eq!(f(field_value(&o, "drop_m")), 0.5);
    assert_eq!(f(field_value(&o, "wind_drift_m")), 0.25);
    assert_eq!(f(field_value(&o, "time_of_flight_s")), 0.9 + 0.5);
    assert_eq!(f(field_value(&o, "final_vel_fps")), 399.5 * 3.28084);
    assert_eq!(f(field_value(&o, "energy_ft_lbs")), 900.25 * 0.737562);
    assert_eq!(f(field_value(&o, "mach")), 1.1);
    assert_eq!(f(field_value(&o, "spin_drift")), 0.0);
}

struct Stream(u64);

impl Stream {
    fn unit(&mut self) -> f64 {
        self.0 ^= self.0 << 13;
        self.0 ^= self.0 >> 7;
        self.0 ^= self.0 << 17;
        (self.0 >> 11) as f64 / (1u64 << 53) as f64
    }
}

#[test]
fn sorting_is_the_stable_sort_of_the_standard_library() {
    let mut s = Stream(88172645463325252);
    for n in [0usize, 1, 2, 3, 10, 57, 400] {
        let mut v: Vec<f64> = (0..n).map(|_| (s.unit() * 20.0).floor() - 10.0).collect();
        for x in v.iter_mut() {
            if *x == 0.0 && s.unit() < 0.5 {
                *x = -0.0;
            }
        }
        let mut want = v.clone();
        want.sort_by(|a, b| a.partial_cmp(b).unwrap_or(std::cmp::Ordering::Equal));
        let got = sort_numbers(&v.iter().map(|x| d(*x)).collect());
        let bits: Vec<u64> = got.iter().map(|x| x.to_bits()).collect();
        let want: Vec<u64> = want.iter().map(|x| x.to_bits()).collect();
        assert_eq!(bits, want);
    }
    let v = vec![3.0, f64::NAN, 1.0, f64::NEG_INFINITY, f64::NAN, 2.0];
    let mut want = v.clone();
    want.sort_by(|a, b| a.partial_cmp(b).unwrap_or(std::cmp::Ordering::Equal));
    let got = sort_numbers(&v.iter().map(|x| d(*x)).collect());
    assert_eq!(got.len(), 6);
    let bits: Vec<u64> = got.iter().map(|x| x.to_bits()).collect();
    let want: Vec<u64> = want.iter().map(|x| x.to_bits()).collect();
    assert_eq!(bits, want);
}

fn answers(v: &[Double]) -> FieldPercentiles {
    let r = percentile_ranks();
    let values = fs(v);
    let at = |p: Double| d(percentile(&values, f(p)));
    FieldPercentiles {
        p5: at(r.p5),
        p10: at(r.p10),
        p25: at(r.p25),
        p50: at(r.p50),
        p75: at(r.p75),
        p90: at(r.p90),
        p95: at(r.p95),
    }
}

fn summary(results: &Vec<Option<TrajectoryOutput>>, dispersion: bool, radius: Option<f64>) -> MonteCarloSummary {
    let s = sorted_fields(results);
    let spread = impacts(results, dispersion).map(|i| {
        let (wd, dr) = (fs(&i.wind_drift), fs(&i.drop));
        let e = calculate_confidence_ellipse(&wd, &dr);
        Spread {
            cep: d(calculate_cep(&wd, &dr)),
            ellipse: Ellipse {
                center_x: d(e.0),
                center_y: d(e.1),
                semi_major: d(e.2),
                semi_minor: d(e.3),
                rotation_deg: d(e.4),
            },
            points: vec![(d(1.0), d(2.0))],
            median_miss: d(percentile(&fs(&i.sorted_miss), 0.5)),
        }
    });
    monte_carlo_parallel(
        results,
        PerField {
            drop_m: answers(&s.drop_m),
            wind_drift_m: answers(&s.wind_drift_m),
            time_of_flight_s: answers(&s.time_of_flight_s),
            final_vel_fps: answers(&s.final_vel_fps),
            energy_ft_lbs: answers(&s.energy_ft_lbs),
            mach: answers(&s.mach),
        },
        spread,
        dispersion,
        radius.map(d),
        d(0.3),
    )
}

fn check_field(got: &FieldStatistics, values: &[f64]) {
    let mut vals = values.to_vec();
    vals.sort_by(|a, b| a.partial_cmp(b).unwrap_or(std::cmp::Ordering::Equal));
    let n = vals.len() as f64;
    let mean = vals.iter().sum::<f64>() / n;
    let variance = vals.iter().map(|x| (x - mean).powi(2)).sum::<f64>() / (n - 1.0);
    assert_eq!(f(got.mean).to_bits(), mean.to_bits());
    assert_eq!(f(got.std).to_bits(), variance.sqrt().to_bits());
    assert_eq!(f(got.min), vals[0]);
    assert_eq!(f(got.max), vals[vals.len() - 1]);
    match got.percentiles {
        Percentiles::Full(p) => {
            let got = [p.p5, p.p10, p.p25, p.p50, p.p75, p.p90, p.p95];
            for (i, r) in [0.05, 0.10, 0.25, 0.50, 0.75, 0.90, 0.95].iter().enumerate() {
                assert_eq!(f(got[i]), percentile(&vals, *r));
            }
        }
        Percentiles::Single { .. } => panic!("all percentiles"),
    }
}

#[test]
fn statistics_are_those_of_the_native_computation() {
    let mut s = Stream(1234567890123);
    let results: Vec<Option<TrajectoryOutput>> = (0..137)
        .map(|i| {
            let (a, b) = (s.unit() * 2.0 - 1.0, s.unit() - 0.5);
            if i % 9 == 4 {
                None
            } else {
                Some(output(a, b))
            }
        })
        .collect();
    let r = summary(&results, true, None);
    let valid: Vec<TrajectoryOutput> = results.iter().filter_map(|o| *o).collect();
    let st = r.statistics.unwrap();
    for (name, got) in [
        ("drop_m", &st.drop_m),
        ("wind_drift_m", &st.wind_drift_m),
        ("time_of_flight_s", &st.time_of_flight_s),
        ("final_vel_fps", &st.final_vel_fps),
        ("energy_ft_lbs", &st.energy_ft_lbs),
        ("mach", &st.mach),
    ] {
        let values: Vec<f64> = valid.iter().map(|o| f(field_value(o, name))).collect();
        check_field(got, &values);
    }
    let (wd, dr): (Vec<f64>, Vec<f64>) = valid.iter().map(|o| (f(o.wind_drift), f(o.drop))).unzip();
    let miss: Vec<f64> = wd.iter().zip(dr.iter()).map(|(x, y)| (x * x + y * y).sqrt()).collect();
    let hits = miss.iter().filter(|m| **m <= 0.3).count();
    let mut sorted = miss.clone();
    sorted.sort_by(|a, b| a.partial_cmp(b).unwrap_or(std::cmp::Ordering::Equal));
    let disp = r.dispersion.unwrap();
    assert_eq!(f(disp.hit_probability), hits as f64 / 137.0);
    assert_eq!(f(disp.hit_radius_m), 0.3);
    assert_eq!(f(disp.cep_m), calculate_cep(&wd, &dr));
    assert_eq!(f(disp.cep_inches), calculate_cep(&wd, &dr) * 39.3701);
    assert_eq!(f(disp.target_plane_cep_m), percentile(&sorted, 0.5));
    assert_eq!(f(disp.target_plane_cep_inches), percentile(&sorted, 0.5) * 39.3701);
    let (cx, cy, w, h, rot) = calculate_confidence_ellipse(&wd, &dr);
    let e = disp.ellipse;
    assert_eq!((f(e.center_x_m), f(e.center_y_m)), (cx, cy));
    assert_eq!((f(e.center_x_inches), f(e.center_y_inches)), (cx * 39.3701, cy * 39.3701));
    assert_eq!((f(e.semi_major_m), f(e.semi_minor_m)), (w, h));
    assert_eq!((f(e.semi_major_inches), f(e.semi_minor_inches)), (w * 39.3701, h * 39.3701));
    assert_eq!(f(e.rotation_deg), rot);
    assert_eq!(disp.sample_points, vec![(d(1.0), d(2.0))]);
    assert_eq!((r.metadata.valid_runs, r.metadata.failed_runs, r.metadata.total_runs), (122, 15, 137));
    assert_eq!(f(r.metadata.success_rate), 122.0 / 137.0);
}

#[test]
fn sums_start_where_native_sums_start() {
    let zero = |n: usize, z: f64| {
        let results: Vec<Option<TrajectoryOutput>> = (0..n).map(|_| Some(output(0.0, z))).collect();
        f(summary(&results, false, None).statistics.unwrap().wind_drift_m.mean).to_bits()
    };
    let native = |n: usize, z: f64| (vec![z; n].iter().sum::<f64>() / n as f64).to_bits();
    assert_eq!(zero(3, -0.0), native(3, -0.0));
    assert_eq!(zero(3, 0.0), native(3, 0.0));
}

#[test]
fn one_run_is_its_own_statistics() {
    let results = vec![None, Some(output(0.25, -0.5)), None];
    let r = summary(&results, true, None);
    let s = r.statistics.unwrap().drop_m;
    assert_eq!((f(s.mean), f(s.std), f(s.min), f(s.max)), (0.25, 0.0, 0.25, 0.25));
    assert_eq!(s.percentiles, Percentiles::Single { p50: d(0.25) });
    assert_eq!(r.dispersion, None);
    assert_eq!((r.metadata.valid_runs, r.metadata.failed_runs), (1, 2));
    assert_eq!(f(r.metadata.success_rate), 1.0 / 3.0);
}

#[test]
fn no_run_has_no_statistics() {
    for n in [0, 4] {
        let r = summary(&vec![None; n], true, None);
        assert_eq!(r.statistics, None);
        assert_eq!(r.dispersion, None);
        assert_eq!((r.metadata.valid_runs, r.metadata.failed_runs, r.metadata.total_runs), (0, n, n));
        assert_eq!(f(r.metadata.success_rate), 0.0);
    }
}

#[test]
fn dispersion_is_left_out_where_it_is_not_wanted() {
    let results = vec![Some(output(0.1, 0.1)), Some(output(0.2, 0.1)), None];
    assert_eq!(summary(&results, false, None).dispersion, None);
    let d1 = summary(&results, true, Some(0.2)).dispersion.unwrap();
    assert_eq!(f(d1.hit_radius_m), 0.2);
    assert_eq!(f(d1.hit_probability), 1.0 / 3.0);
    let d2 = summary(&results, true, Some(5.0)).dispersion.unwrap();
    assert_eq!(f(d2.hit_probability), 2.0 / 3.0);
    assert_eq!(hit_radius(None, d(0.3)), d(0.3));
    assert_eq!(hit_radius(Some(d(0.7)), d(0.3)), d(0.7));
}

#[test]
fn rates_lie_between_zero_and_one() {
    for n in [1usize, 2, 3, 7, 10, 49] {
        for k in 0..=n {
            let results: Vec<Option<TrajectoryOutput>> =
                (0..n).map(|i| if i < k { Some(output(i as f64, 0.0)) } else { None }).collect();
            let mut before = 0.0;
            for radius in [0.0, 0.5, 1.0, 20.0, 100.0] {
                let r = summary(&results, true, Some(radius));
                assert_eq!(f(r.metadata.success_rate), k as f64 / n as f64);
                assert!((0.0..=1.0).contains(&f(r.metadata.success_rate)));
                assert_eq!(r.metadata.valid_runs + r.metadata.failed_runs, r.metadata.total_runs);
                if let Some(x) = r.dispersion {
                    let p = f(x.hit_probability);
                    assert!((0.0..=1.0).contains(&p) && p >= before);
                    before = p;
                }
            }
        }
    }
}

#[test]
fn percentile_ranks_are_those_of_their_labels() {
    let r = percentile_ranks();
    let got = [(5, r.p5), (10, r.p10), (25, r.p25), (50, r.p50), (75, r.p75), (90, r.p90), (95, r.p95)];
    for (i, p) in [0.05, 0.10, 0.25, 0.50, 0.75, 0.90, 0.95].iter().enumerate() {
        assert_eq!(f(got[i].1), *p);
        assert_eq!((p * 100.0) as i32, got[i].0);
    }
}

#[test]
fn threads_are_counted_from_one() {
    assert_eq!(check_threads(None), Ok(None));
    assert_eq!(check_threads(Some(4)), Ok(Some(4)));
    let e = check_threads(Some(0)).unwrap_err();
    assert_eq!(e.kind, ExceptionKind::ValueError);
    assert_eq!(e.message, "Thread count must be greater than 0");
    assert_eq!(thread_pool_failure("x").message, "Failed to build thread pool: x");
}

#[test]
fn the_parameters_of_a_sampling_have_defaults() {
    let (p, w) = read_params(&dict(vec![])).unwrap();
    assert_eq!(p.num_simulations, 1000);
    assert_eq!((f(p.velocity_std_dev), f(p.angle_std_dev), f(p.bc_std_dev)), (1.0, 0.001, 0.01));
    assert_eq!((f(p.wind_speed_std_dev), f(p.azimuth_std_dev), f(w)), (1.0, 0.001, 0.001));
    assert_eq!((f(p.base_wind_speed), f(p.base_wind_direction), p.target_distance), (0.0, 0.0, None));
    let (p, w) = read_params(&dict(vec![
        ("num_simulations", num(12.0)),
        ("velocity_std_dev", num(2.0)),
        ("angle_std_dev", num(3.0)),
        ("bc_std_dev", num(4.0)),
        ("wind_speed_std_dev", num(5.0)),
        ("target_distance", num(6.0)),
        ("base_wind_speed", num(7.0)),
        ("base_wind_direction", num(8.0)),
        ("azimuth_std_dev", num(9.0)),
        ("wind_direction_std_dev", num(10.0)),
    ]))
    .unwrap();
    assert_eq!(p.num_simulations, 12);
    assert_eq!((f(p.velocity_std_dev), f(p.angle_std_dev), f(p.bc_std_dev)), (2.0, 3.0, 4.0));
    assert_eq!((f(p.wind_speed_std_dev), p.target_distance, f(p.base_wind_speed)), (5.0, Some(d(6.0)), 7.0));
    assert_eq!((f(p.base_wind_direction), f(p.azimuth_std_dev), f(w)), (8.0, 9.0, 10.0));
    for key in [
        "num_simulations",
        "target_distance",
        "velocity_std_dev",
        "angle_std_dev",
        "bc_std_dev",
        "wind_speed_std_dev",
        "base_wind_speed",
        "base_wind_direction",
        "azimuth_std_dev",
        "wind_direction_std_dev",
    ] {
        assert_eq!(read_params(&dict(vec![(key, bad())])).unwrap_err(), wrong(), "{key}");
    }
}

#[test]
fn a_sampling_is_requested() {
    let t = dict(vec![("wind_speed", num(18.0)), ("wind_angle", num(90.0)), ("temperature", num(20.0)), ("humidity", num(40.0))]);
    let none = dict(vec![]);
    let c = run_monte_carlo(&t, "", &none, None, None).unwrap();
    assert_eq!(f(c.base_wind.speed), 18.0 * (1000.0 / 3600.0));
    assert_eq!(f(c.base_wind.direction), 90.0f64.to_radians());
    assert_eq!(f(c.base_wind.vertical_speed), 0.0);
    assert_eq!((f(c.inputs.temperature), f(c.inputs.humidity)), (20.0, 40.0 / 100.0));
    let wind = PyWindConditions::new(d(5.0), d(45.0), d(1.0));
    let air = PyAtmosphericConditions::new(d(40.0), d(28.0), d(10.0), d(5000.0));
    let c = run_monte_carlo(&t, "", &none, Some(wind), Some(air)).unwrap();
    assert_eq!(c.base_wind, wind.to_rust());
    assert_eq!(f(c.inputs.temperature), (40.0 - 32.0) * 5.0 / 9.0);
    assert_eq!(f(c.inputs.pressure), 28.0 * 33.8639);
    assert_eq!(f(c.inputs.humidity), 10.0 / 100.0);
    assert_eq!(f(c.inputs.altitude), 5000.0 * 0.3048);
    assert_eq!(f(c.inputs.wind_speed), 18.0 * (1000.0 / 3600.0));
    assert!(run_monte_carlo(&dict(vec![("bc", bad())]), "", &none, None, None).is_err());
    assert!(run_monte_carlo(&t, "", &dict(vec![("bc_std_dev", bad())]), None, None).is_err());
}

#[test]
fn a_sampling_is_reported_or_raised() {
    let found = MonteCarloResults {
        hit_probability: d(0.5),
        target_plane_cep: Some(d(0.2)),
        target_arrival_count: 1,
        target_shortfall_fraction: d(0.5),
        ranges: vec![d(1.0), d(2.0)],
        impact_velocities: vec![d(3.0), d(4.0)],
        impact_positions: vec![(d(9.0), d(5.0), d(6.0)), (d(9.0), d(7.0), d(8.0))],
    };
    let r = monte_carlo_report(Ok(found), d(0.3)).unwrap();
    assert_eq!((f(r.hit_probability), f(r.hit_radius_m)), (0.5, 0.3));
    assert_eq!(r.target_plane_cep_m, Some(d(0.2)));
    assert_eq!((r.target_arrival_count, r.num_samples), (1, 2));
    assert_eq!(f(r.target_shortfall_fraction), 0.5);
    assert_eq!(r.ranges_m, vec![d(1.0), d(2.0)]);
    assert_eq!(r.impact_velocities_mps, vec![d(3.0), d(4.0)]);
    assert_eq!(r.impact_positions_yz_m, vec![(d(5.0), d(6.0)), (d(7.0), d(8.0))]);
    let e = monte_carlo_report(Err("no".to_string()), d(0.3)).unwrap_err();
    assert_eq!((e.kind, e.message.as_str()), (ExceptionKind::ValueError, "Monte Carlo run failed: no"));
}

#[test]
fn the_order_of_the_rows_does_not_matter() {
    let rows = vec![
        Some(output(0.3, 0.01)),
        None,
        Some(output(-0.2, 0.4)),
        Some(output(0.05, -0.3)),
        Some(output(0.3, 0.2)),
        Some(output(0.1, 0.1)),
    ];
    let one = summary(&rows, true, Some(0.35));
    for turn in [[5, 4, 3, 2, 1, 0], [2, 0, 5, 1, 4, 3], [1, 3, 0, 4, 5, 2]] {
        let other = summary(&turn.iter().map(|i| rows[*i]).collect(), true, Some(0.35));
        assert_eq!(other.statistics, one.statistics);
        assert_eq!(other.metadata, one.metadata);
        let (x, y) = (one.dispersion.as_ref().unwrap(), other.dispersion.as_ref().unwrap());
        assert_eq!(y.hit_probability, x.hit_probability);
        assert_eq!(y.hit_radius_m, x.hit_radius_m);
        assert_eq!(y.target_plane_cep_m, x.target_plane_cep_m);
    }
}

#[test]
fn the_order_of_the_rows_moves_only_the_signs_of_zeros() {
    let rows = vec![Some(output(0.0, 0.5)), Some(output(-0.0, -0.5)), Some(output(0.25, 0.0))];
    let turned: Vec<Option<TrajectoryOutput>> = rows.iter().rev().copied().collect();
    let (a, b) = (sorted_fields(&rows), sorted_fields(&turned));
    assert_ne!(a.drop_m, b.drop_m);
    assert_eq!(fs(&a.drop_m), fs(&b.drop_m));
    let (x, y) = (summary(&rows, false, None), summary(&turned, false, None));
    let (p, q) = (x.statistics.unwrap().drop_m, y.statistics.unwrap().drop_m);
    assert_eq!((f(p.mean), f(p.std), f(p.min), f(p.max)), (f(q.mean), f(q.std), f(q.min), f(q.max)));
    assert_eq!(x.metadata, y.metadata);
}

#[test]
fn extra_columns_and_names_change_nothing() {
    let name = |s: &str| s.to_string();
    let names = vec![name("bc_value"), name("altitude")];
    let row = vec![d(0.4), d(900.0)];
    let plain = sample_inputs(&base(), &names, &row);
    assert_ne!(plain, sample_inputs(&base(), &Vec::new(), &Vec::new()));
    let wide = vec![d(0.4), d(900.0), d(-5.0)];
    assert_eq!(sample_inputs(&base(), &names, &wide), plain);
    let unknown = vec![name("bc_value"), name("altitude"), name("colour")];
    assert_eq!(sample_inputs(&base(), &unknown, &wide), plain);
    let more = vec![name("bc_value"), name("altitude"), name("pressure")];
    assert_eq!(sample_inputs(&base(), &more, &row), plain);
    assert_ne!(sample_inputs(&base(), &more, &wide), plain);
}

#[test]
fn the_sample_conversion_agrees_with_the_full_one() {
    for wind in [0.0, -0.0, 18.0, -3.3, 1e300, 5e-310, f64::INFINITY] {
        let mut a = base();
        a.wind_speed = d(wind);
        a.muzzle_height = d(4.0);
        a.target_height = d(-2.0);
        a.humidity = d(55.0);
        a.altitude = d(1200.0);
        a.wind_angle = d(33.0);
        a.muzzle_angle = d(0.1);
        let mut b = a.copy();
        mc_inputs_to_si(&mut a);
        full_to_si(&mut b);
        assert_eq!((f(a.sight_height), f(a.muzzle_height), f(a.target_height)), (0.0, 0.0, 0.0));
        let (x, y) = (f(a.wind_speed), f(b.wind_speed));
        assert!(x == y || (x - y).abs() <= 1e-6 * y.abs(), "{wind}");
        b.wind_speed = a.wind_speed;
        b.sight_height = a.sight_height;
        b.muzzle_height = a.muzzle_height;
        b.target_height = a.target_height;
        b.cant_angle = a.cant_angle;
        assert_eq!(a, b);
    }
}

#[test]
fn the_finest_winds_differ_by_one_unit_at_most() {
    let both = |n: u64| {
        let mut a = base();
        a.wind_speed = Double::from_bits(n);
        let mut b = a.copy();
        mc_inputs_to_si(&mut a);
        full_to_si(&mut b);
        (a.wind_speed.to_bits(), b.wind_speed.to_bits())
    };
    for n in (1..1000).chain(2_499_500..2_500_500) {
        let (x, y) = both(n);
        assert!(x - y <= 1, "{n}");
    }
    assert_eq!(both(2_500_000), (694_445, 694_444));
}
