use ballistics_frontend::conditions::{PyAtmosphericConditions, PyWindConditions};
use ballistics_frontend::dict::{Dict, Value};
use ballistics_frontend::double::Double;
use ballistics_frontend::drag::{DragModel, PyDragModel};
use ballistics_frontend::exception::{Exception, ExceptionKind};
use ballistics_frontend::inputs::{ballistic_inputs_from_dict, BallisticInputs};
use ballistics_frontend::py_inputs::PyBallisticInputs;
use ballistics_frontend::solver::{auto_zero_inputs, zero_angle, PyTrajectorySolver};
use ballistics_frontend::trajectory::{
    PyTrajectoryPoint, PyTrajectoryResult, TrajectoryFlag, TrajectoryPoint, TrajectoryResult,
    TrajectorySample,
};

const GRAINS_TO_KG: f64 = 0.00006479891;
const DEGREES_TO_RADIANS: f64 = std::f64::consts::PI / 180.0;

fn d(x: f64) -> Double {
    Double::from_bits(x.to_bits())
}

fn f(x: Double) -> f64 {
    f64::from_bits(x.to_bits())
}

fn wrong() -> Exception {
    Exception {
        kind: ExceptionKind::Raised(7),
        message: "wrong".to_string(),
    }
}

fn num(x: f64) -> Value {
    Value {
        is_none: false,
        number: Ok(d(x)),
        flag: Err(wrong()),
        index: Err(wrong()),
        text: Err(wrong()),
        numbers: None,
        rows: None,
        drag_model: None,
        items: None,
        dict: None,
    }
}

fn text(s: &str) -> Value {
    Value {
        number: Err(wrong()),
        text: Ok(s.to_string()),
        ..num(0.0)
    }
}

fn flag(b: bool) -> Value {
    Value {
        number: Err(wrong()),
        flag: Ok(b),
        ..num(0.0)
    }
}

fn dict(entries: Vec<(&str, Value)>) -> Dict {
    Dict {
        entries: entries
            .into_iter()
            .map(|(k, v)| (k.to_string(), v))
            .collect(),
    }
}

fn base() -> BallisticInputs {
    let mut b = ballistic_inputs_from_dict(&dict(vec![]), "").unwrap();
    b.use_adaptive_rk45 = true;
    b.temperature = d(12.0);
    b
}

fn customary() -> PyBallisticInputs {
    PyBallisticInputs::new(
        base(),
        d(0.505),
        d(168.0),
        d(2650.0),
        d(0.308),
        d(1.24),
        d(1.5),
        d(100.0),
        d(2.0),
        d(11.25),
        true,
    )
}

#[test]
fn the_constructor_converts_its_values() {
    let p = customary();
    let i = &p.inner;
    assert_eq!(f(i.bc_value), 0.505);
    assert_eq!(i.bc_type, DragModel::G7);
    assert_eq!(i.bc_type_str, Some("G7".to_string()));
    assert_eq!(f(i.bullet_mass), 168.0 * GRAINS_TO_KG);
    assert_eq!(f(i.muzzle_velocity), 2650.0 * 0.3048);
    assert_eq!(f(i.bullet_diameter), 0.308 * 0.0254);
    assert_eq!(f(i.bullet_length), 1.24 * 0.0254);
    assert_eq!(f(i.sight_height), 1.5 * 0.0254);
    assert_eq!(f(i.target_distance), 100.0 * 0.9144);
    assert_eq!(f(i.shooting_angle), 2.0 * DEGREES_TO_RADIANS);
    assert_eq!(f(i.twist_rate), 11.25);
    assert!(i.is_twist_right);
    assert_eq!(f(i.caliber_inches), 0.308);
    assert_eq!(f(i.weight_grains), 168.0);
    assert!(i.use_rk4 && !i.use_adaptive_rk45);
    assert_eq!(f(i.temperature), 12.0);
}

#[test]
fn the_constructor_and_a_dictionary_agree() {
    let p = customary();
    let q = PyBallisticInputs::from_dict(
        &dict(vec![
            ("bc", num(0.505)),
            ("bullet_weight_grains", num(168.0)),
            ("muzzle_velocity_fps", num(2650.0)),
            ("bullet_diameter_inches", num(0.308)),
            ("bullet_length_inches", num(1.24)),
            ("sight_height_inches", num(1.5)),
            ("zero_distance_yards", num(100.0)),
            ("shooting_angle_degrees", num(2.0)),
            ("twist_rate_inches", num(11.25)),
            ("is_right_twist", flag(true)),
        ]),
        "",
    )
    .unwrap();
    let (a, b) = (&p.inner, &q.inner);
    assert_eq!(a.bc_value, b.bc_value);
    assert_eq!(a.bc_type, b.bc_type);
    assert_eq!(a.bc_type_str, b.bc_type_str);
    assert_eq!(a.bullet_mass, b.bullet_mass);
    assert_eq!(a.muzzle_velocity, b.muzzle_velocity);
    assert_eq!(a.bullet_diameter, b.bullet_diameter);
    assert_eq!(a.bullet_length, b.bullet_length);
    assert_eq!(a.sight_height, b.sight_height);
    assert_eq!(a.target_distance, b.target_distance);
    assert_eq!(a.shooting_angle, b.shooting_angle);
    assert_eq!(a.twist_rate, b.twist_rate);
    assert_eq!(a.is_twist_right, b.is_twist_right);
    assert_eq!(a.caliber_inches, b.caliber_inches);
    assert_eq!(a.weight_grains, b.weight_grains);
    assert_eq!((a.use_rk4, a.use_adaptive_rk45), (b.use_rk4, b.use_adaptive_rk45));
    assert!(PyBallisticInputs::from_dict(&dict(vec![("bc", text("x"))]), "").is_err());
}

#[test]
fn plain_properties_read_back_what_was_set() {
    let mut p = customary();
    p.set_bc(d(0.6));
    assert_eq!(p.bc(), d(0.6));
    p.set_twist_rate_inches(d(9.0));
    assert_eq!(p.twist_rate_inches(), d(9.0));
    p.set_is_right_twist(false);
    assert!(!p.is_right_twist());
    p.set_enable_trajectory_sampling(true);
    assert!(p.enable_trajectory_sampling());
    p.set_sample_interval_m(d(25.0));
    assert_eq!(p.sample_interval_m(), d(25.0));
    p.set_use_rk4(false);
    assert!(!p.use_rk4());
    p.set_use_adaptive_rk45(true);
    assert!(p.use_adaptive_rk45());
    p.set_drag_model(PyDragModel::g1());
    assert_eq!(p.drag_model().inner, DragModel::G1);
    assert_eq!(p.inner.bc_type_str, Some("G1".to_string()));
}

#[test]
fn scaled_properties_convert_both_ways() {
    let mut p = customary();
    p.set_bullet_weight_grains(d(175.0));
    assert_eq!(f(p.inner.bullet_mass), 175.0 * GRAINS_TO_KG);
    assert_eq!(f(p.inner.weight_grains), 175.0);
    assert_eq!(f(p.bullet_weight_grains()), 175.0 * GRAINS_TO_KG / GRAINS_TO_KG);
    p.set_muzzle_velocity_fps(d(2700.0));
    assert_eq!(f(p.inner.muzzle_velocity), 2700.0 * 0.3048);
    assert_eq!(f(p.muzzle_velocity_fps()), 2700.0 * 0.3048 / 0.3048);
    p.set_bullet_diameter_inches(d(0.264));
    assert_eq!(f(p.inner.bullet_diameter), 0.264 * 0.0254);
    assert_eq!(f(p.inner.caliber_inches), 0.264);
    assert_eq!(f(p.bullet_diameter_inches()), 0.264 * 0.0254 / 0.0254);
    p.set_bullet_length_inches(d(1.3));
    assert_eq!(f(p.bullet_length_inches()), 1.3 * 0.0254 / 0.0254);
    assert_eq!(f(p.inner.bullet_length), 1.3 * 0.0254);
    p.set_sight_height_inches(d(2.1));
    assert_eq!(f(p.inner.sight_height), 2.1 * 0.0254);
    assert_eq!(f(p.sight_height_inches()), 2.1 * 0.0254 / 0.0254);
    p.set_zero_distance_yards(d(200.0));
    assert_eq!(f(p.inner.target_distance), 200.0 * 0.9144);
    assert_eq!(f(p.zero_distance_yards()), 200.0 * 0.9144 / 0.9144);
    p.set_shooting_angle_degrees(d(-5.0));
    assert_eq!(f(p.inner.shooting_angle), -5.0 * DEGREES_TO_RADIANS);
    assert_eq!(f(p.shooting_angle_degrees()), -5.0 * DEGREES_TO_RADIANS / DEGREES_TO_RADIANS);
    p.set_cant_angle_degrees(d(3.0));
    assert_eq!(f(p.inner.cant_angle), 3.0 * DEGREES_TO_RADIANS);
    assert_eq!(f(p.cant_angle_degrees()), 3.0 * DEGREES_TO_RADIANS / DEGREES_TO_RADIANS);
    p.set_muzzle_height_inches(d(40.0));
    assert_eq!(f(p.inner.muzzle_height), 40.0 * 0.0254);
    assert_eq!(f(p.muzzle_height_inches()), 40.0 * 0.0254 / 0.0254);
    p.set_target_height_inches(d(41.0));
    assert_eq!(f(p.inner.target_height), 41.0 * 0.0254);
    assert_eq!(f(p.target_height_inches()), 41.0 * 0.0254 / 0.0254);
}

#[test]
fn scaled_properties_read_back_closely() {
    let mut p = customary();
    let mut exact = 0;
    for i in 1..4000 {
        let v = i as f64 * 0.37;
        p.set_bullet_weight_grains(d(v));
        p.set_muzzle_velocity_fps(d(-v));
        p.set_sight_height_inches(d(v));
        p.set_zero_distance_yards(d(v));
        p.set_cant_angle_degrees(d(v));
        for (back, v) in [
            (p.bullet_weight_grains(), v),
            (p.muzzle_velocity_fps(), -v),
            (p.sight_height_inches(), v),
            (p.zero_distance_yards(), v),
            (p.cant_angle_degrees(), v),
        ] {
            let off = (f(back) - v).abs();
            assert!(off * (1u64 << 51) as f64 <= v.abs());
            if off == 0.0 {
                exact += 1;
            }
        }
    }
    assert!(exact > 10_000 && exact < 19_995);
    p.set_sight_height_inches(d(1.5));
    assert_ne!(p.sight_height_inches(), d(1.5));
}

#[test]
fn the_description_shows_five_properties() {
    let shown = PyBallisticInputs::__repr__("0.505", "168", "2650", "0.308", "100");
    assert_eq!(
        shown,
        "BallisticInputs(bc=0.505, weight=168gr, mv=2650fps, diameter=0.308\", zero=100yd)"
    );
}

#[test]
fn a_copy_is_equal_and_apart() {
    let mut p = customary();
    p.inner.bc_segments = Some(vec![(d(1.0), d(0.3))]);
    p.inner.bullet_id = Some("x".to_string());
    let copy = p.to_rust();
    assert_eq!(copy, p.inner);
    p.set_bc(d(0.1));
    assert_ne!(copy, p.inner);
}

#[test]
fn winds_and_atmospheres_become_metric() {
    let w = PyWindConditions::new(d(10.0), d(90.0), d(-0.5)).to_rust();
    assert_eq!(f(w.speed), 10.0 * 0.44704);
    assert_eq!(f(w.direction), 90.0 * DEGREES_TO_RADIANS);
    assert_eq!(f(w.vertical_speed), -0.5);
    let a = PyAtmosphericConditions::new(d(59.0), d(29.92), d(50.0), d(1000.0)).to_rust();
    assert_eq!(f(a.temperature), (59.0 - 32.0) * 5.0 / 9.0);
    assert_eq!(f(a.pressure), 29.92 * 33.8639);
    assert_eq!(f(a.humidity), 50.0);
    assert_eq!(f(a.altitude), 1000.0 * 0.3048);
    let still = PyWindConditions::default();
    assert_eq!((f(still.speed_mph), f(still.direction_degrees), f(still.vertical_speed_mps)), (0.0, 0.0, 0.0));
    let standard = PyAtmosphericConditions::default();
    assert_eq!(
        (f(standard.temperature_f), f(standard.pressure_inhg), f(standard.humidity_percent), f(standard.altitude_feet)),
        (59.0, 29.92, 50.0, 0.0)
    );
}

#[test]
fn a_humidity_fraction_is_clamped_in_percent() {
    let mut b = base();
    for x in [0.0, -0.0, 0.25, 0.55, 1.0, 1.5, -0.5, f64::INFINITY, f64::NEG_INFINITY, 1e-320] {
        b.humidity = d(x);
        assert_eq!(f(b.humidity_percent()).to_bits(), (x * 100.0).clamp(0.0, 100.0).to_bits(), "{x}");
    }
    b.humidity = d(f64::NAN);
    assert!(f(b.humidity_percent()).is_nan());
}

fn point(x: f64) -> TrajectoryPoint {
    TrajectoryPoint {
        time: d(x / 800.0),
        x: d(x),
        y: d(-0.001 * x),
        z: d(0.0002 * x),
        velocity_magnitude: d(800.0 - x),
        kinetic_energy: d(3000.0 - x),
    }
}

#[test]
fn points_are_reported_in_yards() {
    let p = point(250.0);
    let mass = 0.0109;
    let r = PyTrajectoryPoint::from_rust(&p, d(1.05), d(mass));
    let v = 550.0;
    assert_eq!(r.time, p.time);
    assert_eq!(f(r.x), 250.0 / 0.9144);
    assert_eq!(f(r.y), (f(p.y) - 1.05) / 0.9144);
    assert_eq!(f(r.z), f(p.z) / 0.9144);
    assert_eq!(f(r.velocity_fps), v / 0.3048);
    assert_eq!(f(r.energy_ftlbs), 0.5 * mass * v * v / 1.35582);
}

#[test]
fn the_line_of_sight_is_at_height_zero() {
    for height in [0.0, -0.0, 0.05, 1.5, -3.25, 1e300, 5e-324] {
        let p = TrajectoryPoint {
            y: d(height),
            ..point(100.0)
        };
        assert_eq!(f(PyTrajectoryPoint::from_rust(&p, d(height), d(0.01)).y), 0.0);
        assert!(f(PyTrajectoryPoint::from_rust(&p, d(1e301), d(0.01)).y) < 0.0);
    }
}

#[test]
fn heights_of_the_engine_become_heights_from_its_line_of_sight() {
    let inputs = ballistics_engine::BallisticInputs {
        muzzle_height: 1.5,
        sight_height: 0.05,
        ..Default::default()
    };
    let solved = ballistics_engine::TrajectorySolver::new(inputs, Default::default(), Default::default())
        .solve()
        .unwrap();
    assert_eq!(solved.line_of_sight_height_m, 1.5 + 0.05);
    let muzzle = &solved.points[0];
    let p = TrajectoryPoint {
        y: d(muzzle.position.y),
        ..point(0.0)
    };
    let r = PyTrajectoryPoint::from_rust(&p, d(solved.line_of_sight_height_m), d(0.01));
    assert!((f(r.y) + 0.05 / 0.9144).abs() < 1e-9);
}

fn result() -> TrajectoryResult {
    TrajectoryResult {
        max_range: d(900.0),
        max_height: d(2.5),
        time_of_flight: d(1.6),
        impact_velocity: d(400.0),
        impact_energy: d(900.0),
        line_of_sight_height_m: d(0.04),
        points: vec![point(0.0), point(450.0), point(900.0)],
        sampled_points: Some(vec![TrajectorySample {
            distance_m: d(100.0),
            drop_m: d(0.1),
            wind_drift_m: d(0.2),
            velocity_mps: d(700.0),
            energy_j: d(2500.0),
            time_s: d(0.13),
            flags: vec![TrajectoryFlag::Apex, TrajectoryFlag::ZeroCrossing, TrajectoryFlag::MachTransition],
        }]),
        transonic_mach: Some(d(1.2)),
    }
}

#[test]
fn trajectories_are_reported_in_yards() {
    let r = PyTrajectoryResult::from_rust(result(), d(0.01));
    assert_eq!(f(r.max_range_yards), 900.0 / 0.9144);
    assert_eq!(f(r.max_height_yards), 2.5 / 0.9144);
    assert_eq!(f(r.time_of_flight), 1.6);
    assert_eq!(f(r.impact_velocity_fps), 400.0 / 0.3048);
    assert_eq!(f(r.impact_energy_ftlbs), 900.0 / 1.35582);
    assert_eq!(r.points.len(), 3);
    assert_eq!(r.points[1], PyTrajectoryPoint::from_rust(&point(450.0), d(0.04), d(0.01)));
    let rows = r.sampled_points.unwrap();
    assert_eq!(rows.len(), 1);
    assert_eq!((f(rows[0].distance_m), f(rows[0].drop_m), f(rows[0].wind_drift_m)), (100.0, 0.1, 0.2));
    assert_eq!((f(rows[0].velocity_mps), f(rows[0].energy_j), f(rows[0].time_s)), (700.0, 2500.0, 0.13));
    assert_eq!(rows[0].flags, vec!["apex", "zero_crossing", "mach_transition"]);
    let mut plain = result();
    plain.sampled_points = None;
    assert_eq!(PyTrajectoryResult::from_rust(plain, d(0.01)).sampled_points, None);
    assert_eq!(r.transonic_mach, Some(d(1.2)));
}

#[test]
fn flags_have_the_names_of_the_engine() {
    for (own, theirs) in [
        (TrajectoryFlag::ZeroCrossing, ballistics_engine::trajectory_sampling::TrajectoryFlag::ZeroCrossing),
        (TrajectoryFlag::MachTransition, ballistics_engine::trajectory_sampling::TrajectoryFlag::MachTransition),
        (TrajectoryFlag::Apex, ballistics_engine::trajectory_sampling::TrajectoryFlag::Apex),
    ] {
        assert_eq!(own.name(), theirs.to_string());
    }
}

#[test]
fn a_solver_takes_defaults_and_settings() {
    let p = customary();
    let mut s = PyTrajectorySolver::new(&p, None, None);
    assert_eq!(s.inputs, p.inner);
    assert_eq!(s.bullet_mass_kg, p.inner.bullet_mass);
    assert_eq!(s.wind, PyWindConditions::default().to_rust());
    assert_eq!(s.atmosphere, PyAtmosphericConditions::default().to_rust());
    assert_eq!((s.max_range, s.time_step), (None, None));
    assert!(s.wind_segments.is_empty() && s.atmo_segments.is_empty());
    s.set_max_range(d(1500.0));
    s.set_time_step(d(0.002));
    assert_eq!((s.max_range, s.time_step), (Some(d(1500.0)), Some(d(0.002))));
    s.set_atmo_segments(vec![(d(10.0), d(900.0), d(20.0), d(300.0))]);
    assert_eq!(s.atmo_segments.len(), 1);
    s.set_atmo_segments(Vec::new());
    assert!(s.atmo_segments.is_empty());
    let wind = PyWindConditions::new(d(5.0), d(45.0), d(0.0));
    let air = PyAtmosphericConditions::new(d(40.0), d(28.0), d(10.0), d(5000.0));
    let t = PyTrajectorySolver::new(&p, Some(wind), Some(air));
    assert_eq!(t.wind, wind.to_rust());
    assert_eq!(t.atmosphere, air.to_rust());
}

#[test]
fn bad_wind_segments_leave_the_solver_as_it_was() {
    let p = customary();
    let mut s = PyTrajectorySolver::new(&p, None, None);
    s.set_wind_segments(&vec![Ok(vec![d(10.0), d(90.0), d(200.0)])]).unwrap();
    assert_eq!(s.wind_segments.len(), 1);
    let before = s.wind_segments.clone();
    let e = s
        .set_wind_segments(&vec![Ok(vec![d(1.0), d(2.0), d(3.0)]), Ok(vec![d(1.0)])])
        .unwrap_err();
    assert_eq!(e.kind, ExceptionKind::ValueError);
    assert_eq!(s.wind_segments, before);
    s.set_wind_segments(&Vec::new()).unwrap();
    assert!(s.wind_segments.is_empty());
}

#[test]
fn a_solution_is_reported_or_raised() {
    let p = customary();
    let s = PyTrajectorySolver::new(&p, None, None);
    let r = s.solve(Ok(result())).unwrap();
    assert_eq!(r, PyTrajectoryResult::from_rust(result(), p.inner.bullet_mass));
    let e = s.solve(Err("too far".to_string())).unwrap_err();
    assert_eq!(e.kind, ExceptionKind::ValueError);
    assert_eq!(e.message, "Trajectory calculation failed: too far");
}

#[test]
fn zeroing_takes_the_conditions_given_or_its_own() {
    let t = dict(vec![
        ("wind_speed", num(18.0)),
        ("wind_angle", num(90.0)),
        ("temperature", num(20.0)),
        ("pressure", num(950.0)),
        ("humidity", num(40.0)),
        ("altitude", num(1000.0)),
    ]);
    let c = auto_zero_inputs(&t, "", d(200.0), d(1.0), None, None).unwrap();
    assert_eq!(f(c.target_distance), 200.0 * 0.9144);
    assert_eq!(f(c.target_height), 1.0 * 0.0254);
    assert_eq!(f(c.wind.speed), 18.0 * (1000.0 / 3600.0));
    assert_eq!(f(c.wind.direction), 90.0f64.to_radians());
    assert_eq!(f(c.wind.vertical_speed), 0.0);
    assert_eq!(f(c.atmosphere.temperature), 20.0);
    assert_eq!(f(c.atmosphere.pressure), 950.0);
    assert_eq!(f(c.atmosphere.humidity), (40.0 / 100.0) * 100.0);
    assert_eq!(f(c.atmosphere.altitude), 1000.0 * 0.3048);
    assert_eq!(c.inputs, PyBallisticInputs::from_dict(&t, "").unwrap().inner);
    let wind = PyWindConditions::new(d(5.0), d(45.0), d(1.0));
    let air = PyAtmosphericConditions::new(d(40.0), d(28.0), d(10.0), d(5000.0));
    let c = auto_zero_inputs(&t, "", d(200.0), d(1.0), Some(wind), Some(air)).unwrap();
    assert_eq!(c.wind, wind.to_rust());
    assert_eq!(c.atmosphere, air.to_rust());
    assert!(auto_zero_inputs(&dict(vec![("bc", text("x"))]), "", d(1.0), d(0.0), None, None).is_err());
}

#[test]
fn a_zero_is_returned_or_its_failure_raised() {
    assert_eq!(zero_angle("200", Ok(d(0.002))), Ok(d(0.002)));
    let e = zero_angle("200", Err("no convergence".to_string())).unwrap_err();
    assert_eq!(e.kind, ExceptionKind::RuntimeError);
    assert_eq!(
        e.message,
        "Unable to find zero angle for target distance 200 yards: no convergence"
    );
}

type NumberSetter = fn(&mut PyBallisticInputs, Double);
type FlagSetter = fn(&mut PyBallisticInputs, bool);

#[test]
fn a_dictionary_and_the_setters_write_the_same_object() {
    let none = || PyBallisticInputs::from_dict(&dict(vec![]), "").unwrap();
    let numbers: [(&str, NumberSetter); 13] = [
        ("bc", PyBallisticInputs::set_bc),
        ("bullet_weight_grains", PyBallisticInputs::set_bullet_weight_grains),
        ("muzzle_velocity_fps", PyBallisticInputs::set_muzzle_velocity_fps),
        ("bullet_diameter_inches", PyBallisticInputs::set_bullet_diameter_inches),
        ("bullet_length_inches", PyBallisticInputs::set_bullet_length_inches),
        ("sight_height_inches", PyBallisticInputs::set_sight_height_inches),
        ("zero_distance_yards", PyBallisticInputs::set_zero_distance_yards),
        ("shooting_angle_degrees", PyBallisticInputs::set_shooting_angle_degrees),
        ("twist_rate_inches", PyBallisticInputs::set_twist_rate_inches),
        ("cant_angle_degrees", PyBallisticInputs::set_cant_angle_degrees),
        ("sample_interval_m", PyBallisticInputs::set_sample_interval_m),
        ("muzzle_height_inches", PyBallisticInputs::set_muzzle_height_inches),
        ("target_height_inches", PyBallisticInputs::set_target_height_inches),
    ];
    for (key, set) in numbers {
        let mut a = none();
        set(&mut a, d(7.25));
        assert_ne!(a, none(), "{key}");
        assert_eq!(PyBallisticInputs::from_dict(&dict(vec![(key, num(7.25))]), "").unwrap(), a, "{key}");
    }
    let flags: [(&str, FlagSetter); 4] = [
        ("is_right_twist", PyBallisticInputs::set_is_right_twist),
        ("enable_trajectory_sampling", PyBallisticInputs::set_enable_trajectory_sampling),
        ("use_rk4", PyBallisticInputs::set_use_rk4),
        ("use_adaptive_rk45", PyBallisticInputs::set_use_adaptive_rk45),
    ];
    for (key, set) in flags {
        for v in [false, true] {
            let mut a = none();
            set(&mut a, v);
            assert_eq!(PyBallisticInputs::from_dict(&dict(vec![(key, flag(v))]), "").unwrap(), a, "{key}");
        }
    }
    let mut a = none();
    a.set_drag_model(PyDragModel::g1());
    let g1 = Value {
        drag_model: Some(DragModel::G1),
        ..text("G1")
    };
    assert_eq!(PyBallisticInputs::from_dict(&dict(vec![("drag_model", g1)]), "").unwrap(), a);
    assert_eq!((f(a.inner.weight_grains), f(a.inner.caliber_inches)), (168.0, 0.308));
}
