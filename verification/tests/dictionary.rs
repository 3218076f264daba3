use ballistics_frontend::dict::{bool_field, f64_field, opt_index, opt_number, opt_string, text_field, Dict, Value};
use ballistics_frontend::double::Double;
use ballistics_frontend::drag::{get_drag_coefficient, get_drag_coefficient_transonic};
use ballistics_frontend::drag::{parse_bc_type, parse_drag_model, parse_loose_model, DragModel, PyDragModel};
use ballistics_frontend::exception::{Exception, ExceptionKind};
use ballistics_frontend::fields::{
    extract_bc_segments, extract_bc_segments_data, is_sound_table, resolve_bc_type, resolve_custom_drag_table,
    resolve_shooting_angle, table_to_check, BCSegmentData,
};
use ballistics_frontend::inputs::{ballistic_inputs_from_dict, full_to_si, geometry_mass_to_si, BallisticInputs};
use ballistics_frontend::known_keys::{is_known_key, is_nested_key, is_run_parameter};

fn d(x: f64) -> Double {
    Double::from_bits(x.to_bits())
}

fn f(x: Double) -> f64 {
    f64::from_bits(x.to_bits())
}

fn wrong(what: &str) -> Exception {
    Exception {
        kind: ExceptionKind::Raised(7),
        message: what.to_string(),
    }
}

fn opaque() -> Value {
    Value {
        is_none: false,
        number: Err(wrong("must be real number")),
        flag: Err(wrong("must be a bool")),
        index: Err(wrong("must be an int")),
        text: Err(wrong("must be a str")),
        numbers: None,
        rows: None,
        drag_model: None,
        items: None,
        dict: None,
    }
}

fn none() -> Value {
    Value {
        is_none: true,
        ..opaque()
    }
}

fn num(x: f64) -> Value {
    Value {
        number: Ok(d(x)),
        ..opaque()
    }
}

fn count(n: usize) -> Value {
    Value {
        number: Ok(d(n as f64)),
        index: Ok(n),
        ..opaque()
    }
}

fn flag(b: bool) -> Value {
    Value {
        flag: Ok(b),
        ..opaque()
    }
}

fn text(s: &str) -> Value {
    Value {
        text: Ok(s.to_string()),
        ..opaque()
    }
}

fn rows(r: &[&[f64]]) -> Value {
    Value {
        rows: Some(r.iter().map(|v| v.iter().map(|x| d(*x)).collect()).collect()),
        ..opaque()
    }
}

fn numbers(r: &[f64]) -> Value {
    Value {
        numbers: Some(r.iter().map(|x| d(*x)).collect()),
        ..opaque()
    }
}

fn dict(entries: Vec<(&str, Value)>) -> Dict {
    Dict {
        entries: entries
            .into_iter()
            .map(|(k, v)| (k.to_string(), v))
            .collect(),
    }
}

fn nested(entries: Vec<(&str, Value)>) -> Value {
    Value {
        dict: Some(dict(entries)),
        ..opaque()
    }
}

fn list(items: Vec<Value>) -> Value {
    Value {
        items: Some(items),
        ..opaque()
    }
}

fn read(entries: Vec<(&str, Value)>) -> BallisticInputs {
    ballistic_inputs_from_dict(&dict(entries), "").unwrap()
}

fn fault(entries: Vec<(&str, Value)>) -> Exception {
    ballistic_inputs_from_dict(&dict(entries), "").unwrap_err()
}

#[test]
fn no_key_is_required_and_defaults_hold() {
    let b = read(vec![]);
    assert_eq!(f(b.bc_value), 0.5);
    assert_eq!(b.bc_type, DragModel::G7);
    assert_eq!(b.bc_type_str, Some("G7".to_string()));
    assert_eq!(f(b.bullet_mass), 168.0);
    assert_eq!(f(b.muzzle_velocity), 2650.0);
    assert_eq!(f(b.altitude), 0.0);
    assert_eq!(f(b.twist_rate), 11.25);
    assert_eq!(f(b.bullet_length), 1.2);
    assert_eq!(f(b.bullet_diameter), 0.308);
    assert_eq!(f(b.target_distance), 100.0);
    assert_eq!(f(b.muzzle_angle), 0.0);
    assert_eq!(f(b.wind_speed), 0.0);
    assert_eq!(f(b.wind_angle), 0.0);
    assert_eq!(f(b.temperature), 15.0);
    assert_eq!(f(b.pressure), 1013.25);
    assert_eq!(f(b.humidity), 0.0);
    assert_eq!(b.latitude, None);
    assert!(!b.enable_advanced_effects && !b.enable_magnus && !b.enable_coriolis);
    assert!(b.is_twist_right);
    assert_eq!(f(b.shooting_angle), 0.0);
    assert_eq!(f(b.azimuth_angle), 0.0);
    assert_eq!(f(b.shot_azimuth), 0.0);
    assert!(!b.use_powder_sensitivity);
    assert_eq!(f(b.powder_temp_sensitivity), 0.0);
    assert_eq!(f(b.powder_temp), 70.0);
    assert_eq!(f(b.tipoff_yaw), 0.0);
    assert_eq!(f(b.tipoff_decay_distance), 20.0);
    assert_eq!(f(b.ground_threshold), -100.0);
    assert_eq!(b.bc_segments, None);
    assert_eq!(f(b.caliber_inches), 0.0);
    assert_eq!(f(b.weight_grains), 0.0);
    assert!(!b.use_bc_segments);
    assert_eq!(b.bullet_id, None);
    assert_eq!(b.bc_segments_data, None);
    assert!(!b.use_enhanced_spin_drift);
    assert!(b.use_form_factor);
    assert_eq!(b.manufacturer, None);
    assert_eq!(b.bullet_model, None);
    assert!(!b.enable_wind_shear);
    assert_eq!(b.wind_shear_model, "none");
    assert!(!b.use_cluster_bc);
    assert_eq!(b.bullet_cluster, None);
    assert_eq!(b.custom_drag_table, None);
    assert!(!b.enable_pitch_damping && !b.enable_precession_nutation && !b.enable_aerodynamic_jump);
    assert!(b.use_rk4 && !b.use_adaptive_rk45 && !b.enable_trajectory_sampling);
    assert_eq!(f(b.sample_interval), 10.0);
    assert_eq!(f(b.sight_height), 1.5);
    assert_eq!(f(b.muzzle_height), 0.0);
    assert_eq!(f(b.target_height), 0.0);
    assert_eq!(f(b.cant_angle), 0.0);
}

#[test]
fn the_rich_key_wins_over_its_alias() {
    let pairs = [
        ("bc_value", "bc"),
        ("bullet_mass", "bullet_weight_grains"),
        ("muzzle_velocity", "muzzle_velocity_fps"),
        ("twist_rate", "twist_rate_inches"),
        ("bullet_length", "bullet_length_inches"),
        ("bullet_diameter", "bullet_diameter_inches"),
        ("target_distance", "zero_distance_yards"),
        ("sample_interval", "sample_interval_m"),
        ("sight_height", "sight_height_inches"),
        ("muzzle_height", "muzzle_height_inches"),
        ("target_height", "target_height_inches"),
    ];
    let get = |b: &BallisticInputs, k: &str| match k {
        "bc_value" => f(b.bc_value),
        "bullet_mass" => f(b.bullet_mass),
        "muzzle_velocity" => f(b.muzzle_velocity),
        "twist_rate" => f(b.twist_rate),
        "bullet_length" => f(b.bullet_length),
        "bullet_diameter" => f(b.bullet_diameter),
        "target_distance" => f(b.target_distance),
        "sample_interval" => f(b.sample_interval),
        "sight_height" => f(b.sight_height),
        "muzzle_height" => f(b.muzzle_height),
        _ => f(b.target_height),
    };
    for (rich, legacy) in pairs {
        let both = read(vec![(legacy, num(3.25)), (rich, num(7.5))]);
        assert_eq!(get(&both, rich), 7.5, "{rich}");
        let old = read(vec![(legacy, num(3.25))]);
        assert_eq!(get(&old, rich), 3.25, "{rich}");
        let null = read(vec![(rich, none()), (legacy, num(3.25))]);
        assert_eq!(get(&null, rich), 3.25, "{rich}");
    }
    assert!(!read(vec![("is_right_twist", flag(false))]).is_twist_right);
    assert!(read(vec![("is_right_twist", flag(false)), ("is_twist_right", flag(true))]).is_twist_right);
}

#[test]
fn every_single_key_is_read() {
    let b = read(vec![
        ("altitude", num(1500.0)),
        ("latitude", num(45.0)),
        ("bullet_cluster", count(3)),
        ("muzzle_angle", num(0.25)),
        ("wind_speed", num(16.0)),
        ("wind_angle", num(90.0)),
        ("temperature", num(20.0)),
        ("pressure", num(900.0)),
        ("humidity", num(40.0)),
        ("shot_direction", num(90.0)),
        ("use_powder_sensitivity", flag(true)),
        ("powder_temp_sensitivity", num(1.25)),
        ("powder_temp", num(80.0)),
        ("tipoff_yaw", num(0.5)),
        ("tipoff_decay_distance", num(25.0)),
        ("ground_threshold", num(-5.0)),
        ("caliber_inches", num(0.264)),
        ("weight_grains", num(140.0)),
        ("use_bc_segments", flag(true)),
        ("bullet_id", text("id")),
        ("use_form_factor", flag(false)),
        ("manufacturer", text("maker")),
        ("bullet_model", text("model")),
        ("enable_wind_shear", flag(true)),
        ("wind_shear_model", text("power_law")),
        ("use_cluster_bc", flag(true)),
        ("enable_aerodynamic_jump", flag(true)),
        ("use_rk4", flag(false)),
        ("use_adaptive_rk45", flag(true)),
        ("enable_trajectory_sampling", flag(true)),
        ("cant_angle_degrees", num(5.0)),
    ]);
    assert_eq!(f(b.altitude), 1500.0);
    assert_eq!(b.latitude, Some(d(45.0)));
    assert_eq!(b.bullet_cluster, Some(3));
    assert_eq!(f(b.muzzle_angle), 0.25);
    assert_eq!(f(b.wind_speed), 16.0);
    assert_eq!(f(b.wind_angle), 90.0);
    assert_eq!(f(b.temperature), 20.0);
    assert_eq!(f(b.pressure), 900.0);
    assert_eq!(f(b.humidity), 40.0);
    assert_eq!(f(b.shot_azimuth), 90.0f64.to_radians());
    assert!(b.use_powder_sensitivity);
    assert_eq!(f(b.powder_temp_sensitivity), 1.25);
    assert_eq!(f(b.powder_temp), 80.0);
    assert_eq!(f(b.tipoff_yaw), 0.5);
    assert_eq!(f(b.tipoff_decay_distance), 25.0);
    assert_eq!(f(b.ground_threshold), -5.0);
    assert_eq!(f(b.caliber_inches), 0.264);
    assert_eq!(f(b.weight_grains), 140.0);
    assert!(b.use_bc_segments);
    assert_eq!(b.bullet_id, Some("id".to_string()));
    assert!(!b.use_form_factor);
    assert_eq!(b.manufacturer, Some("maker".to_string()));
    assert_eq!(b.bullet_model, Some("model".to_string()));
    assert!(b.enable_wind_shear);
    assert_eq!(b.wind_shear_model, "power_law");
    assert!(b.use_cluster_bc && b.enable_aerodynamic_jump && !b.use_rk4);
    assert!(b.use_adaptive_rk45 && b.enable_trajectory_sampling);
    assert_eq!(f(b.cant_angle), 5.0);
}

#[test]
fn advanced_effects_bring_their_defaults() {
    let b = read(vec![("enable_advanced_effects", flag(true))]);
    assert!(b.enable_magnus && b.use_enhanced_spin_drift && !b.enable_coriolis);
    let b = read(vec![("enable_advanced_effects", flag(true)), ("latitude", num(10.0))]);
    assert!(b.enable_coriolis);
    let b = read(vec![
        ("enable_advanced_effects", flag(true)),
        ("latitude", num(10.0)),
        ("enable_coriolis", flag(false)),
        ("use_enhanced_spin_drift", flag(false)),
    ]);
    assert!(!b.enable_coriolis && !b.use_enhanced_spin_drift && b.enable_magnus);
    let b = read(vec![("enable_coriolis", flag(true))]);
    assert!(b.enable_coriolis && !b.enable_magnus);
    let b = read(vec![("latitude", num(10.0))]);
    assert!(!b.enable_coriolis);
}

#[test]
fn unknown_keys_and_nulls_change_nothing() {
    let plain = read(vec![("bc", num(0.4))]);
    assert_eq!(
        read(vec![("bc", num(0.4)), ("nonsense", text("x")), ("BC", num(9.0))]),
        plain
    );
    assert_eq!(
        read(vec![
            ("bc", num(0.4)),
            ("altitude", none()),
            ("latitude", none()),
            ("wind_shear_model", none()),
            ("bc_segments", none()),
            ("bc_segments_data", none()),
            ("custom_drag_table", none()),
            ("custom_drag_function", none()),
            ("shooting_angle", none()),
            ("shooting_angle_degrees", none()),
            ("bc_type", none()),
            ("drag_model", none()),
            ("bullet_cluster", none()),
        ]),
        plain
    );
}

#[test]
fn a_value_of_the_wrong_type_is_an_error() {
    assert_eq!(fault(vec![("bc", text("x"))]), wrong("must be real number"));
    assert_eq!(fault(vec![("latitude", text("x"))]), wrong("must be real number"));
    assert_eq!(fault(vec![("bullet_cluster", text("x"))]), wrong("must be an int"));
    assert_eq!(fault(vec![("use_rk4", num(1.0))]), wrong("must be a bool"));
    assert_eq!(fault(vec![("is_right_twist", num(1.0))]), wrong("must be a bool"));
    assert_eq!(fault(vec![("bullet_id", num(1.0))]), wrong("must be a str"));
    assert_eq!(fault(vec![("wind_shear_model", num(1.0))]), wrong("must be a str"));
    assert_eq!(fault(vec![("bc_type", num(1.0))]), wrong("must be a str"));
    assert_eq!(fault(vec![("drag_model", num(1.0))]), wrong("must be a str"));
    assert_eq!(fault(vec![("shooting_angle_degrees", text("x"))]), wrong("must be real number"));
    assert_eq!(fault(vec![("cant_angle_degrees", text("x"))]), wrong("must be real number"));
}

#[test]
fn the_first_fault_in_reading_order_is_raised() {
    let e = fault(vec![
        ("cant_angle_degrees", text("x")),
        ("custom_drag_table", num(1.0)),
        ("bc_type", text("X9")),
    ]);
    assert_eq!(e.message, "Invalid BC type: 'X9'. Expected G1, G6, G7, or G8.");
    let e = fault(vec![("cant_angle_degrees", text("x")), ("custom_drag_table", num(1.0))]);
    assert_eq!(e.kind, ExceptionKind::ValueError);
}

#[test]
fn the_drag_model_is_strict_then_loose_then_g7() {
    let model = |v: Vec<(&str, Value)>| resolve_bc_type(&dict(v)).unwrap();
    assert_eq!(model(vec![]), (DragModel::G7, "G7".to_string()));
    assert_eq!(model(vec![("bc_type", text("DragModel.G1"))]), (DragModel::G1, "DragModel.G1".to_string()));
    assert_eq!(model(vec![("bc_type", text("G6"))]).0, DragModel::G6);
    assert_eq!(model(vec![("bc_type", text("G7"))]).0, DragModel::G7);
    assert_eq!(model(vec![("bc_type", text("G8"))]).0, DragModel::G8);
    assert_eq!(model(vec![("bc_type", text("G8G1"))]).0, DragModel::G1);
    assert_eq!(model(vec![("drag_model", text("G8"))]), (DragModel::G8, "G8".to_string()));
    assert_eq!(model(vec![("drag_model", text("G6 G8"))]).0, DragModel::G8);
    assert_eq!(model(vec![("drag_model", text("what"))]), (DragModel::G7, "what".to_string()));
    assert_eq!(model(vec![("drag_model", text("g1"))]).0, DragModel::G7);
    let object = Value {
        drag_model: Some(DragModel::G8),
        ..opaque()
    };
    assert_eq!(model(vec![("drag_model", object)]), (DragModel::G8, "G8".to_string()));
    assert_eq!(
        model(vec![("drag_model", text("G8")), ("bc_type", text("G1"))]),
        (DragModel::G1, "G1".to_string())
    );
    assert_eq!(
        parse_bc_type("g7").unwrap_err().message,
        "Invalid BC type: 'g7'. Expected G1, G6, G7, or G8."
    );
    assert_eq!(parse_loose_model("xG1x"), DragModel::G1);
}

#[test]
fn drag_models_are_queried_in_any_case() {
    assert_eq!(parse_drag_model("g1").unwrap(), DragModel::G1);
    assert_eq!(parse_drag_model("G6").unwrap(), DragModel::G6);
    assert_eq!(parse_drag_model("g7").unwrap(), DragModel::G7);
    assert_eq!(parse_drag_model("G8").unwrap(), DragModel::G8);
    for s in ["", "G2", " G1", "G1 ", "DragModel.G1", "\u{1E21}1"] {
        let e = parse_drag_model(s).unwrap_err();
        assert_eq!(e.kind, ExceptionKind::ValueError);
        assert_eq!(
            e.message,
            format!("Invalid drag model: '{s}'. Expected G1, G6, G7, or G8.")
        );
    }
    for c in '\0'..=char::MAX {
        let upper: String = c.to_uppercase().collect();
        let hit = parse_drag_model(&format!("{c}1")).is_ok();
        assert_eq!(hit, upper == "G", "{c:?}");
    }
}

#[test]
fn drag_coefficients_are_requested() {
    let c = get_drag_coefficient(d(1.5), "g7").unwrap();
    assert_eq!((c.mach, c.model), (d(1.5), DragModel::G7));
    let e = get_drag_coefficient(d(1.5), "G2").unwrap_err();
    assert_eq!(e.message, "Invalid drag model: 'G2'. Expected G1, G6, G7, or G8.");
    let c = get_drag_coefficient_transonic(d(0.9), "G1", false, Some(d(0.308)), None).unwrap();
    assert_eq!((c.mach, c.model, c.apply_transonic_correction), (d(0.9), DragModel::G1, false));
    assert_eq!((c.caliber, c.weight_grains), (Some(d(0.308)), None));
    assert!(get_drag_coefficient_transonic(d(0.9), "", true, None, Some(d(1.0))).is_err());
}

#[test]
fn drag_model_objects_show_their_name() {
    assert_eq!(PyDragModel::g1().inner, DragModel::G1);
    assert_eq!(PyDragModel::g7().inner, DragModel::G7);
    assert_eq!(PyDragModel::g8().inner, DragModel::G8);
    assert_eq!(PyDragModel::g1().__repr__(), "G1");
    assert_eq!(PyDragModel::g7().__repr__(), "G7");
    assert_eq!(PyDragModel::g8().__repr__(), "G8");
}

#[test]
fn mach_segments_are_pairs() {
    let read = |v: Value| extract_bc_segments(&dict(vec![("bc_segments", v)]));
    assert_eq!(
        read(rows(&[&[1.0, 0.3], &[2.0, 0.4]])).unwrap(),
        Some(vec![(d(1.0), d(0.3)), (d(2.0), d(0.4))])
    );
    assert_eq!(read(rows(&[])).unwrap(), None);
    for bad in [rows(&[&[1.0, 0.3], &[2.0]]), rows(&[&[1.0, 2.0, 3.0]]), num(1.0)] {
        let e = read(bad).unwrap_err();
        assert_eq!(e.kind, ExceptionKind::ValueError);
        assert_eq!(
            e.message,
            "Could not extract BC segments - expected list of [mach, bc] pairs"
        );
    }
    assert_eq!(extract_bc_segments(&dict(vec![])).unwrap(), None);
}

#[test]
fn velocity_segments_are_dictionaries() {
    let read = |v: Value| extract_bc_segments_data(&dict(vec![("bc_segments_data", v)]));
    let segment = || nested(vec![
        ("velocity_min", num(1000.0)),
        ("velocity_max", num(2000.0)),
        ("bc_value", num(0.31)),
    ]);
    let want = BCSegmentData {
        velocity_min: d(1000.0),
        velocity_max: d(2000.0),
        bc_value: d(0.31),
    };
    assert_eq!(
        read(list(vec![segment(), num(4.0), segment()])).unwrap(),
        Some(vec![want, want])
    );
    assert_eq!(read(list(vec![])).unwrap(), None);
    assert_eq!(read(list(vec![num(4.0)])).unwrap(), None);
    assert_eq!(read(num(4.0)).unwrap(), None);
    let e = read(list(vec![nested(vec![("velocity_min", num(1.0)), ("bc_value", num(1.0))])])).unwrap_err();
    assert_eq!(e.kind, ExceptionKind::KeyError);
    assert_eq!(e.message, "BC segment missing velocity_max");
    let e = read(list(vec![nested(vec![])])).unwrap_err();
    assert_eq!(e.message, "BC segment missing velocity_min");
    let e = read(list(vec![nested(vec![("velocity_min", num(1.0)), ("velocity_max", num(2.0))])])).unwrap_err();
    assert_eq!(e.message, "BC segment missing bc_value");
    let e = read(list(vec![nested(vec![("velocity_min", text("x"))])])).unwrap_err();
    assert_eq!(e, wrong("must be real number"));
}

#[test]
fn a_drag_table_is_checked_before_use() {
    let table = || dict(vec![("custom_drag_table", rows(&[&[0.5, 0.2], &[1.5, 0.4]]))]);
    let asked = table_to_check(&table()).unwrap();
    assert_eq!(asked.mach_values, vec![d(0.5), d(1.5)]);
    assert_eq!(asked.cd_values, vec![d(0.2), d(0.4)]);
    let taken = resolve_custom_drag_table(&table(), "").unwrap().unwrap();
    assert_eq!(taken.mach_values, vec![d(0.5), d(1.5)]);
    assert_eq!(taken.cd_values, vec![d(0.2), d(0.4)]);
    let turned = dict(vec![("custom_drag_table", rows(&[&[1.5, 0.4], &[0.5, 0.2]]))]);
    let e = resolve_custom_drag_table(&turned, "mach not ascending").unwrap_err();
    assert_eq!(e.kind, ExceptionKind::ValueError);
    assert_eq!(e.message, "mach not ascending");
    for bad in [rows(&[&[1.0]]), num(1.0)] {
        let t = dict(vec![("custom_drag_table", bad)]);
        assert_eq!(table_to_check(&t), None);
        let e = resolve_custom_drag_table(&t, "").unwrap_err();
        assert_eq!(
            e.message,
            "custom_drag_table must be a list of [mach, cd] pairs (>=2 points)"
        );
    }
}

#[test]
fn a_drag_table_is_sound_where_the_engine_takes_it() {
    let floats = |v: &Vec<Double>| v.iter().map(|x| f(*x)).collect::<Vec<f64>>();
    for (r, sound) in [
        (rows(&[&[0.5, 0.2], &[1.5, 0.4]]), true),
        (rows(&[&[0.5, 0.2]]), false),
        (rows(&[&[1.5, 0.2], &[0.5, 0.4]]), false),
        (rows(&[&[0.5, 0.2], &[1.5, 0.0]]), false),
        (rows(&[&[0.5, 0.2], &[f64::INFINITY, 0.3]]), false),
        (rows(&[]), false),
        (rows(&[&[0.0, 0.2], &[1.5, 5e-324]]), true),
        (rows(&[&[-0.0, 0.2], &[5e-324, 0.4]]), true),
        (rows(&[&[-0.1, 0.2], &[1.5, 0.4]]), false),
        (rows(&[&[0.0, 0.2], &[-0.0, 0.4]]), false),
        (rows(&[&[0.5, 0.2], &[0.5, 0.4]]), false),
        (rows(&[&[0.5, 0.2], &[0.7, 0.3], &[0.6, 0.4]]), false),
        (rows(&[&[0.5, 0.2], &[0.7, 0.3], &[0.9, 0.4]]), true),
        (rows(&[&[0.5, 0.2], &[f64::NAN, 0.3], &[0.9, 0.4]]), false),
        (rows(&[&[0.5, -0.2], &[0.7, 0.3]]), false),
        (rows(&[&[0.5, 0.2], &[0.7, f64::NAN]]), false),
        (rows(&[&[0.5, f64::INFINITY], &[0.7, 0.3]]), false),
    ] {
        let t = dict(vec![("custom_drag_table", r)]);
        let asked = table_to_check(&t).unwrap();
        let refusal =
            ballistics_engine::drag::DragTable::try_new(floats(&asked.mach_values), floats(&asked.cd_values)).err();
        assert_eq!(refusal.is_none(), sound);
        assert_eq!(is_sound_table(&asked), sound);
        match ballistic_inputs_from_dict(&t, &refusal.clone().unwrap_or_default()) {
            Ok(b) => {
                assert!(sound);
                assert_eq!(b.custom_drag_table, Some(asked));
            }
            Err(e) => {
                assert_eq!(e.kind, ExceptionKind::ValueError);
                assert_eq!(Some(e.message), refusal);
            }
        }
    }
}

#[test]
fn a_refusal_is_read_only_of_an_unsound_table() {
    let table = |r: Value| dict(vec![("custom_drag_table", r), ("bc", num(0.4))]);
    let sound = || table(rows(&[&[0.5, 0.2], &[1.5, 0.4]]));
    assert_eq!(ballistic_inputs_from_dict(&sound(), "refused"), ballistic_inputs_from_dict(&sound(), ""));
    assert!(ballistic_inputs_from_dict(&sound(), "refused").is_ok());
    let unsound = || table(rows(&[&[0.5, 0.2], &[1.5, -0.4]]));
    assert_eq!(ballistic_inputs_from_dict(&unsound(), "refused").unwrap_err().message, "refused");
    assert!(ballistic_inputs_from_dict(&unsound(), "").is_err());
}

#[test]
fn a_drag_function_is_taken_as_it_is_or_ignored() {
    let read = |v: Value| resolve_custom_drag_table(&dict(vec![("custom_drag_function", v)]), "").unwrap();
    let t = read(nested(vec![
        ("mach_numbers", numbers(&[2.0, 1.0])),
        ("drag_coefficients", numbers(&[-1.0, 0.5])),
    ]))
    .unwrap();
    assert_eq!(t.mach_values, vec![d(2.0), d(1.0)]);
    assert_eq!(t.cd_values, vec![d(-1.0), d(0.5)]);
    assert_eq!(read(num(1.0)), None);
    assert_eq!(read(nested(vec![("mach_numbers", numbers(&[1.0]))])), None);
    assert_eq!(
        read(nested(vec![("mach_numbers", numbers(&[1.0])), ("drag_coefficients", numbers(&[1.0, 2.0]))])),
        None
    );
    assert_eq!(
        read(nested(vec![("mach_numbers", numbers(&[])), ("drag_coefficients", numbers(&[]))])),
        None
    );
    assert_eq!(
        read(nested(vec![("mach_numbers", num(1.0)), ("drag_coefficients", numbers(&[1.0]))])),
        None
    );
    let both = dict(vec![
        ("custom_drag_function", nested(vec![("mach_numbers", numbers(&[9.0])), ("drag_coefficients", numbers(&[9.0]))])),
        ("custom_drag_table", rows(&[&[0.5, 0.2], &[1.5, 0.4]])),
    ]);
    assert_eq!(
        resolve_custom_drag_table(&both, "").unwrap().unwrap().mach_values,
        vec![d(0.5), d(1.5)]
    );
}

#[test]
fn the_shooting_angle_is_radians_or_degrees() {
    let read = |v: Vec<(&str, Value)>| f(resolve_shooting_angle(&dict(v)).unwrap());
    assert_eq!(read(vec![("shooting_angle", num(0.25))]), 0.25);
    assert_eq!(read(vec![("shooting_angle_degrees", num(10.0))]), 10.0f64.to_radians());
    assert_eq!(read(vec![("shooting_angle_degrees", num(10.0)), ("shooting_angle", num(0.25))]), 0.25);
    assert_eq!(read(vec![]), 0.0);
}

#[test]
fn single_fields_are_read() {
    let t = dict(vec![
        ("a", num(1.5)),
        ("b", flag(true)),
        ("c", count(7)),
        ("d", text("t")),
        ("e", none()),
    ]);
    assert_eq!(f(f64_field(&t, "a", None, d(9.0)).unwrap()), 1.5);
    assert_eq!(f(f64_field(&t, "z", Some("a"), d(9.0)).unwrap()), 1.5);
    assert_eq!(f(f64_field(&t, "e", Some("z"), d(9.0)).unwrap()), 9.0);
    assert!(f64_field(&t, "b", Some("a"), d(9.0)).is_err());
    assert!(bool_field(&t, "b", None, false).unwrap());
    assert!(bool_field(&t, "z", Some("b"), false).unwrap());
    assert!(!bool_field(&t, "e", None, false).unwrap());
    assert!(bool_field(&t, "a", None, false).is_err());
    assert_eq!(opt_number(&t, "a").unwrap(), Some(d(1.5)));
    assert_eq!(opt_number(&t, "e").unwrap(), None);
    assert!(opt_number(&t, "d").is_err());
    assert_eq!(opt_index(&t, "c").unwrap(), Some(7));
    assert_eq!(opt_index(&t, "z").unwrap(), None);
    assert!(opt_index(&t, "a").is_err());
    assert_eq!(opt_string(&t, "d").unwrap(), Some("t".to_string()));
    assert_eq!(opt_string(&t, "e").unwrap(), None);
    assert!(opt_string(&t, "a").is_err());
    assert_eq!(text_field(&t, "d", "x").unwrap(), "t");
    assert_eq!(text_field(&t, "z", "x").unwrap(), "x");
    assert!(text_field(&t, "a", "x").is_err());
}

#[test]
fn geometry_becomes_metric_with_imperial_mirrors() {
    let mut b = read(vec![]);
    geometry_mass_to_si(&mut b);
    assert_eq!(f(b.bullet_mass), 168.0 * 0.00006479891);
    assert_eq!(f(b.bullet_diameter), 0.308 * 0.0254);
    assert_eq!(f(b.bullet_length), 1.2 * 0.0254);
    assert_eq!(f(b.caliber_inches), 0.308);
    assert_eq!(f(b.weight_grains), 168.0);
    assert_eq!(f(b.muzzle_velocity), 2650.0);
    let once = f(b.bullet_mass);
    geometry_mass_to_si(&mut b);
    assert_ne!(f(b.bullet_mass), once);
    assert_eq!(f(b.weight_grains), 168.0);
    let mut b = read(vec![("caliber_inches", num(0.3)), ("weight_grains", num(-0.0))]);
    geometry_mass_to_si(&mut b);
    assert_eq!(f(b.caliber_inches), 0.3);
    assert_eq!(f(b.weight_grains), 168.0);
}

#[test]
fn everything_becomes_metric() {
    let mut b = read(vec![
        ("altitude", num(1000.0)),
        ("wind_speed", num(16.0)),
        ("wind_angle", num(90.0)),
        ("muzzle_angle", num(0.3)),
        ("cant_angle_degrees", num(5.0)),
        ("humidity", num(55.0)),
        ("muzzle_height_inches", num(40.0)),
        ("target_height_inches", num(50.0)),
        ("shooting_angle_degrees", num(15.0)),
        ("temperature", num(20.0)),
    ]);
    full_to_si(&mut b);
    assert_eq!(f(b.muzzle_velocity), 2650.0 * 0.3048);
    assert_eq!(f(b.target_distance), 100.0 * 0.9144);
    assert_eq!(f(b.altitude), 1000.0 * 0.3048);
    assert_eq!(f(b.sight_height), 1.5 * 0.0254);
    assert_eq!(f(b.muzzle_height), 40.0 * 0.0254);
    assert_eq!(f(b.target_height), 50.0 * 0.0254);
    assert_eq!(f(b.wind_speed), 16.0 * (1000.0 / 3600.0));
    assert_eq!(f(b.wind_angle), 90.0f64.to_radians());
    assert_eq!(f(b.muzzle_angle), 0.3f64.to_radians());
    assert_eq!(f(b.cant_angle), 5.0f64.to_radians());
    assert_eq!(f(b.humidity), 55.0 / 100.0);
    assert_eq!(f(b.shooting_angle), 15.0f64.to_radians());
    assert_eq!(f(b.temperature), 20.0);
    assert_eq!(f(b.bullet_mass), 168.0 * 0.00006479891);
    assert_eq!(f(b.twist_rate), 11.25);
}

fn first_value(key: &str) -> Value {
    match key {
        "bc_type" => text("G1"),
        "is_twist_right" => flag(false),
        _ => num(2.5),
    }
}

#[test]
fn beside_the_first_key_the_second_is_ignored() {
    let pairs = [
        ("bc_value", "bc"),
        ("bc_type", "drag_model"),
        ("bullet_mass", "bullet_weight_grains"),
        ("muzzle_velocity", "muzzle_velocity_fps"),
        ("twist_rate", "twist_rate_inches"),
        ("bullet_length", "bullet_length_inches"),
        ("bullet_diameter", "bullet_diameter_inches"),
        ("target_distance", "zero_distance_yards"),
        ("sample_interval", "sample_interval_m"),
        ("sight_height", "sight_height_inches"),
        ("muzzle_height", "muzzle_height_inches"),
        ("target_height", "target_height_inches"),
        ("is_twist_right", "is_right_twist"),
        ("shooting_angle", "shooting_angle_degrees"),
    ];
    for (first, second) in pairs {
        let alone = read(vec![(first, first_value(first))]);
        assert_ne!(alone, read(vec![]), "{first}");
        for other in [num(9.0), flag(true), text("G8"), none(), list(vec![])] {
            let both = read(vec![(second, other), (first, first_value(first))]);
            assert_eq!(both, alone, "{first}");
        }
        let unread = fault(vec![("altitude", text("high")), (first, first_value(first)), (second, list(vec![]))]);
        assert_eq!(unread, wrong("must be real number"), "{first}");
    }
}

#[test]
fn the_second_key_is_honoured_alone() {
    assert_eq!(read(vec![("is_right_twist", flag(false))]), read(vec![("is_twist_right", flag(false))]));
    assert_eq!(read(vec![("zero_distance_yards", num(250.0))]), read(vec![("target_distance", num(250.0))]));
    let g1 = Value {
        drag_model: Some(DragModel::G1),
        ..opaque()
    };
    assert_eq!(read(vec![("drag_model", g1)]), read(vec![("bc_type", text("G1"))]));
    let degrees = read(vec![("shooting_angle_degrees", num(30.0))]);
    assert_eq!(f(degrees.shooting_angle), 30.0f64.to_radians());
}

#[test]
fn keys_are_known_by_their_exact_text() {
    for key in ["bc_value", "drag_model", "custom_drag_table", "zero_distance_yards", "use_rk4", "cant_angle_degrees"] {
        assert!(is_known_key(key), "{key}");
    }
    for key in ["", "Bc_value", "bc_value ", "velocity_min", "num_simulations", "colour"] {
        assert!(!is_known_key(key), "{key}");
    }
    for key in ["velocity_min", "velocity_max", "bc_value", "mach_numbers", "drag_coefficients"] {
        assert!(is_nested_key(key), "{key}");
    }
    assert!(!is_nested_key("bc"));
    for key in ["num_simulations", "target_distance", "wind_direction_std_dev"] {
        assert!(is_run_parameter(key), "{key}");
    }
    assert!(!is_run_parameter("bc_value"));
}

#[test]
fn a_drag_model_and_its_upper_case_are_answered_alike() {
    for s in ["g1", "G1", "g6", "g7", "G7", "g8", "g2", "", "g", "g77", " g7", "G7 bc", "\u{FB01}1"] {
        let upper = s.to_uppercase();
        let model = parse_drag_model(s).ok();
        assert_eq!(model, parse_drag_model(&upper).ok(), "{s}");
        assert_eq!(model.is_some(), ["G1", "G6", "G7", "G8"].contains(&upper.as_str()), "{s}");
        assert_eq!(
            get_drag_coefficient(d(0.9), s).ok().map(|c| (c.mach, c.model)),
            get_drag_coefficient(d(0.9), &upper).ok().map(|c| (c.mach, c.model)),
            "{s}"
        );
    }
}
