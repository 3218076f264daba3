use ballistics_engine::transonic_drag::ProjectileShape as EngineShape;
use ballistics_frontend::bridge::bridge_call;
use ballistics_frontend::dict::{Dict, Value};
use ballistics_frontend::double::Double;
use ballistics_frontend::effects::{
    bullet_type_from_dict, compute_spin_drift, compute_stability_coefficient, get_local_atmosphere,
    get_projectile_shape, transonic_correction, ProjectileShape, Query,
};
use ballistics_frontend::exception::{Exception, ExceptionKind};
use ballistics_frontend::fast::{
    calculate_zero_angle, derivatives, derivatives_surroundings, fast_integrate, matrix_failure, WindQuery,
};
use ballistics_frontend::inputs::{ballistic_inputs_from_dict, geometry_mass_to_si};

fn d(x: f64) -> Double {
    Double::from_bits(x.to_bits())
}

fn f(x: Double) -> f64 {
    f64::from_bits(x.to_bits())
}

fn wrong() -> Exception {
    Exception {
        kind: ExceptionKind::Raised(7),
        message: "wrong".to_string(),
    }
}

fn num(x: f64) -> Value {
    Value {
        is_none: false,
        number: Ok(d(x)),
        flag: Err(wrong()),
        index: Err(wrong()),
        text: Err(wrong()),
        numbers: None,
        rows: None,
        drag_model: None,
        items: None,
        dict: None,
    }
}

fn text(s: &str) -> Value {
    Value {
        number: Err(wrong()),
        text: Ok(s.to_string()),
        ..num(0.0)
    }
}

fn dict(entries: Vec<(&str, Value)>) -> Dict {
    Dict {
        entries: entries
            .into_iter()
            .map(|(k, v)| (k.to_string(), v))
            .collect(),
    }
}

fn numbers(n: usize) -> Vec<Double> {
    (0..n).map(|i| d(i as f64 + 0.5)).collect()
}

#[test]
fn an_integration_is_requested() {
    let t = dict(vec![("bc", num(0.4))]);
    let call = fast_integrate(
        &t,
        "",
        &vec![(d(10.0), d(90.0), d(500.0))],
        d(1000.0),
        d(2.0),
        &numbers(6),
        (d(0.0), d(5.0)),
        &numbers(4),
        Vec::new(),
    )
    .unwrap();
    let mut want = ballistic_inputs_from_dict(&t, "").unwrap();
    geometry_mass_to_si(&mut want);
    assert_eq!(call.inputs, want);
    assert_eq!(call.wind_segments.len(), 1);
    assert_eq!((call.horiz, call.vert), (d(1000.0), d(2.0)));
    assert_eq!(call.initial_state.position, (d(0.5), d(1.5), d(2.5)));
    assert_eq!(call.initial_state.velocity, (d(3.5), d(4.5), d(5.5)));
    assert_eq!(call.t_span, (d(0.0), d(5.0)));
    assert_eq!(call.atmo_params, (d(0.5), d(1.5), d(2.5), d(3.5)));
    assert_eq!(call.atmo_segments, None);
    let zones = vec![(d(1.0), d(2.0), d(3.0), d(4.0))];
    let call = fast_integrate(&t, "", &Vec::new(), d(0.0), d(0.0), &numbers(6), (d(0.0), d(1.0)), &numbers(4), zones.clone()).unwrap();
    assert_eq!(call.atmo_segments, Some(zones));
}

#[test]
fn an_integration_needs_six_and_four_numbers() {
    let run = |t: &Dict, s: usize, a: usize| {
        fast_integrate(t, "", &Vec::new(), d(0.0), d(0.0), &numbers(s), (d(0.0), d(1.0)), &numbers(a), Vec::new())
    };
    let good = dict(vec![]);
    let bad = dict(vec![("bc", text("x"))]);
    assert_eq!(run(&good, 5, 3).unwrap_err().message, "Initial state must have 6 elements");
    assert_eq!(run(&good, 7, 4).unwrap_err().message, "Initial state must have 6 elements");
    assert_eq!(run(&good, 6, 3).unwrap_err().message, "Atmospheric parameters must have 4 elements");
    assert_eq!(run(&bad, 5, 3).unwrap_err(), wrong());
    assert_eq!(matrix_failure("ragged").message, "y matrix shape error: ragged");
}

#[test]
fn derivatives_are_requested_in_two_steps() {
    let run = |t: &Dict, s: usize, a: usize| {
        derivatives(&numbers(s), t, "", &vec![(d(10.0), d(90.0), d(500.0))], &numbers(a))
    };
    let good = dict(vec![]);
    let bad = dict(vec![("bc", text("x"))]);
    assert_eq!(run(&bad, 5, 3).unwrap_err().message, "State array must have 6 elements");
    assert_eq!(run(&bad, 6, 3).unwrap_err().message, "Atmospheric parameters must have 4 elements");
    assert_eq!(run(&bad, 6, 4).unwrap_err(), wrong());
    let call = run(&good, 6, 4).unwrap();
    assert_eq!(call.state.position, (d(0.5), d(1.5), d(2.5)));
    assert_eq!(call.state.velocity, (d(3.5), d(4.5), d(5.5)));
    assert_eq!(call.atmos, (d(0.5), d(1.5), d(2.5), d(3.5)));
    assert_eq!(f(call.inputs.bullet_mass), 168.0 * 0.00006479891);
    assert!(matches!(call.wind, WindQuery::Uniform { .. }));
    let w = (d(1.0), d(2.0), d(3.0));
    assert_eq!(derivatives_surroundings(Ok(w), None), Ok((w, None)));
    assert_eq!(
        derivatives_surroundings(Ok(w), Some(&numbers(3))),
        Ok((w, Some((d(0.5), d(1.5), d(2.5)))))
    );
    let e = derivatives_surroundings(Ok(w), Some(&numbers(2))).unwrap_err();
    assert_eq!(e.message, "Omega vector must have 3 elements");
    let e = derivatives_surroundings(Err("segment 0".to_string()), Some(&numbers(2))).unwrap_err();
    assert_eq!((e.kind, e.message.as_str()), (ExceptionKind::ValueError, "segment 0"));
}

#[test]
fn a_zero_is_requested_from_imperial_values() {
    let t = dict(vec![]);
    let c = calculate_zero_angle(
        &t, "", d(300.0), d(2.0), d(10.0), d(45.0), d(70.0), d(28.5), d(30.0), d(2500.0),
    )
    .unwrap();
    assert_eq!(f(c.inputs.muzzle_velocity), 2650.0 * 0.3048);
    assert_eq!(f(c.inputs.bullet_mass), 168.0 * 0.00006479891);
    assert_eq!(f(c.inputs.bullet_diameter), 0.308 * 0.0254);
    assert_eq!(f(c.inputs.bullet_length), 1.2 * 0.0254);
    assert_eq!(f(c.inputs.twist_rate), 11.25 * 0.0254);
    assert_eq!(f(c.inputs.sight_height), 1.5 * 0.0254);
    assert_eq!(f(c.inputs.caliber_inches), 0.0);
    assert_eq!(f(c.inputs.target_distance), 100.0);
    assert_eq!(f(c.target_distance), 300.0 * 0.9144);
    assert_eq!(f(c.target_height), 2.0 * 0.0254);
    assert_eq!(f(c.wind.speed), 10.0 * 0.44704);
    assert_eq!(f(c.wind.direction), 45.0f64.to_radians());
    assert_eq!(f(c.wind.vertical_speed), 0.0);
    assert_eq!(f(c.atmosphere.temperature), (70.0 - 32.0) * 5.0 / 9.0);
    assert_eq!(f(c.atmosphere.pressure), 28.5 * 33.8639);
    assert_eq!(f(c.atmosphere.humidity), 30.0);
    assert_eq!(f(c.atmosphere.altitude), 2500.0 * 0.3048);
    let bad = dict(vec![("bc", text("x"))]);
    let z = d(0.0);
    assert_eq!(calculate_zero_angle(&bad, "", z, z, z, z, z, z, z, z).unwrap_err(), wrong());
}

fn engine_shape(s: &str) -> ProjectileShape {
    match EngineShape::from_str(s) {
        EngineShape::Spitzer => ProjectileShape::Spitzer,
        EngineShape::RoundNose => ProjectileShape::RoundNose,
        EngineShape::FlatBase => ProjectileShape::FlatBase,
        EngineShape::BoatTail => ProjectileShape::BoatTail,
    }
}

#[test]
fn shapes_are_named_in_any_case() {
    let shape = |s: Option<&str>| transonic_correction(d(1.0), d(0.3), s, None).shape;
    assert_eq!(shape(None), ProjectileShape::Spitzer);
    assert_eq!(shape(Some("spitzer")), ProjectileShape::Spitzer);
    assert_eq!(shape(Some("Round_Nose")), ProjectileShape::RoundNose);
    assert_eq!(shape(Some("FLAT_BASE")), ProjectileShape::FlatBase);
    assert_eq!(shape(Some("boat_tail")), ProjectileShape::BoatTail);
    for s in ["", "boat-tail", " boat_tail", "boat_tail ", "wadcutter"] {
        assert_eq!(shape(Some(s)), ProjectileShape::Spitzer, "{s}");
        assert_eq!(shape(Some(s)), engine_shape(s), "{s}");
    }
}

fn small_letter(c: char) -> char {
    if c.is_ascii_uppercase() {
        c.to_ascii_lowercase()
    } else {
        c
    }
}

#[test]
fn only_capital_letters_stand_for_the_letters_of_the_shapes() {
    for name in ["round_nose", "flat_base", "boat_tail"] {
        let letters: Vec<char> = name.chars().collect();
        for c in '\0'..=char::MAX {
            let lower: String = c.to_lowercase().collect();
            if lower.chars().any(|l| letters.contains(&l)) && lower.chars().count() == 1 {
                assert_eq!(lower, small_letter(c).to_string(), "{c:?}");
            }
        }
    }
    for c in '\u{80}'..=char::MAX {
        for at in [0, 4] {
            let mut s: Vec<char> = "boat_tail".chars().collect();
            s[at] = c;
            let s: String = s.into_iter().collect();
            assert_eq!(engine_shape(&s), ProjectileShape::Spitzer, "{c:?}");
        }
    }
}

#[test]
fn wave_drag_is_in_unless_left_out() {
    let c = transonic_correction(d(1.1), d(0.3), Some("boat_tail"), None);
    assert_eq!((c.mach, c.base_cd), (d(1.1), d(0.3)));
    assert!(c.include_wave_drag);
    assert!(transonic_correction(d(1.1), d(0.3), None, Some(true)).include_wave_drag);
    assert!(!transonic_correction(d(1.1), d(0.3), None, Some(false)).include_wave_drag);
}

#[test]
fn shapes_have_names() {
    assert_eq!(get_projectile_shape(ProjectileShape::Spitzer), "spitzer");
    assert_eq!(get_projectile_shape(ProjectileShape::RoundNose), "round_nose");
    assert_eq!(get_projectile_shape(ProjectileShape::FlatBase), "flat_base");
    assert_eq!(get_projectile_shape(ProjectileShape::BoatTail), "boat_tail");
    for s in [ProjectileShape::Spitzer, ProjectileShape::RoundNose, ProjectileShape::FlatBase, ProjectileShape::BoatTail] {
        assert_eq!(transonic_correction(d(1.0), d(0.3), Some(&get_projectile_shape(s)), None).shape, s);
    }
}

#[test]
fn spin_drift_needs_spin_time_and_stability() {
    for (t, s, tw) in [
        (1.0, 1.5, 0.0),
        (1.0, 1.5, -0.0),
        (0.0, 1.5, 10.0),
        (-1.0, 1.5, 10.0),
        (1.0, 0.0, 10.0),
        (1.0, -2.0, 10.0),
    ] {
        assert_eq!(compute_spin_drift(d(t), d(s), d(tw), true), Query::Known(d(0.0)));
    }
    for tw in [10.0, -11.25, f64::NAN] {
        match compute_spin_drift(d(1.25), d(1.6), d(tw), false) {
            Query::Ask(c) => {
                let spin = (850.0 * 39.37 / tw) * 2.0 * std::f64::consts::PI;
                assert_eq!((f(c.stability_factor), f(c.time_of_flight_s)), (1.6, 1.25));
                assert_eq!((f(c.velocity_mps), f(c.muzzle_velocity_mps)), (600.0, 850.0));
                assert!(f(c.spin_rate_rad_s) == spin || (spin.is_nan() && f(c.spin_rate_rad_s).is_nan()));
                assert_eq!((f(c.caliber_m), f(c.mass_kg), f(c.air_density_kg_m3)), (0.0078232, 0.0108, 1.225));
                assert!(!c.is_right_twist);
                assert_eq!(c.bullet_type, "match");
            }
            Query::Known(_) => panic!("asks"),
        }
    }
    assert!(matches!(compute_spin_drift(d(f64::NAN), d(1.0), d(1.0), true), Query::Ask(_)));
}

#[test]
fn the_bullet_type_is_in_the_model() {
    let kind = |v: Vec<(&str, Value)>| bullet_type_from_dict(&dict(v));
    assert_eq!(kind(vec![]), "match");
    assert_eq!(kind(vec![("bullet_model", text("SMK VLD"))]), "match");
    assert_eq!(kind(vec![("bullet_model", text("VLD Match"))]), "match");
    assert_eq!(kind(vec![("bullet_model", text("Hybrid VLD"))]), "vld");
    assert_eq!(kind(vec![("bullet_model", text("a Hybrid"))]), "hybrid");
    assert_eq!(kind(vec![("bullet_model", text("hybrid"))]), "match");
    assert_eq!(kind(vec![("bullet_model", num(1.0))]), "match");
    let null = Value { is_none: true, ..text("VLD") };
    assert_eq!(kind(vec![("bullet_model", null)]), "match");
}

#[test]
fn stability_is_requested_in_imperial_units() {
    let t = dict(vec![("bullet_model", text("VLD"))]);
    let c = compute_stability_coefficient(&t, "", &vec![d(100.0), d(20.0), d(950.0), d(0.9)]).unwrap();
    assert_eq!(f(c.mass_grains), 168.0);
    assert_eq!(f(c.velocity_fps), 2650.0);
    assert_eq!(f(c.twist_rate_inches), 11.25);
    assert_eq!(f(c.caliber_inches), 0.308);
    assert_eq!(f(c.length_inches), 1.2);
    assert_eq!((f(c.temp_c), f(c.pressure_hpa), f(c.humidity_percent)), (20.0, 950.0, 50.0));
    assert_eq!(f(c.temp_k), 20.0 + 273.15);
    assert_eq!(c.bullet_type, "vld");
    assert!(c.has_boat_tail && !c.has_plastic_tip);
    let e = compute_stability_coefficient(&t, "", &numbers(12)).unwrap_err();
    assert_eq!(e.kind, ExceptionKind::ValueError);
    assert_eq!(e.message, "Atmosphere params must contain 4 values, got 12");
    let bad = dict(vec![("bc", text("x"))]);
    assert_eq!(compute_stability_coefficient(&bad, "", &numbers(12)).unwrap_err(), wrong());
    let odd = dict(vec![("bullet_model", num(1.0))]);
    assert_eq!(compute_stability_coefficient(&odd, "", &numbers(4)).unwrap_err(), wrong());
}

#[test]
fn a_local_atmosphere_is_known_or_asked_for() {
    assert_eq!(
        get_local_atmosphere(d(10.0), &numbers(2)).unwrap(),
        Query::Known((d(0.5), d(1.5)))
    );
    match get_local_atmosphere(d(10.0), &numbers(4)).unwrap() {
        Query::Ask(c) => {
            assert_eq!(c.altitude_m, d(10.0));
            assert_eq!((c.base_altitude_m, c.base_temp_c), (d(0.5), d(1.5)));
            assert_eq!((c.base_pressure_hpa, c.base_density_ratio), (d(2.5), d(3.5)));
        }
        Query::Known(_) => panic!("asks"),
    }
    for n in [0, 1, 3, 5, 10, 123] {
        let e = get_local_atmosphere(d(10.0), &numbers(n)).unwrap_err();
        assert_eq!(e.kind, ExceptionKind::ValueError);
        assert_eq!(e.message, format!("Atmosphere params must contain 2 or 4 values, got {n}"));
    }
}

fn has_shape_of_a_response(r: &str) -> bool {
    r.starts_with('{') && r.ends_with('}') && r.contains("\"api_version\":1") && r.contains("\"engine_version\":\"")
}

#[test]
fn the_bridge_answers_a_request() {
    let r = bridge_call("{\"api_version\": 1, \"command\": \"meta.version\"}");
    assert!(has_shape_of_a_response(&r));
    assert!(r.contains("\"ok\":true") && r.contains("\"result\":") && r.contains("\"meta.version\""));
    let r = bridge_call("{\"api_version\": 1, \"command\": \"meta.capabilities\"}");
    assert!(r.contains("\"solve\""));
}

#[test]
fn an_envelope_alone_succeeds_for_two_commands() {
    let envelope = |version: u64, command: &str| {
        bridge_call(&format!("{{\"api_version\":{version},\"command\":\"{command}\"}}"))
    };
    for command in ["meta.version", "meta.capabilities"] {
        let r = envelope(1, command);
        assert!(r.contains("\"ok\":true") && !r.contains("\"ok\":false"));
        assert!(r.contains(&format!("\"command\":\"{command}\"")) && r.contains("\"result\":{"));
        for version in [0, 2, 11, 4294967297, u64::MAX] {
            assert!(envelope(version, command).contains("\"ok\":false"));
        }
    }
    for command in [
        "",
        "solve",
        "card.come_ups",
        "card.range_table",
        "card.wind",
        "card.pdf",
        "profile.validate",
        "profile.normalize",
        "profile.import_a7p",
        "true.fit",
        "true.wind",
        "true.tall_target",
        "true.dsf",
        "true.plan",
        "true.dial_plan",
        "bc5d.info",
        "META.VERSION",
        "meta.version ",
        "\u{e9}",
    ] {
        let r = envelope(1, command);
        assert!(r.contains("\"ok\":false") && r.contains("\"error\":{\"code\":\""), "{command}");
        assert!(r.contains("\"message\":\""), "{command}");
    }
}

#[test]
fn the_bridge_reports_failures_in_its_response() {
    let long = "x".repeat(1_048_577);
    let wide = "\u{1F3AF}".repeat(300_000);
    for (request, code) in [
        ("", "invalid_json"),
        ("nonsense", "invalid_json"),
        ("{\"api_version\": 1, \"command\": \"meta.version\", \"more\": 1}", "invalid_json"),
        ("{\"api_version\": 2, \"command\": \"meta.version\"}", "unsupported_api_version"),
        ("{\"api_version\": 1, \"command\": \"fly\"}", "unknown_command"),
        ("{\"api_version\": 1, \"command\": \"solve\"}", "invalid_request"),
        (long.as_str(), "resource_limit"),
        (wide.as_str(), "resource_limit"),
        ("  ", "invalid_json"),
        ("1", "invalid_json"),
        ("{\"api_version\":1,\"command\":\"meta.version\"} x", "invalid_json"),
        ("{\"command\":\"meta.version\"}", "invalid_json"),
        ("{\"api_version\":1}", "invalid_json"),
        ("[1]", "invalid_json"),
    ] {
        let r = bridge_call(request);
        assert!(has_shape_of_a_response(&r));
        assert!(r.contains("\"ok\":false") && r.contains("\"message\":\""), "{code}");
        assert!(r.contains(&format!("\"error\":{{\"code\":\"{code}\"")), "{code}");
    }
}
