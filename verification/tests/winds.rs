use ballistics_engine::wind::WindSegment as EngineSegment;
use ballistics_engine::wind::WindSock;
use ballistics_engine::wind_shear::WindShearWindSock;
use ballistics_frontend::double::Double;
use ballistics_frontend::exception::{Exception, ExceptionKind};
use ballistics_frontend::fast::{
    parse_shear_model, to_wind_segments, wind_query, wind_segments_kmh_to_mps, ShearModel, WindQuery,
};
use ballistics_frontend::inputs::ballistic_inputs_from_dict;
use ballistics_frontend::dict::Dict;
use ballistics_frontend::solver::read_wind_segments;
use nalgebra::Vector3;

const KMH_TO_MPS: f64 = 1000.0 / 3600.0;

fn d(x: f64) -> Double {
    Double::from_bits(x.to_bits())
}

fn f(x: Double) -> f64 {
    f64::from_bits(x.to_bits())
}

#[test]
fn shear_and_uniform_wind_segments_share_the_kmh_contract() {
    let segments = vec![(d(36.0), d(90.0), d(1_000.0))];

    let level: Vec<EngineSegment> = to_wind_segments(&segments)
        .iter()
        .map(|s| EngineSegment {
            speed_kmh: f(s.speed_kmh),
            angle_deg: f(s.angle_deg),
            until_m: f(s.until_m),
            vertical_mps: f(s.vertical_mps),
        })
        .collect();
    let uniform = WindSock::new(level).vector_for_range_stateless(100.0);
    let in_mps: Vec<(f64, f64, f64)> = wind_segments_kmh_to_mps(&segments)
        .iter()
        .map(|s| (f(s.0), f(s.1), f(s.2)))
        .collect();
    let shear =
        WindShearWindSock::new(in_mps, None).vector_for_position(Vector3::new(100.0, 0.0, 0.0));

    assert!((uniform.z - shear.z).abs() < 1e-12);
    assert!((shear.norm() - 36.0 * KMH_TO_MPS).abs() < 1e-12);
}

#[test]
fn winds_are_converted_one_for_one() {
    let winds = vec![(d(36.0), d(90.0), d(300.0)), (d(-7.2), d(270.0), d(800.0))];
    let mps = wind_segments_kmh_to_mps(&winds);
    assert_eq!(
        mps,
        vec![
            (d(36.0 * KMH_TO_MPS), d(90.0), d(300.0)),
            (d(-7.2 * KMH_TO_MPS), d(270.0), d(800.0)),
        ]
    );
    let level = to_wind_segments(&winds);
    assert_eq!(level.len(), 2);
    for (w, s) in winds.iter().zip(level.iter()) {
        let made = EngineSegment::new(f(w.0), f(w.1), f(w.2));
        assert_eq!(f(s.speed_kmh), made.speed_kmh);
        assert_eq!(f(s.angle_deg), made.angle_deg);
        assert_eq!(f(s.until_m), made.until_m);
        assert_eq!(f(s.vertical_mps).to_bits(), made.vertical_mps.to_bits());
    }
    assert!(wind_segments_kmh_to_mps(&Vec::new()).is_empty());
    assert!(to_wind_segments(&Vec::new()).is_empty());
}

#[test]
fn wind_rows_have_three_or_four_numbers() {
    let rows = vec![
        Ok(vec![d(10.0), d(90.0), d(200.0)]),
        Ok(vec![d(20.0), d(45.0), d(400.0), d(-1.5)]),
    ];
    let s = read_wind_segments(&rows).unwrap();
    assert_eq!(s.len(), 2);
    assert_eq!(s[0].speed_kmh, d(10.0));
    assert_eq!(s[0].vertical_mps, d(0.0));
    assert_eq!(s[1].until_m, d(400.0));
    assert_eq!(s[1].vertical_mps, d(-1.5));
    assert!(read_wind_segments(&Vec::new()).unwrap().is_empty());
}

#[test]
fn the_first_bad_wind_row_is_reported() {
    let type_error = || Exception {
        kind: ExceptionKind::Raised(7),
        message: "no sequence".to_string(),
    };
    let rows = vec![
        Ok(vec![d(10.0), d(90.0), d(200.0)]),
        Ok(vec![d(10.0), d(90.0)]),
        Err(type_error()),
    ];
    let e = read_wind_segments(&rows).unwrap_err();
    assert_eq!(e.kind, ExceptionKind::ValueError);
    assert_eq!(
        e.message,
        "wind segment tuples must have 3 or 4 elements: \
         (speed_kmh, angle_deg, until_m[, vertical_mps])"
    );
    let rows = vec![Err(type_error()), Ok(vec![d(1.0); 5])];
    assert_eq!(read_wind_segments(&rows).unwrap_err(), type_error());
    assert!(read_wind_segments(&vec![Ok(vec![d(1.0); 5])]).is_err());
}

#[test]
fn shear_models_have_names() {
    assert_eq!(parse_shear_model("logarithmic"), ShearModel::Logarithmic);
    assert_eq!(parse_shear_model("power_law"), ShearModel::PowerLaw);
    assert_eq!(parse_shear_model("ekman_spiral"), ShearModel::EkmanSpiral);
    assert_eq!(parse_shear_model("none"), ShearModel::NoShear);
    assert_eq!(parse_shear_model("Logarithmic"), ShearModel::PowerLaw);
    assert_eq!(parse_shear_model(""), ShearModel::PowerLaw);
    assert_eq!(parse_shear_model("bogus"), ShearModel::PowerLaw);
}

#[test]
fn the_wind_is_sheared_only_where_it_is_asked_for() {
    let mut b = ballistic_inputs_from_dict(&Dict { entries: Vec::new() }, "").unwrap();
    let winds = vec![(d(18.0), d(45.0), d(500.0))];
    b.altitude = d(120.0);
    assert!(matches!(wind_query(&b, &winds), WindQuery::Uniform { .. }));
    b.enable_wind_shear = true;
    assert!(matches!(wind_query(&b, &winds), WindQuery::Uniform { .. }));
    b.wind_shear_model = "power_law".to_string();
    assert_eq!(
        wind_query(&b, &winds),
        WindQuery::Sheared {
            model: ShearModel::PowerLaw,
            surface: Some((d(18.0 * KMH_TO_MPS), d(45.0))),
            winds: vec![(d(18.0 * KMH_TO_MPS), d(45.0), d(500.0))],
            altitude: d(120.0),
        }
    );
    let by_name = wind_query(&b, &winds);
    b.wind_shear_model = "bogus".to_string();
    assert_eq!(wind_query(&b, &winds), by_name);
    assert_eq!(
        wind_query(&b, &Vec::new()),
        WindQuery::Sheared {
            model: ShearModel::PowerLaw,
            surface: None,
            winds: Vec::new(),
            altitude: d(120.0),
        }
    );
    b.enable_wind_shear = false;
    assert!(matches!(wind_query(&b, &winds), WindQuery::Uniform { .. }));
}
