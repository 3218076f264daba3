use ballistics_frontend::conditions::{STANDARD_PRESSURE_INHG, STANDARD_TEMPERATURE_F};
use ballistics_frontend::effects;
use ballistics_frontend::keys;
use ballistics_frontend::montecarlo;
use ballistics_frontend::sampling;
use ballistics_frontend::text::decimal;
use ballistics_frontend::units;

#[test]
fn constants_have_the_bits_of_their_values() {
    for (bits, value) in [
        (units::GRAINS_TO_KG, 0.00006479891),
        (units::FPS_TO_MPS, 0.3048),
        (units::FEET_TO_METERS, 0.3048),
        (units::YARDS_TO_METERS, 0.9144),
        (units::INCHES_TO_METERS, 0.0254),
        (units::MPH_TO_MPS, 0.44704),
        (units::KMH_TO_MPS, 1000.0 / 3600.0),
        (units::DEGREES_TO_RADIANS, std::f64::consts::PI / 180.0),
        (units::INHG_TO_HPA, 33.8639),
        (units::FTLBS_TO_JOULES, 1.35582),
        (units::ZERO, 0.0),
        (units::HALF, 0.5),
        (units::ONE, 1.0),
        (units::TWO, 2.0),
        (units::FIVE, 5.0),
        (units::NINE, 9.0),
        (units::THIRTY_TWO, 32.0),
        (units::FIFTY, 50.0),
        (units::HUNDRED, 100.0),
        (units::THOUSAND, 1000.0),
        (STANDARD_TEMPERATURE_F, 59.0),
        (STANDARD_PRESSURE_INHG, 29.92),
        (sampling::SAMPLE_KMH_TO_MPS, 0.2777778),
        (sampling::REACH, 0.999),
        (sampling::TINY, 1e-10),
        (montecarlo::M_TO_INCHES, 39.3701),
        (montecarlo::M_TO_FEET, 3.28084),
        (montecarlo::J_TO_FTLBS, 0.737562),
        (montecarlo::THOUSANDTH, 0.001),
        (montecarlo::HUNDREDTH, 0.01),
        (montecarlo::NOTHING, -0.0),
        (effects::TYPICAL_VELOCITY, 600.0),
        (effects::TYPICAL_MUZZLE_VELOCITY, 850.0),
        (effects::INCHES_PER_METER, 39.37),
        (effects::PI, std::f64::consts::PI),
        (effects::TYPICAL_CALIBER, 0.0078232),
        (effects::TYPICAL_MASS, 0.0108),
        (effects::SEA_LEVEL_DENSITY, 1.225),
        (effects::FREEZING_POINT, 273.15),
        (keys::DEFAULT_MASS_GRAINS, 168.0),
        (keys::DEFAULT_VELOCITY_FPS, 2650.0),
        (keys::DEFAULT_TWIST_INCHES, 11.25),
        (keys::DEFAULT_LENGTH_INCHES, 1.2),
        (keys::DEFAULT_DIAMETER_INCHES, 0.308),
        (keys::DEFAULT_TEMPERATURE_C, 15.0),
        (keys::DEFAULT_PRESSURE_HPA, 1013.25),
        (keys::DEFAULT_POWDER_TEMPERATURE, 70.0),
        (keys::DEFAULT_TIPOFF_DISTANCE, 20.0),
        (keys::DEFAULT_GROUND_THRESHOLD, -100.0),
        (keys::DEFAULT_SAMPLE_INTERVAL_M, 10.0),
        (keys::DEFAULT_SIGHT_HEIGHT_INCHES, 1.5),
    ] {
        assert_eq!(bits, f64::to_bits(value), "{value}");
    }
}

#[test]
fn numerals_are_decimal() {
    for n in [0, 1, 9, 10, 11, 99, 100, 12345, 1000000007, u64::MAX] {
        assert_eq!(decimal(n), n.to_string());
    }
}
