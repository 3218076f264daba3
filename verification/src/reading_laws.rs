//! One dictionary is read in one way, and every request carries what was read.

use vstd::prelude::*;
use crate::conditions::{PyAtmosphericConditions, PyWindConditions};
use crate::dict::Dict;
use crate::double::Double;
use crate::effects::{bullet_model_text, compute_stability_coefficient, stability_call};
use crate::effects::StabilityCall;
use crate::exception::Exception;
use crate::fast::{calculate_zero_angle, derivatives, fast_integrate, imperial_zero_call};
use crate::fast::{integration_call, DerivativesCall, FastIntegrateCall, WindTuple};
use crate::inputs::{parse_fault, reads_as, si, si_geometry, BallisticInputs};
use crate::montecarlo::{base_wind, in_atmosphere, run_monte_carlo, MonteCarloCall};
use crate::property_laws::alike;
use crate::py_inputs::PyBallisticInputs;
use crate::solver::{auto_zero_call, auto_zero_inputs, AtmoSegment, ZeroCall};
use crate::unit_laws::{law_factors_stand_for_their_units, law_scaled_measures, measures};
use crate::units::{FPS_TO_MPS, GRAINS_TO_KG, INCHES_TO_METERS};

verus! {

/// A dictionary is read in one way.
pub proof fn law_readings_are_alike(
    d: Dict,
    refusal: Seq<char>,
    b: BallisticInputs,
    c: BallisticInputs,
)
    requires
        reads_as(d, refusal, b),
        reads_as(d, refusal, c),
    ensures
        alike(b, c),
{
}

/// Inputs that are alike are alike in SI units.
pub proof fn law_alike_inputs_convert_alike(b: BallisticInputs, c: BallisticInputs)
    requires
        alike(b, c),
    ensures
        alike(si(b), si(c)),
        alike(si_geometry(b), si_geometry(c)),
{
}

/// Inputs made from a dictionary are what it says, in SI units.
pub proof fn law_objects_hold_what_was_read(
    d: &Dict,
    refusal: &str,
    r: Result<PyBallisticInputs, Exception>,
    b: BallisticInputs,
)
    requires
        call_ensures(PyBallisticInputs::from_dict, (d, refusal), r),
        reads_as(*d, refusal@, b),
    ensures
        r is Ok <==> parse_fault(*d, refusal@) is None,
        r matches Ok(p) ==> alike(p.inner, si(b)),
{
    if let Ok(p) = r {
        let c = choose|c: BallisticInputs| reads_as(*d, refusal@, c) && p.inner == si(c);
        law_readings_are_alike(*d, refusal@, c, b);
        law_alike_inputs_convert_alike(c, b);
    }
}

/// A zeroing request carries what the dictionary says, in SI units.
pub proof fn law_zeroing_carries_what_was_read(
    d: &Dict,
    refusal: &str,
    yards: Double,
    inches: Double,
    wind: Option<PyWindConditions>,
    air: Option<PyAtmosphericConditions>,
    r: Result<ZeroCall, Exception>,
    b: BallisticInputs,
)
    requires
        call_ensures(auto_zero_inputs, (d, refusal, yards, inches, wind, air), r),
        reads_as(*d, refusal@, b),
    ensures
        r matches Ok(call) ==> alike(call.inputs, si(b)),
{
    if let Ok(call) = r {
        let c = choose|c: BallisticInputs|
            reads_as(*d, refusal@, c) && call == auto_zero_call(c, yards, inches, wind, air);
        law_readings_are_alike(*d, refusal@, c, b);
        law_alike_inputs_convert_alike(c, b);
    }
}

/// A sampling request carries what the dictionary says, in SI units, if no atmosphere is
/// given apart, and else in that atmosphere.
pub proof fn law_samplings_carry_what_was_read(
    d: &Dict,
    refusal: &str,
    params: &Dict,
    wind: Option<PyWindConditions>,
    air: Option<PyAtmosphericConditions>,
    r: Result<MonteCarloCall, Exception>,
    b: BallisticInputs,
)
    requires
        call_ensures(run_monte_carlo, (d, refusal, params, wind, air), r),
        reads_as(*d, refusal@, b),
    ensures
        r matches Ok(call) ==> air is None ==> alike(call.inputs, si(b)),
        r matches Ok(call) ==> {
            &&& call.inputs.bullet_mass == si(b).bullet_mass
            &&& call.inputs.muzzle_velocity == si(b).muzzle_velocity
            &&& call.inputs.target_distance == si(b).target_distance
            &&& call.inputs.wind_speed == si(b).wind_speed
            &&& call.inputs.bc_value == si(b).bc_value
        },
{
    if let Ok(call) = r {
        let c = choose|c: BallisticInputs|
            reads_as(*d, refusal@, c) && call.inputs == in_atmosphere(si(c), air)
                && call.base_wind == base_wind(si(c), wind);
        law_readings_are_alike(*d, refusal@, c, b);
        law_alike_inputs_convert_alike(c, b);
    }
}

/// An integration and the derivatives carry what the dictionary says, with mass and size
/// alone in SI units.
pub proof fn law_integrations_carry_what_was_read(
    d: &Dict,
    refusal: &str,
    winds: &Vec<WindTuple>,
    horiz: Double,
    vert: Double,
    state: &Vec<Double>,
    span: (Double, Double),
    air: &Vec<Double>,
    zones: Vec<AtmoSegment>,
    r: Result<FastIntegrateCall, Exception>,
    s: Result<DerivativesCall, Exception>,
    b: BallisticInputs,
)
    requires
        call_ensures(
            fast_integrate,
            (d, refusal, winds, horiz, vert, state, span, air, zones),
            r,
        ),
        call_ensures(derivatives, (state, d, refusal, winds, air), s),
        reads_as(*d, refusal@, b),
    ensures
        r matches Ok(call) ==> alike(call.inputs, si_geometry(b)),
        s matches Ok(call) ==> alike(call.inputs, si_geometry(b)),
{
    if let Ok(call) = r {
        let c = choose|c: BallisticInputs|
            reads_as(*d, refusal@, c) && integration_call(
                c,
                winds@,
                horiz,
                vert,
                state@,
                span,
                air@,
                zones@,
                call,
            );
        law_readings_are_alike(*d, refusal@, c, b);
        law_alike_inputs_convert_alike(c, b);
    }
    if let Ok(call) = s {
        let c = choose|c: BallisticInputs|
            reads_as(*d, refusal@, c) && call.inputs == si_geometry(c);
        law_readings_are_alike(*d, refusal@, c, b);
        law_alike_inputs_convert_alike(c, b);
    }
}

/// An imperial zeroing carries what the dictionary says, with the mass, the size, the
/// twist, the sight height and the speed of the bullet in SI units.
pub proof fn law_imperial_zeroing_carries_what_was_read(
    d: &Dict,
    refusal: &str,
    x: Double,
    r: Result<ZeroCall, Exception>,
    b: BallisticInputs,
)
    requires
        call_ensures(calculate_zero_angle, (d, refusal, x, x, x, x, x, x, x, x), r),
        reads_as(*d, refusal@, b),
    ensures
        r matches Ok(call) ==> {
            let i = call.inputs;
            &&& measures(i.muzzle_velocity, b.muzzle_velocity, 3048, 10000)
            &&& measures(i.bullet_mass, b.bullet_mass, 6479891, 100000000000)
            &&& measures(i.bullet_diameter, b.bullet_diameter, 254, 10000)
            &&& measures(i.bullet_length, b.bullet_length, 254, 10000)
            &&& measures(i.twist_rate, b.twist_rate, 254, 10000)
            &&& measures(i.sight_height, b.sight_height, 254, 10000)
            &&& i.bc_value == b.bc_value && i.bc_type == b.bc_type
            &&& i.altitude == b.altitude && i.temperature == b.temperature
            &&& i.pressure == b.pressure && i.humidity == b.humidity
            &&& i.wind_speed == b.wind_speed && i.wind_angle == b.wind_angle
            &&& i.target_distance == b.target_distance && i.muzzle_angle == b.muzzle_angle
            &&& i.shooting_angle == b.shooting_angle && i.muzzle_height == b.muzzle_height
            &&& i.target_height == b.target_height && i.cant_angle == b.cant_angle
            &&& i.is_twist_right == b.is_twist_right && i.latitude == b.latitude
            &&& i.caliber_inches == b.caliber_inches && i.weight_grains == b.weight_grains
        },
{
    law_factors_stand_for_their_units();
    law_scaled_measures(b.muzzle_velocity, FPS_TO_MPS, 3048, 10000);
    law_scaled_measures(b.bullet_mass, GRAINS_TO_KG, 6479891, 100000000000);
    law_scaled_measures(b.bullet_diameter, INCHES_TO_METERS, 254, 10000);
    law_scaled_measures(b.bullet_length, INCHES_TO_METERS, 254, 10000);
    law_scaled_measures(b.twist_rate, INCHES_TO_METERS, 254, 10000);
    law_scaled_measures(b.sight_height, INCHES_TO_METERS, 254, 10000);
    if let Ok(call) = r {
        let c = choose|c: BallisticInputs|
            reads_as(*d, refusal@, c) && call == imperial_zero_call(c, x, x, x, x, x, x, x, x);
        law_readings_are_alike(*d, refusal@, c, b);
    }
}

/// A request for the stability carries what the dictionary says of the bullet.
pub proof fn law_stability_carries_what_was_read(
    d: &Dict,
    refusal: &str,
    air: &Vec<Double>,
    r: Result<StabilityCall, Exception>,
    b: BallisticInputs,
)
    requires
        call_ensures(compute_stability_coefficient, (d, refusal, air), r),
        reads_as(*d, refusal@, b),
    ensures
        r matches Ok(call) ==> {
            &&& call.mass_grains == b.bullet_mass
            &&& call.velocity_fps == b.muzzle_velocity
            &&& call.twist_rate_inches == b.twist_rate
            &&& call.caliber_inches == b.bullet_diameter
            &&& call.length_inches == b.bullet_length
        },
{
    if let Ok(call) = r {
        let c = choose|c: BallisticInputs|
            reads_as(*d, refusal@, c) && stability_call(c, bullet_model_text(*d), air@, call);
        law_readings_are_alike(*d, refusal@, c, b);
    }
}

} // verus!
