//! What the columns of a sample mean, and what some calls hand on.

use vstd::prelude::*;
use crate::double::Double;
use crate::effects::{get_projectile_shape, named_shape, transonic_correction, ProjectileShape};
use crate::effects::TransonicCall;
use crate::fast::{to_wind_segments, wind_segments_kmh_to_mps, WindTuple};
use crate::inputs::BallisticInputs;
use crate::montecarlo::{hit_radius, percentile_ranks, valid, valid_runs, FieldPercentiles};
use crate::outcome_laws::{law_columns_set_their_parameters, parameter_value};
use crate::run_laws::parameter_name;
use crate::sampling::{sample_inputs, with_parameters, TrajectoryOutput, SAMPLE_KMH_TO_MPS};
use crate::solver::{PyTrajectorySolver, WindSegment};
use crate::trajectory::{PyTrajectoryResult, TrajectoryResult};
use crate::unit_laws::{law_factors_stand_for_their_units, law_ranks_stand_for_their_shares};
use crate::unit_laws::{law_scaled_measures, law_typical_values_stand_for_themselves, measures};
use crate::unit_laws::stands_for;
use crate::units::{constant, DEGREES_TO_RADIANS, FEET_TO_METERS, FPS_TO_MPS, GRAINS_TO_KG};
use crate::units::{HUNDRED, INCHES_TO_METERS, KMH_TO_MPS, YARDS_TO_METERS, ZERO};

verus! {

/// The parameters' names tell the parameters apart.
proof fn lemma_parameters_apart(b: BallisticInputs)
    ensures
        parameter_value(b, "bc_value"@) == Some(b.bc_value),
        parameter_value(b, "bullet_mass"@) == Some(b.bullet_mass),
        parameter_value(b, "muzzle_velocity"@) == Some(b.muzzle_velocity),
        parameter_value(b, "wind_speed"@) == Some(b.wind_speed),
        parameter_value(b, "wind_angle"@) == Some(b.wind_angle),
        parameter_value(b, "target_distance"@) == Some(b.target_distance),
        parameter_value(b, "muzzle_angle"@) == Some(b.muzzle_angle),
        parameter_value(b, "altitude"@) == Some(b.altitude),
        parameter_value(b, "temperature"@) == Some(b.temperature),
        parameter_value(b, "pressure"@) == Some(b.pressure),
        parameter_value(b, "humidity"@) == Some(b.humidity),
        parameter_value(b, "latitude"@) == b.latitude,
        parameter_value(b, "twist_rate"@) == Some(b.twist_rate),
        parameter_value(b, "bullet_length"@) == Some(b.bullet_length),
        parameter_value(b, "bullet_diameter"@) == Some(b.bullet_diameter),
{
    reveal_strlit("bc_value");
    reveal_strlit("bullet_mass");
    reveal_strlit("muzzle_velocity");
    reveal_strlit("wind_speed");
    reveal_strlit("wind_angle");
    reveal_strlit("target_distance");
    reveal_strlit("muzzle_angle");
    reveal_strlit("altitude");
    reveal_strlit("temperature");
    reveal_strlit("pressure");
    reveal_strlit("humidity");
    reveal_strlit("latitude");
    reveal_strlit("twist_rate");
    reveal_strlit("bullet_length");
    reveal_strlit("bullet_diameter");
    assert("bc_value"@.len() == 8 && "bc_value"@[0] == 'b');
    assert("altitude"@.len() == 8 && "altitude"@[0] == 'a');
    assert("latitude"@.len() == 8 && "latitude"@[0] == 'l');
    assert("pressure"@.len() == 8 && "pressure"@[0] == 'p');
    assert("humidity"@.len() == 8 && "humidity"@[0] == 'h');
    assert("wind_speed"@.len() == 10 && "wind_speed"@[0] == 'w' && "wind_speed"@[5] == 's');
    assert("wind_angle"@.len() == 10 && "wind_angle"@[0] == 'w' && "wind_angle"@[5] == 'a');
    assert("twist_rate"@.len() == 10 && "twist_rate"@[0] == 't');
    assert("bullet_mass"@.len() == 11 && "bullet_mass"@[0] == 'b');
    assert("temperature"@.len() == 11 && "temperature"@[0] == 't');
    assert("muzzle_angle"@.len() == 12 && "bullet_length"@.len() == 13);
    assert("target_distance"@.len() == 15 && "target_distance"@[0] == 't');
    assert("muzzle_velocity"@.len() == 15 && "muzzle_velocity"@[0] == 'm');
    assert("bullet_diameter"@.len() == 15 && "bullet_diameter"@[0] == 'b');
}

/// A column of a sample is in the unit of the inputs: the last column with a name sets what
/// it names, and the run then has it in SI units.
pub proof fn law_columns_are_in_the_units_of_the_inputs(
    base: &BallisticInputs,
    names: &Vec<String>,
    row: &Vec<Double>,
    r: BallisticInputs,
    j: int,
)
    requires
        call_ensures(sample_inputs, (base, names, row), r),
        0 <= j < names.len(),
        j < row.len(),
        parameter_name(names@[j]@),
        forall|k: int| j < k < names.len() ==> (#[trigger] names@[k])@ != names@[j]@,
    ensures
        ({
            let (name, x) = (names@[j]@, row@[j]);
            &&& name == "bc_value"@ ==> r.bc_value == x
            &&& name == "bullet_mass"@ ==> measures(r.bullet_mass, x, 6479891, 100000000000)
            &&& name == "muzzle_velocity"@ ==> measures(r.muzzle_velocity, x, 3048, 10000)
            &&& name == "wind_speed"@ ==> measures(r.wind_speed, x, 2777778, 10000000)
            &&& name == "wind_angle"@ ==> measures(
                r.wind_angle,
                x,
                31415926535897932,
                1800000000000000000,
            )
            &&& name == "target_distance"@ ==> measures(r.target_distance, x, 9144, 10000)
            &&& name == "muzzle_angle"@ ==> measures(
                r.muzzle_angle,
                x,
                31415926535897932,
                1800000000000000000,
            )
            &&& name == "altitude"@ ==> measures(r.altitude, x, 3048, 10000)
            &&& name == "temperature"@ ==> r.temperature == x
            &&& name == "pressure"@ ==> r.pressure == x
            &&& name == "humidity"@ ==> measures(r.humidity, x, 1, 100)
            &&& name == "latitude"@ ==> r.latitude == Some(x)
            &&& name == "twist_rate"@ ==> r.twist_rate == x
            &&& name == "bullet_length"@ ==> measures(r.bullet_length, x, 254, 10000)
            &&& name == "bullet_diameter"@ ==> measures(r.bullet_diameter, x, 254, 10000)
        }),
{
    let n = names.len() as int;
    let w = with_parameters(*base, names@, row@, n);
    let x = row@[j];
    lemma_column_is_set(*base, names@, row@, n, j);
    lemma_parameters_apart(w);
    law_factors_stand_for_their_units();
    law_typical_values_stand_for_themselves();
    law_scaled_measures(x, GRAINS_TO_KG, 6479891, 100000000000);
    law_scaled_measures(x, FPS_TO_MPS, 3048, 10000);
    law_scaled_measures(x, SAMPLE_KMH_TO_MPS, 2777778, 10000000);
    law_scaled_measures(x, DEGREES_TO_RADIANS, 31415926535897932, 1800000000000000000);
    law_scaled_measures(x, YARDS_TO_METERS, 9144, 10000);
    law_scaled_measures(x, FEET_TO_METERS, 3048, 10000);
    law_scaled_measures(x, INCHES_TO_METERS, 254, 10000);
    law_scaled_measures(x, HUNDRED, 100, 1);
}

proof fn lemma_column_is_set(
    b: BallisticInputs,
    names: Seq<String>,
    row: Seq<Double>,
    n: int,
    j: int,
)
    requires
        0 <= j < n == names.len(),
        j < row.len(),
        parameter_name(names[j]@),
        forall|k: int| j < k < n ==> (#[trigger] names[k])@ != names[j]@,
    ensures
        parameter_value(with_parameters(b, names, row, n), names[j]@) == Some(row[j]),
{
    let other = longer_than(names, n);
    lemma_longer(names, n);
    law_columns_set_their_parameters(b, names, row, n, j, other);
}

/// A text that is longer than the first `n` names.
spec fn longer_than(names: Seq<String>, n: int) -> Seq<char>
    decreases n,
{
    if n <= 0 {
        seq!['x']
    } else {
        longer_than(names, n - 1) + names[n - 1]@
    }
}

proof fn lemma_longer(names: Seq<String>, n: int)
    requires
        0 <= n <= names.len(),
    ensures
        longer_than(names, n).len() > 0,
        forall|k: int| 0 <= k < n ==> (#[trigger] names[k])@.len() < longer_than(names, n).len(),
        forall|k: int| 0 <= k < n ==> (#[trigger] names[k])@ != longer_than(names, n),
    decreases n,
{
    if n > 0 {
        lemma_longer(names, n - 1);
    }
}

/// Winds are converted from kilometers per hour, or kept in them without an updraft, one
/// for one and in their order.
pub proof fn law_winds_are_kept_one_for_one(
    winds: &Vec<WindTuple>,
    r: Vec<WindTuple>,
    s: Vec<WindSegment>,
    i: int,
)
    requires
        call_ensures(wind_segments_kmh_to_mps, (winds,), r),
        call_ensures(to_wind_segments, (winds,), s),
        0 <= i < winds.len(),
    ensures
        r.len() == winds.len() && s.len() == winds.len(),
        measures(r@[i].0, winds@[i].0, 1000, 3600),
        r@[i].1 == winds@[i].1 && r@[i].2 == winds@[i].2,
        s@[i].speed_kmh == winds@[i].0 && s@[i].angle_deg == winds@[i].1,
        s@[i].until_m == winds@[i].2 && s@[i].vertical_mps == constant(ZERO),
{
    law_factors_stand_for_their_units();
    law_scaled_measures(winds@[i].0, KMH_TO_MPS, 1000, 3600);
}

/// A solver reports a trajectory for its own bullet.
pub proof fn law_solvers_report_for_their_bullet(
    solver: &PyTrajectorySolver,
    t: TrajectoryResult,
    r: Result<PyTrajectoryResult, crate::exception::Exception>,
    p: PyTrajectoryResult,
)
    requires
        call_ensures(PyTrajectorySolver::solve, (solver, Ok(t)), r),
        call_ensures(PyTrajectoryResult::from_rust, (t, solver.bullet_mass_kg), p),
    ensures
        r matches Ok(q) && {
            &&& q.points@ == p.points@
            &&& q.max_range_yards == p.max_range_yards
            &&& q.max_height_yards == p.max_height_yards
            &&& q.time_of_flight == p.time_of_flight
            &&& q.impact_velocity_fps == p.impact_velocity_fps
            &&& q.impact_energy_ftlbs == p.impact_energy_ftlbs
            &&& q.transonic_mach == p.transonic_mach
        },
{
}

/// The request for the transonic correction and the name of a shape are those of what was
/// given.
pub proof fn law_shapes_are_handed_on(
    mach: Double,
    cd: Double,
    name: &str,
    r: TransonicCall,
    plain: TransonicCall,
    shape: ProjectileShape,
    text: String,
)
    requires
        call_ensures(transonic_correction, (mach, cd, Some(name), Some(false)), r),
        call_ensures(transonic_correction, (mach, cd, None, None), plain),
        call_ensures(get_projectile_shape, (shape,), text),
    ensures
        r.mach == mach && r.base_cd == cd && !r.include_wave_drag,
        r.shape == named_shape(name@),
        plain.mach == mach && plain.base_cd == cd && plain.include_wave_drag,
        plain.shape == ProjectileShape::Spitzer,
        named_shape(text@) == shape,
{
    crate::effect_laws::law_shapes_read_back(shape, text@);
}

/// The hit radius is the caller's or else the default, the ranks are in a hundred, and the
/// runs that are collected are those that succeeded.
pub proof fn law_summaries_start_from_these(
    x: Double,
    y: Double,
    own: Double,
    none: Double,
    ranks: FieldPercentiles,
    results: &Vec<Option<TrajectoryOutput>>,
    runs: Vec<TrajectoryOutput>,
)
    requires
        call_ensures(hit_radius, (Some(x), y), own),
        call_ensures(hit_radius, (None, y), none),
        call_ensures(percentile_ranks, (), ranks),
        call_ensures(valid_runs, (results,), runs),
    ensures
        own == x,
        none == y,
        stands_for(ranks.p5.bits, 5, 100) && stands_for(ranks.p10.bits, 10, 100),
        stands_for(ranks.p25.bits, 25, 100) && stands_for(ranks.p50.bits, 50, 100),
        stands_for(ranks.p75.bits, 75, 100) && stands_for(ranks.p90.bits, 90, 100),
        stands_for(ranks.p95.bits, 95, 100),
        runs@ == valid(results@),
{
    law_ranks_stand_for_their_shares();
}

} // verus!
