//! The ballistic inputs as an object with properties in imperial units.

use vstd::prelude::*;
use crate::dict::Dict;
use crate::double::Double;
use crate::drag::{drag_model_name, DragModel, PyDragModel};
use crate::exception::Exception;
use crate::fields::{copy_numbers, optional_seq, table_axes, BCSegmentData, DragTable};
use crate::inputs::{ballistic_inputs_from_dict, full_to_si, parse_fault, reads_as, si};
use crate::inputs::BallisticInputs;
use crate::text::optional_view;
use crate::units::{radians, scale, scaled, to_radians, unscale, unscaled};
use crate::units::{DEGREES_TO_RADIANS, FPS_TO_MPS, GRAINS_TO_KG, INCHES_TO_METERS};
use crate::units::YARDS_TO_METERS;

verus! {

/// The two inputs hold the same: equal fields, and vectors with equal contents.
pub open spec fn same_inputs(a: BallisticInputs, b: BallisticInputs) -> bool {
    &&& a == (BallisticInputs {
        bc_segments: a.bc_segments,
        bc_segments_data: a.bc_segments_data,
        custom_drag_table: a.custom_drag_table,
        ..b
    })
    &&& optional_seq(a.bc_segments) == optional_seq(b.bc_segments)
    &&& optional_seq(a.bc_segments_data) == optional_seq(b.bc_segments_data)
    &&& table_axes(a.custom_drag_table) == table_axes(b.custom_drag_table)
}

fn copy_text(o: &Option<String>) -> (r: Option<String>)
    ensures
        r == *o,
{
    match o {
        Some(s) => Some(s.clone()),
        None => None,
    }
}

fn copy_pairs(o: &Option<Vec<(Double, Double)>>) -> (r: Option<Vec<(Double, Double)>>)
    ensures
        optional_seq(r) == optional_seq(*o),
{
    match o {
        Some(v) => {
            let mut out: Vec<(Double, Double)> = Vec::new();
            let mut i: usize = 0;
            while i < v.len()
                invariant
                    i <= v.len(),
                    out@ == v@.take(i as int),
                decreases v.len() - i,
            {
                out.push((v[i].0, v[i].1));
                i = i + 1;
            }
            assert(out@ == v@);
            Some(out)
        },
        None => None,
    }
}

fn copy_bands(o: &Option<Vec<BCSegmentData>>) -> (r: Option<Vec<BCSegmentData>>)
    ensures
        optional_seq(r) == optional_seq(*o),
{
    match o {
        Some(v) => {
            let mut out: Vec<BCSegmentData> = Vec::new();
            let mut i: usize = 0;
            while i < v.len()
                invariant
                    i <= v.len(),
                    out@ == v@.take(i as int),
                decreases v.len() - i,
            {
                out.push(v[i]);
                i = i + 1;
            }
            assert(out@ == v@);
            Some(out)
        },
        None => None,
    }
}

fn copy_table(o: &Option<DragTable>) -> (r: Option<DragTable>)
    ensures
        table_axes(r) == table_axes(*o),
{
    match o {
        Some(t) => Some(
            DragTable {
                mach_values: copy_numbers(&t.mach_values),
                cd_values: copy_numbers(&t.cd_values),
            },
        ),
        None => None,
    }
}

impl BallisticInputs {
    /// The same inputs again.
    pub fn copy(&self) -> (r: BallisticInputs)
        ensures
            same_inputs(r, *self),
    {
        BallisticInputs {
            bc_value: self.bc_value,
            bc_type: self.bc_type,
            bullet_mass: self.bullet_mass,
            muzzle_velocity: self.muzzle_velocity,
            altitude: self.altitude,
            twist_rate: self.twist_rate,
            bullet_length: self.bullet_length,
            bullet_diameter: self.bullet_diameter,
            target_distance: self.target_distance,
            muzzle_angle: self.muzzle_angle,
            wind_speed: self.wind_speed,
            wind_angle: self.wind_angle,
            temperature: self.temperature,
            pressure: self.pressure,
            humidity: self.humidity,
            latitude: self.latitude,
            enable_advanced_effects: self.enable_advanced_effects,
            enable_magnus: self.enable_magnus,
            enable_coriolis: self.enable_coriolis,
            is_twist_right: self.is_twist_right,
            shooting_angle: self.shooting_angle,
            azimuth_angle: self.azimuth_angle,
            shot_azimuth: self.shot_azimuth,
            use_powder_sensitivity: self.use_powder_sensitivity,
            powder_temp_sensitivity: self.powder_temp_sensitivity,
            powder_temp: self.powder_temp,
            tipoff_yaw: self.tipoff_yaw,
            tipoff_decay_distance: self.tipoff_decay_distance,
            ground_threshold: self.ground_threshold,
            bc_segments: copy_pairs(&self.bc_segments),
            caliber_inches: self.caliber_inches,
            weight_grains: self.weight_grains,
            use_bc_segments: self.use_bc_segments,
            bullet_id: copy_text(&self.bullet_id),
            bc_segments_data: copy_bands(&self.bc_segments_data),
            use_enhanced_spin_drift: self.use_enhanced_spin_drift,
            use_form_factor: self.use_form_factor,
            manufacturer: copy_text(&self.manufacturer),
            bullet_model: copy_text(&self.bullet_model),
            enable_wind_shear: self.enable_wind_shear,
            wind_shear_model: self.wind_shear_model.clone(),
            use_cluster_bc: self.use_cluster_bc,
            bullet_cluster: self.bullet_cluster,
            custom_drag_table: copy_table(&self.custom_drag_table),
            bc_type_str: copy_text(&self.bc_type_str),
            enable_pitch_damping: self.enable_pitch_damping,
            enable_precession_nutation: self.enable_precession_nutation,
            enable_aerodynamic_jump: self.enable_aerodynamic_jump,
            use_rk4: self.use_rk4,
            use_adaptive_rk45: self.use_adaptive_rk45,
            enable_trajectory_sampling: self.enable_trajectory_sampling,
            sample_interval: self.sample_interval,
            sight_height: self.sight_height,
            muzzle_height: self.muzzle_height,
            target_height: self.target_height,
            cant_angle: self.cant_angle,
        }
    }
}

/// Ballistic inputs in SI units, with properties in imperial units computed
/// from them.
#[derive(Debug, PartialEq, Eq)]
pub struct PyBallisticInputs {
    pub inner: BallisticInputs,
}

/// What the constructor makes of its arguments: `base` with the given values in
/// it, the G7 drag model under the text `name`, and fixed-step integration.
pub open spec fn constructed(
    base: BallisticInputs,
    name: Option<String>,
    bc: Double,
    bullet_weight_grains: Double,
    muzzle_velocity_fps: Double,
    bullet_diameter_inches: Double,
    bullet_length_inches: Double,
    sight_height_inches: Double,
    zero_distance_yards: Double,
    shooting_angle_degrees: Double,
    twist_rate_inches: Double,
    is_right_twist: bool,
) -> BallisticInputs {
    BallisticInputs {
        bc_value: bc,
        bc_type: DragModel::G7,
        bc_type_str: name,
        bullet_mass: scaled(bullet_weight_grains, GRAINS_TO_KG),
        muzzle_velocity: scaled(muzzle_velocity_fps, FPS_TO_MPS),
        bullet_diameter: scaled(bullet_diameter_inches, INCHES_TO_METERS),
        bullet_length: scaled(bullet_length_inches, INCHES_TO_METERS),
        sight_height: scaled(sight_height_inches, INCHES_TO_METERS),
        target_distance: scaled(zero_distance_yards, YARDS_TO_METERS),
        shooting_angle: radians(shooting_angle_degrees),
        twist_rate: twist_rate_inches,
        is_twist_right: is_right_twist,
        caliber_inches: bullet_diameter_inches,
        weight_grains: bullet_weight_grains,
        use_rk4: true,
        use_adaptive_rk45: false,
        ..base
    }
}

impl PyBallisticInputs {
    /// Inputs from the customary ten values.  What they do not say is as in
    /// `base`, except that integration is by fixed-step RK4.
    pub fn new(
        base: BallisticInputs,
        bc: Double,
        bullet_weight_grains: Double,
        muzzle_velocity_fps: Double,
        bullet_diameter_inches: Double,
        bullet_length_inches: Double,
        sight_height_inches: Double,
        zero_distance_yards: Double,
        shooting_angle_degrees: Double,
        twist_rate_inches: Double,
        is_right_twist: bool,
    ) -> (r: PyBallisticInputs)
        ensures
            r.inner == constructed(
                base,
                r.inner.bc_type_str,
                bc,
                bullet_weight_grains,
                muzzle_velocity_fps,
                bullet_diameter_inches,
                bullet_length_inches,
                sight_height_inches,
                zero_distance_yards,
                shooting_angle_degrees,
                twist_rate_inches,
                is_right_twist,
            ),
            optional_view(r.inner.bc_type_str) == Some("G7"@),
    {
        let mut inner: BallisticInputs = base;
        inner.bc_value = bc;
        inner.bc_type = DragModel::G7;
        inner.bc_type_str = Some("G7".to_owned());
        inner.bullet_mass = scale(bullet_weight_grains, GRAINS_TO_KG);
        inner.muzzle_velocity = scale(muzzle_velocity_fps, FPS_TO_MPS);
        inner.bullet_diameter = scale(bullet_diameter_inches, INCHES_TO_METERS);
        inner.bullet_length = scale(bullet_length_inches, INCHES_TO_METERS);
        inner.sight_height = scale(sight_height_inches, INCHES_TO_METERS);
        inner.target_distance = scale(zero_distance_yards, YARDS_TO_METERS);
        inner.shooting_angle = to_radians(shooting_angle_degrees);
        inner.twist_rate = twist_rate_inches;
        inner.is_twist_right = is_right_twist;
        inner.caliber_inches = bullet_diameter_inches;
        inner.weight_grains = bullet_weight_grains;
        inner.use_rk4 = true;
        inner.use_adaptive_rk45 = false;
        PyBallisticInputs { inner }
    }

    /// Inputs from a dictionary, in SI units.  `refusal` is what is said of
    /// the dictionary's drag table if it is not sound.
    pub fn from_dict(d: &Dict, refusal: &str) -> (r: Result<PyBallisticInputs, Exception>)
        ensures
            match r {
                Ok(p) => parse_fault(*d, refusal@) is None && exists|
                    b: BallisticInputs,
                |
                    reads_as(*d, refusal@, b) && p.inner == si(b),
                Err(e) => parse_fault(*d, refusal@) == Some(e@),
            },
    {
        match ballistic_inputs_from_dict(d, refusal) {
            Ok(mut inner) => {
                let ghost read = inner;
                full_to_si(&mut inner);
                assert(reads_as(*d, refusal@, read) && inner == si(read));
                Ok(PyBallisticInputs { inner })
            },
            Err(e) => Err(e),
        }
    }

    /// The ballistic coefficient.
    pub fn bc(&self) -> (r: Double)
        ensures
            r == self.inner.bc_value,
    {
        self.inner.bc_value
    }

    pub fn set_bc(&mut self, v: Double)
        ensures
            final(self).inner == (BallisticInputs { bc_value: v, ..old(self).inner }),
    {
        self.inner.bc_value = v;
    }

    /// The drag model.
    pub fn drag_model(&self) -> (r: PyDragModel)
        ensures
            r.inner == self.inner.bc_type,
    {
        PyDragModel { inner: self.inner.bc_type }
    }

    pub fn set_drag_model(&mut self, v: PyDragModel)
        ensures
            final(self).inner == (BallisticInputs {
                bc_type: v.inner,
                bc_type_str: final(self).inner.bc_type_str,
                ..old(self).inner
            }),
            optional_view(final(self).inner.bc_type_str) == Some(drag_model_name(v.inner)),
    {
        self.inner.bc_type = v.inner;
        self.inner.bc_type_str = Some(v.inner.name());
    }

    /// The bullet weight in grains.
    pub fn bullet_weight_grains(&self) -> (r: Double)
        ensures
            r == unscaled(self.inner.bullet_mass, GRAINS_TO_KG),
    {
        unscale(self.inner.bullet_mass, GRAINS_TO_KG)
    }

    pub fn set_bullet_weight_grains(&mut self, v: Double)
        ensures
            final(self).inner == (BallisticInputs { bullet_mass: scaled(v, GRAINS_TO_KG), weight_grains: v, ..old(self).inner }),
    {
        self.inner.bullet_mass = scale(v, GRAINS_TO_KG);
        self.inner.weight_grains = v;
    }

    /// The muzzle velocity in fps.
    pub fn muzzle_velocity_fps(&self) -> (r: Double)
        ensures
            r == unscaled(self.inner.muzzle_velocity, FPS_TO_MPS),
    {
        unscale(self.inner.muzzle_velocity, FPS_TO_MPS)
    }

    pub fn set_muzzle_velocity_fps(&mut self, v: Double)
        ensures
            final(self).inner == (BallisticInputs { muzzle_velocity: scaled(v, FPS_TO_MPS), ..old(self).inner }),
    {
        self.inner.muzzle_velocity = scale(v, FPS_TO_MPS);
    }

    /// The bullet diameter in inches.
    pub fn bullet_diameter_inches(&self) -> (r: Double)
        ensures
            r == unscaled(self.inner.bullet_diameter, INCHES_TO_METERS),
    {
        unscale(self.inner.bullet_diameter, INCHES_TO_METERS)
    }

    pub fn set_bullet_diameter_inches(&mut self, v: Double)
        ensures
            final(self).inner == (BallisticInputs { bullet_diameter: scaled(v, INCHES_TO_METERS), caliber_inches: v, ..old(self).inner }),
    {
        self.inner.bullet_diameter = scale(v, INCHES_TO_METERS);
        self.inner.caliber_inches = v;
    }

    /// The bullet length in inches.
    pub fn bullet_length_inches(&self) -> (r: Double)
        ensures
            r == unscaled(self.inner.bullet_length, INCHES_TO_METERS),
    {
        unscale(self.inner.bullet_length, INCHES_TO_METERS)
    }

    pub fn set_bullet_length_inches(&mut self, v: Double)
        ensures
            final(self).inner == (BallisticInputs { bullet_length: scaled(v, INCHES_TO_METERS), ..old(self).inner }),
    {
        self.inner.bullet_length = scale(v, INCHES_TO_METERS);
    }

    /// The height of the sight above the bore in inches.
    pub fn sight_height_inches(&self) -> (r: Double)
        ensures
            r == unscaled(self.inner.sight_height, INCHES_TO_METERS),
    {
        unscale(self.inner.sight_height, INCHES_TO_METERS)
    }

    pub fn set_sight_height_inches(&mut self, v: Double)
        ensures
            final(self).inner == (BallisticInputs { sight_height: scaled(v, INCHES_TO_METERS), ..old(self).inner }),
    {
        self.inner.sight_height = scale(v, INCHES_TO_METERS);
    }

    /// The zero distance in yards.
    pub fn zero_distance_yards(&self) -> (r: Double)
        ensures
            r == unscaled(self.inner.target_distance, YARDS_TO_METERS),
    {
        unscale(self.inner.target_distance, YARDS_TO_METERS)
    }

    pub fn set_zero_distance_yards(&mut self, v: Double)
        ensures
            final(self).inner == (BallisticInputs { target_distance: scaled(v, YARDS_TO_METERS), ..old(self).inner }),
    {
        self.inner.target_distance = scale(v, YARDS_TO_METERS);
    }

    /// The uphill or downhill angle in degrees.
    pub fn shooting_angle_degrees(&self) -> (r: Double)
        ensures
            r == unscaled(self.inner.shooting_angle, DEGREES_TO_RADIANS),
    {
        unscale(self.inner.shooting_angle, DEGREES_TO_RADIANS)
    }

    pub fn set_shooting_angle_degrees(&mut self, v: Double)
        ensures
            final(self).inner == (BallisticInputs { shooting_angle: radians(v), ..old(self).inner }),
    {
        self.inner.shooting_angle = to_radians(v);
    }

    /// The barrel twist in inches per turn.
    pub fn twist_rate_inches(&self) -> (r: Double)
        ensures
            r == self.inner.twist_rate,
    {
        self.inner.twist_rate
    }

    pub fn set_twist_rate_inches(&mut self, v: Double)
        ensures
            final(self).inner == (BallisticInputs { twist_rate: v, ..old(self).inner }),
    {
        self.inner.twist_rate = v;
    }

    /// Whether the twist is to the right.
    pub fn is_right_twist(&self) -> (r: bool)
        ensures
            r == self.inner.is_twist_right,
    {
        self.inner.is_twist_right
    }

    pub fn set_is_right_twist(&mut self, v: bool)
        ensures
            final(self).inner == (BallisticInputs { is_twist_right: v, ..old(self).inner }),
    {
        self.inner.is_twist_right = v;
    }

    /// The cant of the rifle about the line of sight in degrees, positive
    /// clockwise as the shooter sees it.
    pub fn cant_angle_degrees(&self) -> (r: Double)
        ensures
            r == unscaled(self.inner.cant_angle, DEGREES_TO_RADIANS),
    {
        unscale(self.inner.cant_angle, DEGREES_TO_RADIANS)
    }

    pub fn set_cant_angle_degrees(&mut self, v: Double)
        ensures
            final(self).inner == (BallisticInputs { cant_angle: radians(v), ..old(self).inner }),
    {
        self.inner.cant_angle = to_radians(v);
    }

    /// Whether the result holds samples at regular intervals.
    pub fn enable_trajectory_sampling(&self) -> (r: bool)
        ensures
            r == self.inner.enable_trajectory_sampling,
    {
        self.inner.enable_trajectory_sampling
    }

    pub fn set_enable_trajectory_sampling(&mut self, v: bool)
        ensures
            final(self).inner == (BallisticInputs { enable_trajectory_sampling: v, ..old(self).inner }),
    {
        self.inner.enable_trajectory_sampling = v;
    }

    /// The downrange distance between samples in meters.
    pub fn sample_interval_m(&self) -> (r: Double)
        ensures
            r == self.inner.sample_interval,
    {
        self.inner.sample_interval
    }

    pub fn set_sample_interval_m(&mut self, v: Double)
        ensures
            final(self).inner == (BallisticInputs { sample_interval: v, ..old(self).inner }),
    {
        self.inner.sample_interval = v;
    }

    /// Whether integration is by Runge-Kutta rather than Euler.
    pub fn use_rk4(&self) -> (r: bool)
        ensures
            r == self.inner.use_rk4,
    {
        self.inner.use_rk4
    }

    pub fn set_use_rk4(&mut self, v: bool)
        ensures
            final(self).inner == (BallisticInputs { use_rk4: v, ..old(self).inner }),
    {
        self.inner.use_rk4 = v;
    }

    /// Whether the Runge-Kutta steps are adaptive.
    pub fn use_adaptive_rk45(&self) -> (r: bool)
        ensures
            r == self.inner.use_adaptive_rk45,
    {
        self.inner.use_adaptive_rk45
    }

    pub fn set_use_adaptive_rk45(&mut self, v: bool)
        ensures
            final(self).inner == (BallisticInputs { use_adaptive_rk45: v, ..old(self).inner }),
    {
        self.inner.use_adaptive_rk45 = v;
    }

    /// The height of the muzzle above the ground in inches.
    pub fn muzzle_height_inches(&self) -> (r: Double)
        ensures
            r == unscaled(self.inner.muzzle_height, INCHES_TO_METERS),
    {
        unscale(self.inner.muzzle_height, INCHES_TO_METERS)
    }

    pub fn set_muzzle_height_inches(&mut self, v: Double)
        ensures
            final(self).inner == (BallisticInputs { muzzle_height: scaled(v, INCHES_TO_METERS), ..old(self).inner }),
    {
        self.inner.muzzle_height = scale(v, INCHES_TO_METERS);
    }

    /// The height of the target above the ground in inches.
    pub fn target_height_inches(&self) -> (r: Double)
        ensures
            r == unscaled(self.inner.target_height, INCHES_TO_METERS),
    {
        unscale(self.inner.target_height, INCHES_TO_METERS)
    }

    pub fn set_target_height_inches(&mut self, v: Double)
        ensures
            final(self).inner == (BallisticInputs { target_height: scaled(v, INCHES_TO_METERS), ..old(self).inner }),
    {
        self.inner.target_height = scale(v, INCHES_TO_METERS);
    }

    /// A short description, from the texts of the properties it shows.
    pub fn __repr__(
        bc: &str,
        bullet_weight_grains: &str,
        muzzle_velocity_fps: &str,
        bullet_diameter_inches: &str,
        zero_distance_yards: &str,
    ) -> (r: String)
        ensures
            r@ == "BallisticInputs(bc="@ + bc@ + ", weight="@ + bullet_weight_grains@ + "gr, mv="@
                + muzzle_velocity_fps@ + "fps, diameter="@ + bullet_diameter_inches@ + "\", zero="@
                + zero_distance_yards@ + "yd)"@,
    {
        let mut s: String = "BallisticInputs(bc=".to_owned();
        s.append(bc);
        s.append(", weight=");
        s.append(bullet_weight_grains);
        s.append("gr, mv=");
        s.append(muzzle_velocity_fps);
        s.append("fps, diameter=");
        s.append(bullet_diameter_inches);
        s.append("\", zero=");
        s.append(zero_distance_yards);
        s.append("yd)");
        s
    }

    /// A copy of the inputs in SI units.
    pub fn to_rust(&self) -> (r: BallisticInputs)
        ensures
            same_inputs(r, self.inner),
    {
        self.inner.copy()
    }
}

} // verus!
