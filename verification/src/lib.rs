//! Verified core of a ballistics front end.

pub mod bridge;
pub mod call_laws;
pub mod column_laws;
pub mod complaint_laws;
pub mod conditions;
pub mod conversion_laws;
pub mod dict;
pub mod dict_laws;
pub mod double;
pub mod drag;
pub mod effect_laws;
pub mod effects;
pub mod exception;
pub mod fast;
pub mod fields;
pub mod input_laws;
pub mod inputs;
pub mod keys;
pub mod known_keys;
pub mod mean_laws;
pub mod montecarlo;
pub mod nearest;
pub mod order_laws;
pub mod outcome_laws;
pub mod property_laws;
pub mod property_value_laws;
pub mod py_inputs;
pub mod reading_laws;
pub mod reading_order_laws;
pub mod report_laws;
pub mod request_laws;
pub mod rounding;
pub mod run_laws;
pub mod sampling;
pub mod solver;
pub mod sorting;
pub mod sum_laws;
pub mod summary_laws;
pub mod text;
pub mod text_laws;
pub mod trajectory;
pub mod unit_laws;
pub mod units;
