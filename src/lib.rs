//! A process-wide hint store modelled as a value: named string settings, each
//! guarded by a priority that decides whether a later write may replace it.

pub mod hint;
pub mod names;
pub mod marshal;
pub mod laws;
