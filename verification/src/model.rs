//! The parameters of the effect: the operator and the mask it is applied with.

pub mod bits;
pub mod modes;
pub mod monitor;
