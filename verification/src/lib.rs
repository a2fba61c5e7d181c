//! Solver control for classical compressible-flow (gas dynamics) relations.
//!
//! The closed-form relations themselves — isentropic ratios, normal-shock
//! jump conditions, oblique-shock formulas — are plain floating-point
//! arithmetic and live with the numeric front end.  What this crate holds,
//! and proves, is the layer that steers their inversion: which root-finding
//! strategy serves each invertible relation and with which initial guess and
//! iteration cap ([`strategy`]), how the bisection search for the critical
//! area ratio narrows its bracket ([`bisect`]), and how the oblique-shock
//! wave-angle search walks down from the detachment angle to the weak-shock
//! branch without ever looping forever ([`oblique`]).

pub mod bisect;
pub mod oblique;
pub mod strategy;
