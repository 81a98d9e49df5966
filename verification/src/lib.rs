//! Discrete core of a volumetric single-scattering estimator built on
//! photon planes.
//!
//! The estimator shoots camera rays through a homogeneous medium lit by
//! rectangular area emitters, gathers randomly generated quadrilateral
//! primitives ("photon planes"), and combines per-intersection
//! contributions with one of several multiple-importance-sampling
//! strategies.  This crate holds the verified, discrete part of that
//! pipeline: which plane variants each strategy generates and how large a
//! batch must be, the bucket and table indexing of the tabulated
//! proxy-sampling scheme, the signed work accounting of its
//! normalization-correction loop, and the flag algebra of the BxDF layer.
//! The floating-point geometry and radiometry around it live with the
//! renderer driver, which consumes the plans and state machines proved
//! here.

pub mod cli;
pub mod pbrt;
pub mod plane_single;
pub mod proxy;
pub mod structure;
