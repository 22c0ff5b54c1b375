use vstd::prelude::*;

pub mod scalar;
pub mod tangent;
pub mod linalg;
pub mod dual;
pub mod dual_linear;
pub mod diff;
pub mod manifold;
pub mod filter;
pub mod lie;
pub mod optimize;

