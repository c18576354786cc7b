//! Exact arithmetic in the finite field F(5^2) and the group law of a
//! short-Weierstrass elliptic curve over it, with brute-force enumeration
//! of curve points and full r-torsion subgroups.

pub mod curve;
pub mod enumerate;
pub mod field;
pub mod render;
