//! ElGamal encryption over the Ristretto group, with the algebra of the
//! scheme stated over the integers modulo the group order and proved.

pub mod elgamal;
pub mod group;
pub mod laws;
