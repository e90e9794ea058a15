pub mod bn254;
pub mod circuits;
pub mod fields;
pub mod usage;
pub mod outside;
