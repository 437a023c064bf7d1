//! Table preparation and recursion back ends for batch STARK proving.
pub mod air;
pub mod common;
pub mod decimal;
pub mod error;
pub mod field;
pub mod fri;
pub mod fri_laws;
pub mod height_laws;
pub mod heights;
pub mod npo;
pub mod npo_laws;
pub mod npo_map;
pub mod ops;
pub mod packing;
pub mod prep_laws;
pub mod primitive;
pub mod recursion;
pub mod recursion_laws;
pub mod row_laws;
pub mod rows;
pub mod table_laws;
