//! Arbitrary-precision decimal values with checked division, truncating
//! rescaling and a JSON envelope, built on the `bigdecimal` crate.
pub mod big_decimal_json;
pub mod decimal;
pub mod engine;
pub mod errors;
pub mod laws;
pub mod model;
pub mod text;
