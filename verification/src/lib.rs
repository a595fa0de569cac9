//! Verified core of a CUDA tensor toolkit: shape and layout rules for device tensors,
//! and the build-time kernel signature parser and generator configuration.

pub mod compile;
pub mod config;
pub mod contract_laws;
pub mod device;
pub mod dtype;
pub mod generator;
pub mod error;
pub mod laws;
pub mod layout;
pub mod model;
pub mod params;
pub mod parser;
pub mod paths;
pub mod pipeline;
pub mod shape;
pub mod text;
