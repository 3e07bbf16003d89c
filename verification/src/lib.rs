pub mod contract;
pub mod digest;
pub mod entropy;
pub mod errors;
pub mod rng;
pub mod sample;
pub mod stream;

pub use errors::RngError;
