//! A client-side toolkit for the Dark Sky weather-forecast API: request URLs
//! are assembled from coordinates and query options, and response bodies are
//! decoded into typed forecasts.

pub mod constants;
pub mod decoder;
pub mod encoder;
pub mod error;
pub mod json;
pub mod models;
pub mod options;
pub mod params;
pub mod request;
pub mod shape;
pub mod utils;
pub mod wire;

pub use error::DarkskyError;
pub use options::Options;
pub use params::Params;
pub use wire::{Block, Language, Unit};
