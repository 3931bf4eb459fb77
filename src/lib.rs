//! Stressed-market scenario engine: shape validation, the bounded schedule of
//! the nearest-correlation projection, and the packing of the result.
//!
//! The numeric stages themselves (drift and volatility shocks, correlation
//! blending, projection, covariance and Cholesky factor) run in floating point
//! on top of this library; the values here are generic over the scalar type.

mod engine;
mod projection;
mod shape;

pub use engine::{EngineResult, lemma_row_major_position, lower_part, pack_result, strictly_upper};
pub use projection::{ProjectionSchedule, MAX_ITERATIONS};
pub use shape::{BufferLengths, ShockError, buffer_lengths, check_buffers, check_lengths, lengths_fit};
