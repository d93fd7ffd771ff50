//! Block-based audio processing with verified contracts.
//!
//! A processor reads one block of samples and writes into a second block that
//! the caller owns. The sample type is a parameter: any `Copy` type with
//! multiplication and negation can flow through a [`GainProcessor`].

pub mod dsp;
pub mod laws;

pub use dsp::AudioProcessor;
pub use dsp::GainProcessor;
