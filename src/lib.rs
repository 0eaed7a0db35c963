//! Capture-to-spectrum core: the sample ring between the audio callback and
//! the analyzer, the latest-wins frame channel, the processor's device
//! lifecycle, and the presentation settings that steer them.

pub mod config;
pub mod ring;
pub mod channel;
pub mod stream;
pub mod processor;
pub mod display;
