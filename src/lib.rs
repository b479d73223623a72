//! Signal synthesis and shaping: periodic waveforms and aperiodic responses
//! as sample sources, one-pole filters, and the stateful signals that run a
//! source through an optional filter with one sample of memory.
pub mod chain;
pub mod circuits;
pub mod dsp;
pub mod signals;
