//! Digital IIR filters applied one sample at a time, and a multi-band
//! equalizer built as a cascade of such filters.
//!
//! The library is generic over the sample type: the recurrence engine and the
//! equalizer own all state, validation and ordering, while the arithmetic on
//! samples comes from the [`sample::Sample`] trait, and filter design also
//! uses the functions of [`sample::Real`].
pub mod sample;
pub mod iir_filter;
pub mod butterworth_filter;
pub mod equalizer;
