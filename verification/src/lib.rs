//! Control core of a two-band shelving equaliser.
//!
//! The audio path (first-order IIR shelving filters, their coefficients and
//! the host plugin glue) works on floating point numbers; this crate holds the
//! decisions around it: how many channels get a filter, when the filter
//! coefficients must be recomputed because a gain parameter moved, and how
//! many channels of a sample frame are run through the filters. Gains are
//! handed to the library as the bit patterns of their `f32` values.

pub mod float_bits;
pub mod control;
