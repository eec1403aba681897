//! Parametric colour fields in fixed-point arithmetic.
//!
//! Two procedural models map a pixel coordinate and a parameter set to an
//! RGBA colour: a cosine-wave palette, in one or two dimensions, and a field
//! driven by coherent noise. The library owns the parameter sets, the rule by
//! which they are drawn at random, the arithmetic that turns samples into
//! colours, and the row-major pixel buffer that every render hands out.
//! Cosines and noise values are transcendental: the caller evaluates them at
//! the places the library asks for and hands the samples in.
pub mod units;
pub mod color;
pub mod buffer;
pub mod params;
pub mod noise;
pub mod sampler;
pub mod cosine;

