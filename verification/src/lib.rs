//! Camera and scene-primitive state for a renderer of signed-distance-field
//! scenes.
//!
//! Every real number the renderer works with is an IEEE 754 binary32 value.
//! This crate holds each one as its bit pattern ([`scalar::Scalar`]) and
//! verifies everything that can be decided on bit patterns: the input state
//! machine of the camera controller, the pitch clamp, the negated pose
//! behind the inverse view transform, the order of a frame's updates, the
//! defaults of every record, and the exact word and byte images that are
//! uploaded to the GPU. Sign flips, comparisons and halving are done on the
//! bits. All other arithmetic (trigonometry, matrix products, motion over a
//! time step) is the caller's: where a function needs such a result it takes
//! the value, or a function that computes it.
pub mod scalar;
pub mod wire;
pub mod input;
pub mod camera;
pub mod primitives;
