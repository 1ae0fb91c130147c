//! Derivation of resized raster-image variants for objects in a bucket.
//!
//! The crate holds the decision logic of the pipeline: the deterministic
//! naming scheme for derived variants, the content-type resolution, the
//! resize planner with its no-upscale policy, the eligibility filter for
//! candidate objects, and the per-size fan-out that turns one decoded
//! source image into a batch of encoded uploads.  The object store and the
//! event source are collaborators driven from outside; the image codec is
//! called through a small trusted boundary.

pub mod filter;
pub mod formats;
pub mod imaging;
pub mod naming;
pub mod pipeline;
pub mod planner;
