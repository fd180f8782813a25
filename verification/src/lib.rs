//! Compute core of a ray-tracing worker.
//!
//! The worker reserves a batch of rays and a scene from a coordinator,
//! evaluates every ray against the scene — analytic ray/sphere intersection,
//! closest-hit selection and shading — and submits the outcomes.  This crate
//! verifies that evaluation core together with the message framing and the
//! session rules of the wire protocol; the host around it does the actual
//! network traffic.

pub mod fp;
pub mod geom;
pub mod scene;
pub mod shade;
pub mod sqrt;
pub mod vec;
pub mod wire;
