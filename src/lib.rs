//! Turns traced silhouette contours into anchored collider geometry.
pub mod anchor;
pub mod collider;
pub mod heightfield;
pub mod builder;
pub mod trace;
