//! A native window host that composites a GPU-rendered surface into a
//! desktop window: a compositor visual tree bound to the window, a 3D/2D
//! device stack underneath it, and a presentable GPU surface driven through
//! per-frame clear-and-present cycles.
//!
//! The heart of the crate is the device/surface lifecycle state machine in
//! [`controller`]: lazy creation of the interdependent native resources in
//! the right order, reactive device-loss detection at each paint, in-place
//! surface reconfiguration on resize, and uniform recovery (clear the device
//! stack, rebuild at the next paint) from any failure along the way. Native
//! calls themselves are performed by the host around the library, which
//! feeds their outcomes back in as events.

pub mod controller;
pub mod geometry;
pub mod pixels;
pub mod surface;
