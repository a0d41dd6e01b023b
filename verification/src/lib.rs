//! The verified core of a small real-time rendering engine: physical device
//! selection, the swapchain lifecycle, and the per-frame orchestration state
//! machine (acquire, render, submit, present, with recreation on resize or a
//! stale chain).
//!
//! Platform window handling and the native GPU calls live outside this
//! crate. They hand in enumerated facts and call outcomes as plain values;
//! every decision — which device is chosen, when the chain and its render
//! targets are recreated, whether a frame renders, how the completion token
//! is replaced — is made and proved here.

pub mod extent;
pub mod physical_devices;
pub mod swapchain;
pub mod orchestrator;
