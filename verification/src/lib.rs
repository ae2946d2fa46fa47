//! Orchestration core of a small real-time 3D renderer.
//!
//! The library owns the frame lifecycle: a camera with lazily cached derived
//! matrices, the scene-wide uniform record and its GPU wire format, the
//! registry of render passes split into an opaque and a transparent stage,
//! and the per-frame schedule that sequences clearing, drawing, snapshot
//! copies, submission and presentation.  All floating-point quantities are
//! carried as IEEE-754 bit patterns; the numeric kernels are delegated to
//! `glam` behind a small trusted boundary.  The windowing and GPU shell
//! around the library executes the schedules this library produces.

pub mod bits;
pub mod math;
pub mod time_manager;
pub mod camera;
pub mod input_manager;
pub mod camera_controller;
pub mod scene;
pub mod renderer;
pub mod skybox_renderer;
pub mod water_renderer;
pub mod render_manager;
