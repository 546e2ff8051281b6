//! The logic of a realtime camera application: the queue that keeps only the
//! newest frame, the application's state, the capture and face-tracking loops,
//! and the shared-memory virtual camera.
//!
//! Devices, windows, files and the network are reached by the program around
//! this library. It asks a state machine what to do, does it, and reports back.

pub mod actions;
pub mod ar;
pub mod camera;
pub mod camera_app;
pub mod decode;
pub mod download;
pub mod frame;
pub mod frame_update;
pub mod labels;
pub mod nextface;
pub mod queue;
pub mod shared_frame;
pub mod text;
pub mod virtual_camera;
