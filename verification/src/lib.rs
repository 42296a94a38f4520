//! Screen capture with backend fallback, and synthetic keyboard and mouse
//! input through virtual devices.
//!
//! The capture half selects a backend, opens a capturer on one display and
//! turns what the backend's recorder hands over into frames of one canonical
//! layout. The input half turns requests in an abstract key and button
//! vocabulary into the ordered event batches that a virtual device is fed
//! with, and tracks the pointer. Nothing here touches a device: every
//! function takes what was read and returns what is to be written.

pub mod capturer;
pub mod codes;
pub mod cursor;
pub mod display;
pub mod drm;
pub mod error;
pub mod event;
pub mod geometry;
pub mod keyboard;
pub mod mouse;
pub mod pixel;
