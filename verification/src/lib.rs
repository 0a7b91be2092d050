//! A camera viewfinder with photo capture for Day apps.
//!
//! This is the part of the viewfinder that is the same on every platform: what an app asks for
//! ([`Camera`]), what follows from each thing that happens to a viewfinder ([`Session`]), what the
//! native sides are told ([`CameraProps`], [`CameraPatch`]) and what their reports mean
//! ([`CameraState`], [`Photo`]).
//!
//! A session runs only while the app wants it and only on the camera permission, and the OS is
//! asked for that permission only where the app opted in; the module [`run`] states what holds of
//! a viewfinder over its whole life.

pub mod camera;
pub mod facing;
pub mod native;
pub mod ohos;
pub mod page;
pub mod patch;
pub mod permission;
pub mod photo;
pub mod report;
pub mod run;
pub mod session;
pub mod state;
pub mod support;
pub mod table;
pub mod text;

pub use camera::{camera, Camera, CameraBuilder, KIND};
pub use facing::Facing;
pub use patch::{CameraPatch, CameraProps};
pub use permission::{Gate, Status};
pub use photo::Photo;
pub use session::{Action, Question, Session};
pub use state::CameraState;
pub use support::{support, Build, Support};
