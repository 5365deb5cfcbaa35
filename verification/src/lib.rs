//! A 2D rendering back end that adapts an immediate-mode triangle-drawing
//! interface onto a retained-resource GPU pipeline.
//!
//! The adapter owns two reusable GPU vertex buffers (positions and texture
//! coordinates) and two fixed pipelines: a solid-color one and a textured one.
//! Each draw call overwrites the chosen pipeline's render state and uniforms,
//! uploads the caller's vertex batches into the shared buffers, and submits
//! one draw command per batch against a target frame.
//!
//! The device and command-submission interfaces are modelled as plain values:
//! scalar components are carried as opaque 32-bit encodings, and submitted
//! commands are recorded in order in a [`command::Renderer`] log. A host layer
//! that owns a real GPU device replays that log.

pub mod back_end;
pub mod buffer;
pub mod command;
pub mod draw_state;
pub mod laws;
pub mod shaders;
pub mod texture;
