//! A model of a small textured-mesh renderer: the geometry it draws, the
//! descriptions of the GPU resources it needs, the commands of one frame and
//! the rules by which it reacts to window events and surface errors.
//!
//! The library computes and decides; it never talks to a GPU or a window
//! system. A host program creates the resources that the descriptions name,
//! replays the frame commands and reports back what the surface answered.

pub mod buffer;
pub mod bytes;
pub mod device;
pub mod event;
pub mod event_loop;
pub mod frame;
pub mod mesh;
pub mod pipeline;
pub mod surface;
pub mod texture;
pub mod wasm;
