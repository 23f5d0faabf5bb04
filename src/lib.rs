//! Render coordination core of a desktop media player: the surface registry,
//! the playback-intent state machine, engine command planning and the routing
//! of engine notifications.

pub mod coordinator;
pub mod credentials;
pub mod engine;
pub mod events;
pub mod geometry;
pub mod pip;
pub mod pixel_format;
pub mod playback;
pub mod registry;
pub mod tracks;
