//! The save pipeline of a prefab editor: child-link capture, root
//! selection, allow-list filtering, scene extraction, sink dispatch and
//! the save state machine, over a plain model of the entity store.

pub mod children;
pub mod laws;
pub mod registry;
pub mod save;
pub mod scene;
pub mod world;
