//! A 2D pinball simulation core: table-file ingestion and the
//! geometry-to-physics pipeline.
//!
//! The crate turns a structured table description (game items, materials,
//! images, sounds, bounds) into renderable meshes, collision shapes and
//! spawn plans for a physics engine, and drives the scripted gameplay
//! reactions (drains, bumper kicks, collision sounds) as a pure state
//! machine over collision events.

pub mod assets;
pub mod document;
pub mod geom;
pub mod level;
pub mod loader;
pub mod mesh;
pub mod script;
pub mod spawn;
pub mod triangulate;
pub mod units;
