//! A voxel world in chunks.
//!
//! The heart of the crate is the chunk: a cubic grid of typed blocks
//! (`block`, `grid`, `chunk`) that is turned into the triangle list of the
//! faces that border empty space (`geometry`, `atlas`, `mesher`), with what
//! holds of every such mesh proved in `laws`. Meshes are kept and drawn by
//! recording commands (`mesh`, `renderer`); nothing here touches a graphics
//! device.
//!
//! Around it stand the rules of a shared world (`net`, `server`, `client`)
//! and of the interface's keyboard and mouse input (`input`). They decide
//! what is to be sent, drawn or reported, and leave the doing to the caller.

pub mod atlas;
pub mod block;
pub mod chunk;
pub mod client;
pub mod geometry;
pub mod grid;
pub mod input;
pub mod laws;
pub mod mesh;
pub mod mesher;
pub mod net;
pub mod renderer;
pub mod server;
