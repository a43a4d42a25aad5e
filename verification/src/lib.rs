//! A render-to-texture pass chain over a small, verified render-graph model.
//!
//! The library models a directed graph of named render nodes with typed
//! resource slots, a texture node that allocates its GPU resources lazily and
//! at most once, and the builder that wires an offscreen pass chain
//! (camera, color texture, depth texture, main pass, post pass) together by
//! named slot edges.  Graph construction validates node names and slot types;
//! executing the graph performs the at-most-once allocations and propagates
//! resource ids along the slot edges.

pub mod camera;
pub mod executor;
pub mod graph;
pub mod input;
pub mod pass;
pub mod render_to_texture;
pub mod resource;
pub mod slot;
pub mod texture;
pub mod texture_node;
