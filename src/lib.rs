//! Verified core of a small voxel renderer: camera input handling, surface
//! resize and frame-error policy, static cube geometry, vertex buffer
//! layouts, the instance grid and texture decoding.

pub mod controller;
pub mod event_loop;
pub mod geometry;
pub mod instances;
pub mod layout;
pub mod surface;
pub mod texture;
