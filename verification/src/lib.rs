//! A resource-binding and buffer-lifecycle layer for a graphics/compute device.
//!
//! The crate keeps an indirection table from opaque resource identifiers to the
//! live device resources, propagates dirtiness from resource replacement to the
//! pipelines bound to them, rebuilds bind groups positionally, and manages the
//! grow-on-upload buffer lifecycle together with a batching dispatch queue and
//! a readback protocol. Device work itself (allocation, submission, mapping) is
//! carried out by a thin unverified driver around this crate; every decision
//! the driver acts on is computed and proved here.

pub mod acceleration_structure;
pub mod blas;
pub mod buffer;
pub mod codec;
pub mod collection;
pub mod compute;
pub mod dispatch;
pub mod gpu;
pub mod ids;
pub mod index;
pub mod manager;
pub mod render;
pub mod resource;
pub mod sampler;
pub mod storage;
pub mod uniform;
pub mod vertex;
pub mod table;
pub mod texture;
pub mod ui;
