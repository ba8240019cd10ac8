//! Host-side arithmetic and decisions behind small wgpu programs: buffer and
//! vertex layouts, texture upload and readback, surface bookkeeping and the
//! frame loop.

pub mod compute;
pub mod event;
pub mod readback;
pub mod surface;
pub mod texture;
pub mod vertex;
