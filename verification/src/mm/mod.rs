//! Physical memory: page numbers and the frame allocator.

pub mod address;
pub mod frame_allocator;
