//! Turns 2:1 panoramic images into a fixed set of thumbnails, and decides,
//! file by file and for a whole batch, what is removed, written and counted.

pub mod batch;
pub mod generator;
pub mod naming;
pub mod picture;

pub use picture::Picture;
