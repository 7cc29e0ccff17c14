//! Plain-value core of a small shape renderer: cameras and their uniform
//! payloads, instance grids, mesh descriptions, and the per-frame
//! prepare/render protocol that every drawable object follows.
//!
//! Nothing here talks to a graphics device. A drawable answers `prepare`
//! with the list of buffer writes to queue and `render` with the list of
//! commands to record; the host carries them out in order.
//!
//! Single-precision numbers are held as their 32 bits (`Scalar`), so that
//! payloads can be laid out byte for byte.

pub mod scalar;
pub mod encoding;
pub mod matrix;

pub mod camera;
pub mod instance;
pub mod texture;
pub mod model;
pub mod renderable;
pub mod pentagon;
pub mod cube;
pub mod glyph;
pub mod driver;
