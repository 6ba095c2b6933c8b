//! Request-processing core of a media-transforming reverse proxy.
//!
//! The crate fetches nothing by itself: it decides what to request, bounds
//! what is accepted, decodes, resizes and re-encodes images, and says which
//! response the caller owes its client.

pub mod decode;
pub mod download;
pub mod encode;
pub mod fetch;
pub mod format;
pub mod handler;
pub mod listen;
pub mod options;
pub mod quarantine;
pub mod raster;
pub mod resize;
pub mod text;
