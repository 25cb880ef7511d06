//! Reading and rewriting of BNL asset containers: a compressed table of asset
//! records whose resources are scattered over byte ranges of a shared buffer.
//!
//! - [`dataview`]: byte ranges and the lists of ranges that make up a resource;
//! - [`resource`]: a scattered resource read as one contiguous run of bytes;
//! - [`asset`]: the asset table, raw assets, and the per-type codecs;
//! - [`bnl`]: the container itself, its lookups and in-place updates.
pub mod asset;
pub mod bnl;
pub mod bytes;
pub mod d3d;
pub mod dataview;
pub mod game;
pub mod images;
pub mod resource;
pub mod text;

pub use bnl::{BNLError, BNLFile};
pub use dataview::DataView;
pub use resource::VirtualResource;
