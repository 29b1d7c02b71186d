//! The album definition as it is written down: albums, discs and tracks
//! without their place in the whole.

pub mod album;
pub mod disc;
pub mod track;

pub use album::Album;
pub use disc::Disc;
pub use track::Track;
