//! Music album organisation.
//!
//! An album is written down as a definition: a title, artists, and discs of
//! tracks. This crate reads and writes such definitions, resolves what a
//! track inherits from its album, names the files and folders of an album,
//! finds the cover of an album, a disc or a track, and says what goes into
//! the tag of each file.
//!
//! - [`text`] holds text in three forms: as written, in ASCII, and safe for
//!   file names.
//! - [`yaml`] is the shape of a definition document; [`raw`] holds albums,
//!   discs and tracks as a definition gives them.
//! - [`album`], [`disc`] and [`track`] show each of them in its place, with
//!   its number, its inherited attributes and its paths.
//! - [`cover`] and [`image`] find and transform covers. The files are read
//!   and written by the caller, step by step.
//! - [`tag`] and [`validate`] say what the tag of a file should hold and
//!   what is wrong with the tag that it has.
//! - [`generate`] makes a definition from the tags of a folder of files.

pub mod album;
pub mod chars;
pub mod cover;
pub mod disc;
pub mod generate;
pub mod image;
pub mod raw;
pub mod tag;
pub mod text;
pub mod track;
pub mod unicode;
pub mod utils;
pub mod validate;
pub mod yaml;

pub use text::Text;
