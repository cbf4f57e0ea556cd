//! Assembles installable packages in the IPK layout: a metadata archive, a
//! data archive and a version marker inside one compressed container.
//!
//! The library decides and encodes; it touches no file. `make_package`
//! begins a build and names the first action on a file, `Build::advance`
//! takes what became of it and names the next.

pub mod archive;
pub mod assembler;
pub mod control;
pub mod disk;
pub mod error;
pub mod header;
pub mod laws;
pub mod package;
pub mod resolve;
pub mod ui;

pub use archive::append_file;
pub use assembler::make_package;
pub use header::{header_from_buf, header_from_file, Header};
