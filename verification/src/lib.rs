//! A self-contained execution environment for an embedded document compiler,
//! together with the downstream rasterization post-processing stage.
//!
//! The crate models the host side of a compile: a virtual filesystem that
//! answers path queries from an in-memory document and a resource bundle, a
//! font catalog with stable integer handles, a clock that reports the current
//! instant in calendar fields, the template instantiation that produces the
//! document text, and the quantize-and-encode step that turns a rasterized
//! page into a grayscale image.

pub mod clock;
pub mod document;
pub mod error;
pub mod fonts;
pub mod kanji;
pub mod raster;
pub mod text;
pub mod vfs;
pub mod weather;
pub mod world;
