//! The failure taxonomy of the render pipeline.
//!
//! Every stage returns a tagged result; nothing is downgraded to a blank
//! image inside the library. Placeholder policies belong to the caller.

use vstd::prelude::*;

verus! {

/// Failure of a virtual-filesystem query.
///
/// `NotFound` carries the exact virtual path that had no backing bytes, so
/// that a compile diagnostic can name it. `InvalidUtf8` is raised only for
/// text requests whose backing bytes are not valid UTF-8; it is never coerced
/// to empty or garbled text.
#[derive(Debug)]
pub enum VfsError {
    NotFound { path: String },
    InvalidUtf8 { path: String },
}

/// Failure of a whole render.
#[derive(Debug)]
pub enum RenderError {
    /// A virtual path had no resolvable backing bytes.
    AssetNotFound { path: String },
    /// Asset bytes were requested as text but were not valid UTF-8.
    InvalidEncoding { path: String },
    /// A font buffer yielded no usable face at catalog-build time.
    FontDecodeFailure { buffer_index: usize },
    /// The compiler reported fatal diagnostics; all of them are kept.
    CompileError { messages: Vec<String> },
    /// The compiled page's geometry could not become a pixel buffer.
    RasterizeFailure,
    /// The pixel buffer could not be serialized to the output format. The
    /// in-memory encoder is proven to accept every buffer that matches its
    /// dimensions, so the render pipeline itself never raises this; the
    /// name stays as the taxonomy's word for an encoder refusal.
    EncodeFailure,
}

impl VfsError {
    /// The path this error is attributable to.
    pub fn path(&self) -> (r: &String)
        ensures
            r@ == (match self {
                VfsError::NotFound { path } => path@,
                VfsError::InvalidUtf8 { path } => path@,
            }),
    {
        match self {
            VfsError::NotFound { path } => path,
            VfsError::InvalidUtf8 { path } => path,
        }
    }

    /// Promote a filesystem error to a render error of the same meaning.
    pub fn into_render_error(self) -> (r: RenderError)
        ensures
            r == (match self {
                VfsError::NotFound { path } => RenderError::AssetNotFound { path },
                VfsError::InvalidUtf8 { path } => RenderError::InvalidEncoding { path },
            }),
    {
        match self {
            VfsError::NotFound { path } => RenderError::AssetNotFound { path },
            VfsError::InvalidUtf8 { path } => RenderError::InvalidEncoding { path },
        }
    }
}

} // verus!
