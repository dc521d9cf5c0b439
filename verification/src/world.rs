//! The compilation environment: the object that answers the compiler's host
//! queries for one compile.
//!
//! It owns the main document source, the resource bundle, the font catalog
//! and the standard-library object, and is discarded after the compile. The
//! main path always resolves to the in-memory source, never to the bundle,
//! even when the bundle holds a colliding key.

use typst::LibraryExt;
use vstd::prelude::*;
use vstd::string::*;
use vstd::utf8::decode_utf8;
use vstd::utf8::encode_utf8;
use vstd::utf8::valid_utf8;

use crate::error::VfsError;
use crate::fonts::FontCatalog;
use crate::vfs::Bundle;
use crate::vfs::bundle_resolve;
use crate::vfs::string_from_utf8;

verus! {

#[verifier::external_type_specification]
#[verifier::external_body]
pub struct ExLibrary(typst::Library);

/// The immutable main document of one compile.
pub struct DocumentSource {
    pub path: String,
    pub text: String,
}

/// What a text query for a path yields.
pub enum TextOutcome {
    Text(Seq<char>),
    Missing,
    BadEncoding,
}

/// What a byte query for a path yields.
pub enum BytesOutcome {
    Data(Seq<u8>),
    Missing,
}

/// Text resolution: the main path yields the in-memory source verbatim;
/// every other path goes through the bundle and is decoded as UTF-8.
pub open spec fn spec_source_text(
    entries: Seq<(String, Vec<u8>)>,
    main_path: Seq<char>,
    main_text: Seq<char>,
    path: Seq<char>,
) -> TextOutcome {
    if path == main_path {
        TextOutcome::Text(main_text)
    } else {
        match bundle_resolve(entries, path) {
            Some(d) => if valid_utf8(d) {
                TextOutcome::Text(decode_utf8(d))
            } else {
                TextOutcome::BadEncoding
            },
            None => TextOutcome::Missing,
        }
    }
}

/// Byte resolution: the main path yields the source's UTF-8 bytes; every
/// other path yields the bundle bytes untouched.
pub open spec fn spec_file_bytes(
    entries: Seq<(String, Vec<u8>)>,
    main_path: Seq<char>,
    main_text: Seq<char>,
    path: Seq<char>,
) -> BytesOutcome {
    if path == main_path {
        BytesOutcome::Data(encode_utf8(main_text))
    } else {
        match bundle_resolve(entries, path) {
            Some(d) => BytesOutcome::Data(d),
            None => BytesOutcome::Missing,
        }
    }
}

/// Relies on typst's `LibraryBuilder` to build the standard-library object
/// with the given named inputs; the object is carried opaquely.
#[verifier::external_body]
fn build_library(inputs: &Vec<(String, String)>) -> typst::utils::LazyHash<typst::Library> {
    let dict: typst::foundations::Dict = inputs
        .iter()
        .map(|(k, v)| (
            typst::foundations::Str::from(k.as_str()),
            typst::foundations::Value::Str(v.as_str().into()),
        ))
        .collect();
    typst::utils::LazyHash::new(typst::Library::builder().with_inputs(dict).build())
}

/// One compile's whole host state.
pub struct Environment {
    pub main: DocumentSource,
    pub bundle: Bundle,
    pub catalog: FontCatalog,
    pub library: typst::utils::LazyHash<typst::Library>,
}

impl Environment {
    /// Assemble the environment for one compile.
    pub fn new(
        document_text: String,
        main_path: String,
        inputs: &Vec<(String, String)>,
        bundle: Bundle,
        catalog: FontCatalog,
    ) -> (r: Environment)
        ensures
            r.main.path == main_path,
            r.main.text == document_text,
            r.bundle == bundle,
            r.catalog == catalog,
    {
        let library = build_library(inputs);
        Environment { main: DocumentSource { path: main_path, text: document_text }, bundle, catalog, library }
    }

    /// The virtual path of the main document.
    pub fn main_path(&self) -> (r: &str)
        ensures
            r@ == self.main.path@,
    {
        self.main.path.as_str()
    }

    /// Answer a text query: the main source for the main path, a decoded
    /// bundle asset otherwise, with the failing path named in every error.
    pub fn source_text(&self, path: &str) -> (r: Result<String, VfsError>)
        ensures
            match spec_source_text(self.bundle.entries@, self.main.path@, self.main.text@, path@) {
                TextOutcome::Text(t) => r matches Ok(s) && s@ == t,
                TextOutcome::Missing => r matches Err(VfsError::NotFound { path: p }) && p@
                    == path@,
                TextOutcome::BadEncoding => r matches Err(VfsError::InvalidUtf8 { path: p }) && p@
                    == path@,
            },
    {
        let key = String::from_str(path);
        if key == self.main.path {
            return Ok(self.main.text.clone());
        }
        let data = match self.bundle.get(path) {
            Ok(d) => d,
            Err(e) => {
                return Err(e);
            },
        };
        match string_from_utf8(data) {
            Some(s) => Ok(s),
            None => Err(VfsError::InvalidUtf8 { path: key }),
        }
    }

    /// Answer a byte query: the main source's UTF-8 bytes for the main
    /// path, the raw bundle asset otherwise.
    pub fn file_bytes(&self, path: &str) -> (r: Result<Vec<u8>, VfsError>)
        ensures
            match spec_file_bytes(self.bundle.entries@, self.main.path@, self.main.text@, path@) {
                BytesOutcome::Data(d) => r matches Ok(b) && b@ == d,
                BytesOutcome::Missing => r matches Err(VfsError::NotFound { path: p }) && p@
                    == path@,
            },
    {
        let key = String::from_str(path);
        if key == self.main.path {
            return Ok(self.main.text.as_str().as_bytes_vec());
        }
        self.bundle.get(path)
    }

    /// The face at a catalog handle.
    pub fn font(&self, index: usize) -> (r: Option<typst::text::Font>)
        ensures
            r == if index < self.catalog.fonts@.len() {
                Some(self.catalog.fonts@[index as int])
            } else {
                None::<typst::text::Font>
            },
    {
        self.catalog.font(index)
    }
}

/// Main-path precedence: a query for the main path yields the in-memory
/// source, whatever the bundle holds under that key.
pub proof fn lemma_main_path_precedence(
    entries: Seq<(String, Vec<u8>)>,
    main_path: Seq<char>,
    main_text: Seq<char>,
)
    ensures
        spec_source_text(entries, main_path, main_text, main_path) == TextOutcome::Text(main_text),
        spec_file_bytes(entries, main_path, main_text, main_path) == BytesOutcome::Data(
            encode_utf8(main_text),
        ),
{
}

} // verus!
