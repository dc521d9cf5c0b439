//! Font registry: a read-only catalog of shapeable faces, addressed by the
//! stable zero-based handle the compiler uses.
//!
//! A catalog is built from a fixed list of font buffers. Faces are indexed
//! in buffer-load order, so the handle of every face is a function of the
//! buffer list alone. A buffer in which the compiler finds no usable face is
//! a fatal configuration error, not a per-render one.

use vstd::prelude::*;

use crate::error::RenderError;

verus! {

#[verifier::external_type_specification]
#[verifier::external_body]
pub struct ExFont(typst::text::Font);

#[verifier::external_type_specification]
#[verifier::external_body]
pub struct ExFontBook(typst::text::FontBook);

#[verifier::external_type_specification]
#[verifier::external_body]
#[verifier::reject_recursive_types(T)]
pub struct ExLazyHash<T: ?Sized>(typst::utils::LazyHash<T>);

/// How many usable faces the compiler's font parser finds in a buffer; a
/// function of the buffer's bytes alone.
pub uninterp spec fn face_count(data: Seq<u8>) -> nat;

/// Relies on typst's `Font::iter`: it parses every face of the buffer, a
/// deterministic function of the bytes.
#[verifier::external_body]
fn font_faces(data: &Vec<u8>) -> (r: Vec<typst::text::Font>)
    ensures
        r@.len() == face_count(data@),
{
    typst::text::Font::iter(typst::foundations::Bytes::new(data.clone())).collect()
}

/// Relies on the derived `Clone` of typst's `Font`, which hands back the
/// same font value.
#[verifier::external_body]
fn font_clone(f: &typst::text::Font) -> (r: typst::text::Font)
    ensures
        r == *f,
{
    f.clone()
}

/// Relies on typst's `FontBook::from_fonts` to index the faces in order;
/// the book is carried opaquely for the compiler.
#[verifier::external_body]
fn build_book(fonts: &Vec<typst::text::Font>) -> typst::utils::LazyHash<typst::text::FontBook> {
    typst::utils::LazyHash::new(typst::text::FontBook::from_fonts(fonts.iter()))
}

/// Relies on the derived `Clone` of the book's lazily hashed container,
/// which hands back an equal index; the book is carried opaquely.
#[verifier::external_body]
fn clone_book(
    book: &typst::utils::LazyHash<typst::text::FontBook>,
) -> typst::utils::LazyHash<typst::text::FontBook> {
    book.clone()
}

/// Total number of faces in the first `i` buffers.
pub open spec fn spec_total_faces(buffers: Seq<Vec<u8>>, i: int) -> int
    decreases i,
{
    if i <= 0 {
        0
    } else {
        spec_total_faces(buffers, i - 1) + face_count(buffers[i - 1]@)
    }
}

/// The read-only face index handed to the compiler.
pub struct FontCatalog {
    pub fonts: Vec<typst::text::Font>,
    pub starts: Vec<usize>,
    pub book: typst::utils::LazyHash<typst::text::FontBook>,
}

impl FontCatalog {
    /// Build the catalog from a fixed buffer list: every face of buffer `i`
    /// gets a handle starting at the total face count of the buffers before
    /// it. A buffer without a single usable face is reported as a fatal
    /// decode failure naming that buffer.
    pub fn load(buffers: &Vec<Vec<u8>>) -> (r: Result<FontCatalog, RenderError>)
        ensures
            r is Ok <==> (forall|i: int|
                0 <= i < buffers@.len() ==> face_count(buffers@[i]@) > 0),
            r matches Ok(c) ==> {
                &&& c.starts@.len() == buffers@.len()
                &&& forall|i: int|
                    0 <= i < buffers@.len() ==> c.starts@[i] == spec_total_faces(buffers@, i)
                &&& c.fonts@.len() == spec_total_faces(buffers@, buffers@.len() as int)
            },
            r matches Err(e) ==> (e matches RenderError::FontDecodeFailure { buffer_index }
                && 0 <= buffer_index < buffers@.len() && face_count(buffers@[buffer_index as int]@)
                == 0 && (forall|j: int|
                0 <= j < buffer_index ==> #[trigger] face_count(buffers@[j]@) > 0)),
    {
        let mut fonts: Vec<typst::text::Font> = Vec::new();
        let mut starts: Vec<usize> = Vec::new();
        let mut i: usize = 0;
        while i < buffers.len()
            invariant
                i <= buffers@.len(),
                starts@.len() == i,
                fonts@.len() == spec_total_faces(buffers@, i as int),
                forall|j: int| 0 <= j < i ==> #[trigger] face_count(buffers@[j]@) > 0,
                forall|j: int|
                    0 <= j < i ==> #[trigger] starts@[j] == spec_total_faces(buffers@, j),
            decreases buffers@.len() - i,
        {
            let mut faces = font_faces(&buffers[i]);
            if faces.len() == 0 {
                return Err(RenderError::FontDecodeFailure { buffer_index: i });
            }
            starts.push(fonts.len());
            fonts.append(&mut faces);
            i = i + 1;
        }
        let book = build_book(&fonts);
        Ok(FontCatalog { fonts, starts, book })
    }

    /// A second handle to the catalog, with the same faces under the same
    /// handles, so one catalog can be built per process and each compile
    /// can own its copy.
    pub fn duplicate(&self) -> (r: FontCatalog)
        ensures
            r.fonts@ == self.fonts@,
            r.starts@ == self.starts@,
    {
        let mut fonts: Vec<typst::text::Font> = Vec::new();
        let mut i: usize = 0;
        while i < self.fonts.len()
            invariant
                i <= self.fonts.len(),
                fonts@ =~= self.fonts@.take(i as int),
            decreases self.fonts.len() - i,
        {
            fonts.push(font_clone(&self.fonts[i]));
            i = i + 1;
        }
        assert(self.fonts@.take(self.fonts@.len() as int) =~= self.fonts@);
        let mut starts: Vec<usize> = Vec::new();
        let mut j: usize = 0;
        while j < self.starts.len()
            invariant
                j <= self.starts.len(),
                starts@ =~= self.starts@.take(j as int),
            decreases self.starts.len() - j,
        {
            starts.push(self.starts[j]);
            j = j + 1;
        }
        assert(self.starts@.take(self.starts@.len() as int) =~= self.starts@);
        let book = clone_book(&self.book);
        FontCatalog { fonts, starts, book }
    }

    /// The face at a handle; an out-of-range handle is an absent face, not
    /// an error.
    pub fn font(&self, index: usize) -> (r: Option<typst::text::Font>)
        ensures
            r == if index < self.fonts@.len() {
                Some(self.fonts@[index as int])
            } else {
                None::<typst::text::Font>
            },
    {
        if index < self.fonts.len() {
            Some(font_clone(&self.fonts[index]))
        } else {
            None
        }
    }

    /// Number of faces in the catalog.
    pub fn face_total(&self) -> (r: usize)
        ensures
            r == self.fonts@.len(),
    {
        self.fonts.len()
    }

    /// The first handle assigned to the faces of buffer `i`.
    pub fn buffer_start(&self, i: usize) -> (r: Option<usize>)
        ensures
            r == if i < self.starts@.len() {
                Some(self.starts@[i as int])
            } else {
                None::<usize>
            },
    {
        if i < self.starts.len() {
            Some(self.starts[i])
        } else {
            None
        }
    }
}

/// Font handle stability: two catalogs built from the same buffer list
/// assign every buffer the same starting handle and hold the same number of
/// faces.
pub proof fn lemma_font_handle_stability(c1: FontCatalog, c2: FontCatalog, buffers: Seq<Vec<u8>>)
    requires
        c1.starts@.len() == buffers.len(),
        c2.starts@.len() == buffers.len(),
        forall|i: int| 0 <= i < buffers.len() ==> c1.starts@[i] == spec_total_faces(buffers, i),
        forall|i: int| 0 <= i < buffers.len() ==> c2.starts@[i] == spec_total_faces(buffers, i),
        c1.fonts@.len() == spec_total_faces(buffers, buffers.len() as int),
        c2.fonts@.len() == spec_total_faces(buffers, buffers.len() as int),
    ensures
        c1.starts@ == c2.starts@,
        c1.fonts@.len() == c2.fonts@.len(),
{
    assert forall|i: int| 0 <= i < buffers.len() implies c1.starts@[i] == c2.starts@[i] by {
        assert(c1.starts@[i] == spec_total_faces(buffers, i));
        assert(c2.starts@[i] == spec_total_faces(buffers, i));
    }
    assert(c1.starts@ =~= c2.starts@);
}

} // verus!
