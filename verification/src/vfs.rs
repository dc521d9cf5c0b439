//! Virtual filesystem provider.
//!
//! A virtual path is a slash-separated, rooted identifier. Assets resolve
//! either against an in-memory resource bundle (exact key match, no
//! traversal) or against a configured root directory. In both strategies a
//! path holding a parent-directory segment is rejected outright, so no
//! resolution can escape the root.

use vstd::prelude::*;
use vstd::string::*;
use vstd::utf8::decode_utf8;
use vstd::utf8::valid_utf8;

use crate::error::VfsError;

verus! {

/// Whether position `i` starts a `..` path segment: the two dots are bounded
/// by the string's ends or by `/` on both sides.
pub open spec fn is_parent_segment_at(s: Seq<char>, i: int) -> bool {
    &&& 0 <= i
    &&& i + 2 <= s.len()
    &&& s[i] == '.'
    &&& s[i + 1] == '.'
    &&& (i == 0 || s[i - 1] == '/')
    &&& (i + 2 == s.len() || s[i + 2] == '/')
}

/// Whether the path holds a parent-directory segment anywhere.
pub open spec fn has_parent_segment(s: Seq<char>) -> bool {
    exists|i: int| is_parent_segment_at(s, i)
}

/// The path with one leading root slash removed, if present.
pub open spec fn strip_root(s: Seq<char>) -> Seq<char> {
    if s.len() > 0 && s[0] == '/' {
        s.skip(1)
    } else {
        s
    }
}

/// Scan for a `..` segment.
pub fn contains_parent_segment(path: &str) -> (r: bool)
    ensures
        r == has_parent_segment(path@),
{
    let n = path.unicode_len();
    let mut i: usize = 0;
    while i < n && i + 1 < n
        invariant
            n == path@.len(),
            i <= n,
            forall|j: int| 0 <= j < i ==> !is_parent_segment_at(path@, j),
        decreases n - i,
    {
        let dot0 = path.get_char(i) == '.';
        let dot1 = path.get_char(i + 1) == '.';
        let before_ok = i == 0 || path.get_char(i - 1) == '/';
        let after_ok = i + 2 == n || path.get_char(i + 2) == '/';
        if dot0 && dot1 && before_ok && after_ok {
            assert(is_parent_segment_at(path@, i as int));
            return true;
        }
        assert(!is_parent_segment_at(path@, i as int));
        i = i + 1;
    }
    assert forall|j: int| !is_parent_segment_at(path@, j) by {
        if 0 <= j < i {
        } else if j + 2 <= n {
            assert(j < i);
        }
    }
    false
}

/// Map a virtual path to the bundle key it is looked up under: reject a
/// parent-escaping path, strip the root slash otherwise.
pub fn resolve_virtual(path: &str) -> (r: Option<String>)
    ensures
        r is Some <==> !has_parent_segment(path@),
        r matches Some(s) ==> s@ == strip_root(path@),
{
    if contains_parent_segment(path) {
        return None;
    }
    let n = path.unicode_len();
    if n > 0 && path.get_char(0) == '/' {
        let rest = path.substring_char(1, n);
        assert(path@.subrange(1, n as int) =~= path@.skip(1));
        Some(String::from_str(rest))
    } else {
        Some(path.to_owned())
    }
}

/// Map a virtual path to the real path it would denote under a configured
/// root directory, or nothing for a path that tries to escape that root.
pub fn directory_target(root: &str, path: &str) -> (r: Option<String>)
    ensures
        r is Some <==> !has_parent_segment(path@),
        r matches Some(s) ==> s@ == root@ + seq!['/'] + strip_root(path@),
{
    match resolve_virtual(path) {
        Some(rel) => {
            let mut out = String::from_str(root);
            proof {
                reveal_strlit("/");
            }
            assert("/"@ =~= seq!['/']);
            out.append("/");
            out.append(rel.as_str());
            Some(out)
        },
        None => None,
    }
}

/// An in-memory resource bundle: asset bytes under their bundle keys, baked
/// in at process start and never mutated afterwards.
pub struct Bundle {
    pub entries: Vec<(String, Vec<u8>)>,
}

/// First entry whose key equals `key`, if any.
pub open spec fn bundle_lookup(entries: Seq<(String, Vec<u8>)>, key: Seq<char>) -> Option<Seq<u8>>
    decreases entries.len(),
{
    if entries.len() == 0 {
        None
    } else if entries[0].0@ == key {
        Some(entries[0].1@)
    } else {
        bundle_lookup(entries.skip(1), key)
    }
}

/// What resolving a virtual path against a bundle yields: nothing for an
/// escaping path, else the bytes under the stripped key.
pub open spec fn bundle_resolve(entries: Seq<(String, Vec<u8>)>, path: Seq<char>) -> Option<
    Seq<u8>,
> {
    if has_parent_segment(path) {
        None
    } else {
        bundle_lookup(entries, strip_root(path))
    }
}

fn copy_bytes(data: &Vec<u8>) -> (r: Vec<u8>)
    ensures
        r@ == data@,
{
    let mut out: Vec<u8> = Vec::new();
    let mut i: usize = 0;
    while i < data.len()
        invariant
            i <= data.len(),
            out@ =~= data@.take(i as int),
        decreases data.len() - i,
    {
        out.push(data[i]);
        i = i + 1;
    }
    assert(data@.take(data.len() as int) =~= data@);
    out
}

impl Bundle {
    /// Resolve a virtual path to its backing bytes, or report the exact path
    /// that had none.
    pub fn get(&self, path: &str) -> (r: Result<Vec<u8>, VfsError>)
        ensures
            match bundle_resolve(self.entries@, path@) {
                Some(d) => r matches Ok(v) && v@ == d,
                None => r matches Err(VfsError::NotFound { path: p }) && p@ == path@,
            },
    {
        let key = match resolve_virtual(path) {
            Some(k) => k,
            None => {
                return Err(VfsError::NotFound { path: path.to_owned() });
            },
        };
        let n = self.entries.len();
        let mut i: usize = 0;
        assert(self.entries@.skip(0) =~= self.entries@);
        while i < n
            invariant
                n == self.entries.len(),
                i <= n,
                key@ == strip_root(path@),
                !has_parent_segment(path@),
                bundle_lookup(self.entries@, key@) == bundle_lookup(
                    self.entries@.skip(i as int),
                    key@,
                ),
            decreases n - i,
        {
            assert(self.entries@.skip(i as int)[0] == self.entries@[i as int]);
            if self.entries[i].0 == key {
                return Ok(copy_bytes(&self.entries[i].1));
            }
            assert(self.entries@.skip(i as int).skip(1) =~= self.entries@.skip(i as int + 1));
            i = i + 1;
        }
        assert(self.entries@.skip(n as int) =~= Seq::<(String, Vec<u8>)>::empty());
        Err(VfsError::NotFound { path: path.to_owned() })
    }
}

/// Relies on `String::from_utf8`: it succeeds exactly on valid UTF-8 input
/// and decodes those bytes to the corresponding characters.
#[verifier::external_body]
pub(crate) fn string_from_utf8(bytes: Vec<u8>) -> (r: Option<String>)
    ensures
        r is Some <==> valid_utf8(bytes@),
        r matches Some(s) ==> s@ == decode_utf8(bytes@),
{
    String::from_utf8(bytes).ok()
}

/// Look a template up in the bundle and decode it as UTF-8 text.
pub fn get_template(bundle: &Bundle, name: &str) -> (r: Option<String>)
    ensures
        r is Some <==> (bundle_resolve(bundle.entries@, name@) matches Some(d) && valid_utf8(d)),
        r matches Some(s) ==> s@ == decode_utf8(bundle_resolve(bundle.entries@, name@).unwrap()),
{
    match bundle.get(name) {
        Ok(data) => string_from_utf8(data),
        Err(_) => None,
    }
}

/// Path containment: a virtual path holding a parent-directory segment never
/// resolves, under either backing strategy; it can only surface as a
/// not-found failure for that path.
pub proof fn lemma_parent_segment_never_resolves(
    entries: Seq<(String, Vec<u8>)>,
    path: Seq<char>,
)
    requires
        has_parent_segment(path),
    ensures
        bundle_resolve(entries, path) is None,
{
}

/// Path containment, the other half: the key a contained path resolves
/// under holds no parent-directory segment either, so joining it onto a
/// root directory cannot leave that root.
pub proof fn lemma_strip_root_keeps_containment(s: Seq<char>)
    requires
        !has_parent_segment(s),
    ensures
        !has_parent_segment(strip_root(s)),
{
    if s.len() > 0 && s[0] == '/' {
        if has_parent_segment(s.skip(1)) {
            let i = choose|i: int| is_parent_segment_at(s.skip(1), i);
            assert(is_parent_segment_at(s, i + 1));
        }
    }
}

} // verus!
