//! Review-queue post-processing: reducing fetched subject records to the
//! characters and meanings a widget shows.

use vstd::prelude::*;
use vstd::string::*;

use crate::text::join_with_commas;
use crate::text::spec_joined;

verus! {

/// One kanji with the meaning chosen for display.
pub struct WanikaniKanji {
    pub character: String,
    pub meaning: String,
}

/// One meaning of a subject, as fetched.
pub struct MeaningEntry {
    pub meaning: String,
    pub primary: bool,
}

/// The fields of one fetched subject record that matter here.
pub struct SubjectData {
    pub characters: Option<String>,
    pub meanings: Vec<MeaningEntry>,
}

/// The first meaning marked primary, if any.
pub open spec fn spec_primary_meaning(ms: Seq<MeaningEntry>) -> Option<Seq<char>>
    decreases ms.len(),
{
    if ms.len() == 0 {
        None
    } else if ms[0].primary {
        Some(ms[0].meaning@)
    } else {
        spec_primary_meaning(ms.skip(1))
    }
}

/// The meaning shown: the first primary one, else the first one, else a
/// fixed fallback.
pub open spec fn spec_meaning(ms: Seq<MeaningEntry>) -> Seq<char> {
    match spec_primary_meaning(ms) {
        Some(m) => m,
        None => if ms.len() > 0 {
            ms[0].meaning@
        } else {
            "(no meaning)"@
        },
    }
}

/// The characters shown: the subject's characters, else a fixed fallback.
pub open spec fn spec_character(c: Option<String>) -> Seq<char> {
    match c {
        Some(s) => s@,
        None => "?"@,
    }
}

fn meaning_of(ms: &Vec<MeaningEntry>) -> (r: String)
    ensures
        r@ == spec_meaning(ms@),
{
    let mut i: usize = 0;
    assert(ms@.skip(0) =~= ms@);
    while i < ms.len()
        invariant
            i <= ms.len(),
            spec_primary_meaning(ms@) == spec_primary_meaning(ms@.skip(i as int)),
        decreases ms.len() - i,
    {
        assert(ms@.skip(i as int)[0] == ms@[i as int]);
        if ms[i].primary {
            return ms[i].meaning.clone();
        }
        assert(ms@.skip(i as int).skip(1) =~= ms@.skip(i as int + 1));
        i = i + 1;
    }
    assert(ms@.skip(ms@.len() as int) =~= Seq::<MeaningEntry>::empty());
    if ms.len() > 0 {
        ms[0].meaning.clone()
    } else {
        String::from_str("(no meaning)")
    }
}

/// Reduce fetched subject records to at most `limit` display entries, in
/// fetch order.
pub fn extract_kanji(subjects: Vec<SubjectData>, limit: usize) -> (r: Vec<WanikaniKanji>)
    ensures
        r@.len() == if subjects@.len() < limit {
            subjects@.len() as int
        } else {
            limit as int
        },
        forall|i: int|
            0 <= i < r@.len() ==> #[trigger] r@[i].character@ == spec_character(
                subjects@[i].characters,
            ),
        forall|i: int|
            0 <= i < r@.len() ==> #[trigger] r@[i].meaning@ == spec_meaning(
                subjects@[i].meanings@,
            ),
{
    let count = if subjects.len() < limit {
        subjects.len()
    } else {
        limit
    };
    let mut out: Vec<WanikaniKanji> = Vec::new();
    let mut i: usize = 0;
    while i < count
        invariant
            i <= count,
            count == if subjects@.len() < limit {
                subjects@.len() as int
            } else {
                limit as int
            },
            out@.len() == i,
            forall|j: int|
                0 <= j < i ==> #[trigger] out@[j].character@ == spec_character(
                    subjects@[j].characters,
                ),
            forall|j: int|
                0 <= j < i ==> #[trigger] out@[j].meaning@ == spec_meaning(
                    subjects@[j].meanings@,
                ),
        decreases count - i,
    {
        let character = match &subjects[i].characters {
            Some(s) => s.clone(),
            None => String::from_str("?"),
        };
        let meaning = meaning_of(&subjects[i].meanings);
        out.push(WanikaniKanji { character, meaning });
        proof {
            assert(out@[i as int].character@ == spec_character(subjects@[i as int].characters));
            assert(out@[i as int].meaning@ == spec_meaning(subjects@[i as int].meanings@));
        }
        i = i + 1;
    }
    out
}

/// The comma-joined id list for a subjects request: the first `limit` ids,
/// or nothing when no id is left to ask for.
pub fn subject_ids_query(ids: &Vec<u64>, limit: usize) -> (r: Option<String>)
    ensures
        r is Some <==> (ids@.len() > 0 && limit > 0),
        r matches Some(s) ==> s@ == spec_joined(
            ids@.take(
                if ids@.len() < limit {
                    ids@.len() as int
                } else {
                    limit as int
                },
            ),
        ),
{
    let count = if ids.len() < limit {
        ids.len()
    } else {
        limit
    };
    if count == 0 {
        return None;
    }
    let mut taken: Vec<u64> = Vec::new();
    let mut i: usize = 0;
    while i < count
        invariant
            i <= count <= ids@.len(),
            taken@ =~= ids@.take(i as int),
        decreases count - i,
    {
        taken.push(ids[i]);
        i = i + 1;
    }
    Some(join_with_commas(&taken))
}

} // verus!
