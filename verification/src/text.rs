//! Text building blocks: placeholder substitution and decimal rendering.
//!
//! Template instantiation works by replacing every occurrence of a
//! placeholder key with its value, leftmost first and without rescanning the
//! substituted text, exactly as `str::replace` does.

use vstd::prelude::*;
use vstd::string::*;

verus! {

/// Whether `pat` occurs in `s` starting at position `k`.
pub open spec fn match_at(s: Seq<char>, pat: Seq<char>, k: int) -> bool {
    &&& 0 <= k
    &&& k + pat.len() <= s.len()
    &&& s.subrange(k, k + pat.len() as int) == pat
}

/// `s` with every occurrence of `pat` replaced by `rep`: leftmost first,
/// non-overlapping, never rescanning replaced text. An empty pattern
/// replaces nothing.
pub open spec fn spec_replace(s: Seq<char>, pat: Seq<char>, rep: Seq<char>) -> Seq<char>
    decreases s.len(),
{
    if pat.len() == 0 || s.len() < pat.len() {
        s
    } else if s.take(pat.len() as int) == pat {
        rep + spec_replace(s.skip(pat.len() as int), pat, rep)
    } else {
        s.take(1) + spec_replace(s.skip(1), pat, rep)
    }
}

/// Over a stretch of positions where no occurrence of `pat` begins, the
/// replacement result is that stretch followed by the replacement of the
/// rest.
proof fn lemma_replace_no_match_region(
    s: Seq<char>,
    pat: Seq<char>,
    rep: Seq<char>,
    a: int,
    b: int,
)
    requires
        pat.len() > 0,
        0 <= a <= b <= s.len(),
        forall|k: int| a <= k < b ==> !match_at(s, pat, k),
    ensures
        spec_replace(s.skip(a), pat, rep) == s.subrange(a, b) + spec_replace(s.skip(b), pat, rep),
    decreases b - a,
{
    if a == b {
        assert(s.subrange(a, b) + spec_replace(s.skip(b), pat, rep) =~= spec_replace(
            s.skip(b),
            pat,
            rep,
        ));
    } else if s.len() - a < pat.len() {
        assert(spec_replace(s.skip(a), pat, rep) == s.skip(a));
        assert(spec_replace(s.skip(b), pat, rep) == s.skip(b));
        assert(s.skip(a) =~= s.subrange(a, b) + s.skip(b));
    } else {
        assert(s.skip(a).take(pat.len() as int) =~= s.subrange(a, a + pat.len()));
        assert(s.skip(a).take(pat.len() as int) != pat) by {
            if s.skip(a).take(pat.len() as int) == pat {
                assert(match_at(s, pat, a));
            }
        }
        lemma_replace_no_match_region(s, pat, rep, a + 1, b);
        assert(s.skip(a).skip(1) =~= s.skip(a + 1));
        assert(s.skip(a).take(1) =~= s.subrange(a, a + 1));
        assert(s.subrange(a, a + 1) + (s.subrange(a + 1, b) + spec_replace(s.skip(b), pat, rep))
            =~= s.subrange(a, b) + spec_replace(s.skip(b), pat, rep));
    }
}

fn matches_at(s: &str, pat: &str, i: usize, n: usize, m: usize) -> (r: bool)
    requires
        n == s@.len(),
        m == pat@.len(),
        i + m <= n,
    ensures
        r == match_at(s@, pat@, i as int),
{
    let mut j: usize = 0;
    while j < m
        invariant
            n == s@.len(),
            m == pat@.len(),
            i + m <= n,
            j <= m,
            forall|k: int| 0 <= k < j ==> s@[i + k] == pat@[k],
        decreases m - j,
    {
        if s.get_char(i + j) != pat.get_char(j) {
            assert(!match_at(s@, pat@, i as int)) by {
                if s@.subrange(i as int, i + m) == pat@ {
                    assert(s@.subrange(i as int, i + m)[j as int] == s@[i + j]);
                }
            }
            return false;
        }
        j = j + 1;
    }
    assert(s@.subrange(i as int, i + m) =~= pat@);
    true
}

/// Replace every occurrence of `pat` in `s` by `rep`, leftmost first and
/// without rescanning replaced text.
pub fn replace_all(s: &str, pat: &str, rep: &str) -> (r: String)
    requires
        pat@.len() > 0,
    ensures
        r@ == spec_replace(s@, pat@, rep@),
{
    let n = s.unicode_len();
    let m = pat.unicode_len();
    let mut out = String::new();
    let mut seg: usize = 0;
    let mut i: usize = 0;
    assert(s@.skip(0) =~= s@);
    assert(out@ + spec_replace(s@, pat@, rep@) =~= spec_replace(s@, pat@, rep@));
    while i < n
        invariant
            n == s@.len(),
            m == pat@.len(),
            m > 0,
            seg <= i <= n,
            forall|k: int| seg <= k < i ==> !match_at(s@, pat@, k),
            spec_replace(s@, pat@, rep@) == out@ + spec_replace(s@.skip(seg as int), pat@, rep@),
        decreases n - i,
    {
        if m <= n - i && matches_at(s, pat, i, n, m) {
            out.append(s.substring_char(seg, i));
            out.append(rep);
            proof {
                lemma_replace_no_match_region(s@, pat@, rep@, seg as int, i as int);
                assert(s@.subrange(seg as int, i as int) =~= s@.skip(seg as int).take(
                    (i - seg) as int,
                ));
                assert(s@.skip(i as int).take(m as int) =~= s@.subrange(i as int, i + m));
                assert(s@.skip(i as int).skip(m as int) =~= s@.skip(i + m));
            }
            i = i + m;
            seg = i;
        } else {
            i = i + 1;
        }
    }
    out.append(s.substring_char(seg, n));
    proof {
        lemma_replace_no_match_region(s@, pat@, rep@, seg as int, n as int);
        assert(s@.skip(n as int).len() == 0);
        assert(spec_replace(s@.skip(n as int), pat@, rep@) == s@.skip(n as int));
        assert(s@.subrange(seg as int, n as int) + s@.skip(n as int) =~= s@.subrange(
            seg as int,
            n as int,
        ));
    }
    out
}

/// The decimal digit for a value below ten.
pub open spec fn digit_char(d: int) -> char {
    if d == 0 {
        '0'
    } else if d == 1 {
        '1'
    } else if d == 2 {
        '2'
    } else if d == 3 {
        '3'
    } else if d == 4 {
        '4'
    } else if d == 5 {
        '5'
    } else if d == 6 {
        '6'
    } else if d == 7 {
        '7'
    } else if d == 8 {
        '8'
    } else {
        '9'
    }
}

/// The usual decimal rendering, most significant digit first, no sign and no
/// leading zeros.
pub open spec fn spec_digits(n: nat) -> Seq<char>
    decreases n,
{
    if n < 10 {
        seq![digit_char(n as int)]
    } else {
        spec_digits(n / 10) + seq![digit_char((n % 10) as int)]
    }
}

fn digit_str(d: u64) -> (r: &'static str)
    requires
        d < 10,
    ensures
        r@ == seq![digit_char(d as int)],
{
    if d == 0 {
        proof {
            reveal_strlit("0");
        }
        assert("0"@ =~= seq![digit_char(0)]);
        "0"
    } else if d == 1 {
        proof {
            reveal_strlit("1");
        }
        assert("1"@ =~= seq![digit_char(1)]);
        "1"
    } else if d == 2 {
        proof {
            reveal_strlit("2");
        }
        assert("2"@ =~= seq![digit_char(2)]);
        "2"
    } else if d == 3 {
        proof {
            reveal_strlit("3");
        }
        assert("3"@ =~= seq![digit_char(3)]);
        "3"
    } else if d == 4 {
        proof {
            reveal_strlit("4");
        }
        assert("4"@ =~= seq![digit_char(4)]);
        "4"
    } else if d == 5 {
        proof {
            reveal_strlit("5");
        }
        assert("5"@ =~= seq![digit_char(5)]);
        "5"
    } else if d == 6 {
        proof {
            reveal_strlit("6");
        }
        assert("6"@ =~= seq![digit_char(6)]);
        "6"
    } else if d == 7 {
        proof {
            reveal_strlit("7");
        }
        assert("7"@ =~= seq![digit_char(7)]);
        "7"
    } else if d == 8 {
        proof {
            reveal_strlit("8");
        }
        assert("8"@ =~= seq![digit_char(8)]);
        "8"
    } else {
        proof {
            reveal_strlit("9");
        }
        assert("9"@ =~= seq![digit_char(9)]);
        "9"
    }
}

/// Render an integer in decimal.
pub fn u64_to_string(n: u64) -> (r: String)
    ensures
        r@ == spec_digits(n as nat),
    decreases n,
{
    if n < 10 {
        String::from_str(digit_str(n))
    } else {
        let mut s = u64_to_string(n / 10);
        s.append(digit_str(n % 10));
        s
    }
}

/// The values past the first, each rendered in decimal behind a comma.
pub open spec fn spec_joined_tail(ids: Seq<u64>) -> Seq<char>
    decreases ids.len(),
{
    if ids.len() == 0 {
        Seq::empty()
    } else {
        seq![','] + spec_digits(ids[0] as nat) + spec_joined_tail(ids.skip(1))
    }
}

/// The decimal renderings joined by single commas.
pub open spec fn spec_joined(ids: Seq<u64>) -> Seq<char> {
    if ids.len() == 0 {
        Seq::empty()
    } else {
        spec_digits(ids[0] as nat) + spec_joined_tail(ids.skip(1))
    }
}

/// Join the decimal renderings of the values with commas.
pub fn join_with_commas(ids: &Vec<u64>) -> (r: String)
    ensures
        r@ == spec_joined(ids@),
{
    if ids.len() == 0 {
        let out = String::new();
        assert(out@ =~= spec_joined(ids@));
        return out;
    }
    proof {
        reveal_strlit(",");
    }
    assert(","@ =~= seq![',']);
    let mut out = u64_to_string(ids[0]);
    let mut i: usize = 1;
    while i < ids.len()
        invariant
            1 <= i <= ids.len(),
            ","@ =~= seq![','],
            out@ + spec_joined_tail(ids@.skip(i as int)) =~= spec_joined(ids@),
        decreases ids.len() - i,
    {
        out.append(",");
        let piece = u64_to_string(ids[i]);
        out.append(piece.as_str());
        proof {
            assert(ids@.skip(i as int)[0] == ids@[i as int]);
            assert(ids@.skip(i as int).skip(1) =~= ids@.skip(i as int + 1));
        }
        i = i + 1;
    }
    assert(spec_joined_tail(ids@.skip(ids@.len() as int)) =~= Seq::<char>::empty());
    assert(out@ + Seq::<char>::empty() =~= out@);
    out
}

} // verus!
