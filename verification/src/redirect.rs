//! Redirect-URI whitelisting: exact entries and `*` patterns where each `*`
//! stands for exactly one host label (no dots, not empty).

use vstd::prelude::*;
use crate::text::{chars_of, split, split_spec, lemma_split_len, lemma_split_two};

verus! {

/// `t` occurs in `s` starting at `p`.
pub open spec fn occurs_at(s: Seq<char>, t: Seq<char>, p: int) -> bool {
    0 <= p && p + t.len() <= s.len() && s.subrange(p, p + t.len()) == t
}

/// The first position at or after `p` where `t` occurs in `s` (`str::find`).
pub open spec fn first_occurrence_from(s: Seq<char>, t: Seq<char>, p: int) -> Option<int>
    decreases s.len() + 1 - p,
{
    if p < 0 || p + t.len() > s.len() {
        None
    } else if s.subrange(p, p + t.len()) == t {
        Some(p)
    } else {
        first_occurrence_from(s, t, p + 1)
    }
}

pub open spec fn first_occurrence(s: Seq<char>, t: Seq<char>) -> Option<int> {
    first_occurrence_from(s, t, 0)
}

/// A label that a `*` may stand for: non-empty and free of dots.
pub open spec fn valid_label(seg: Seq<char>) -> bool {
    seg.len() > 0 && !seg.contains('.')
}

/// Matching what is left of the URI against the pattern pieces that follow
/// a `*`: the last piece must end the URI, every other piece is found at its
/// first occurrence, and each stretch a `*` covers is a valid label.
pub open spec fn match_after_star(rem: Seq<char>, parts: Seq<Seq<char>>) -> bool
    decreases parts.len(),
{
    if parts.len() == 0 {
        valid_label(rem)
    } else if parts.len() == 1 {
        &&& parts[0].is_suffix_of(rem)
        &&& valid_label(rem.take(rem.len() - parts[0].len()))
    } else {
        match first_occurrence(rem, parts[0]) {
            None => false,
            Some(p) => {
                &&& valid_label(rem.take(p))
                &&& match_after_star(rem.skip(p + parts[0].len()), parts.drop_first())
            },
        }
    }
}

/// Whether `uri` matches `pattern`, the pattern split on `*`.
pub open spec fn wildcard_match_spec(uri: Seq<char>, pattern: Seq<char>) -> bool {
    let parts = split_spec(pattern, '*');
    &&& parts[0].is_prefix_of(uri)
    &&& match_after_star(uri.skip(parts[0].len() as int), parts.drop_first())
}

/// Whether `uri` is acceptable for a client with the `registered` list:
/// listed verbatim, or matched by a listed pattern that holds a `*`.
pub open spec fn redirect_allowed(uri: Seq<char>, registered: Seq<Seq<char>>) -> bool {
    ||| registered.contains(uri)
    ||| exists|k: int|
        0 <= k < registered.len() && (#[trigger] registered[k]).contains('*')
            && wildcard_match_spec(uri, registered[k])
}

/// A pattern with a single `*` accepts exactly the URIs that are its text
/// before the `*`, one non-empty label without dots, then its text after the
/// `*`.
pub proof fn law_single_wildcard_is_one_label(uri: Seq<char>, prefix: Seq<char>, suffix: Seq<char>)
    requires
        !prefix.contains('*'),
        !suffix.contains('*'),
    ensures
        wildcard_match_spec(uri, prefix + seq!['*'] + suffix) <==> exists|label: Seq<char>|
            valid_label(label) && uri == prefix + label + suffix,
{
    lemma_split_two(prefix, suffix, '*');
    let parts = split_spec(prefix + seq!['*'] + suffix, '*');
    assert(parts[0] == prefix);
    assert(parts.drop_first() =~= seq![suffix]);
    let rem = uri.skip(prefix.len() as int);
    if wildcard_match_spec(uri, prefix + seq!['*'] + suffix) {
        let label = rem.take(rem.len() - suffix.len());
        assert(uri =~= prefix + label + suffix) by {
            assert(uri.subrange(0, prefix.len() as int) =~= prefix);
            assert(rem.subrange(rem.len() - suffix.len(), rem.len() as int) =~= suffix);
        }
        assert(valid_label(label));
    }
    if exists|label: Seq<char>| valid_label(label) && uri == prefix + label + suffix {
        let label = choose|label: Seq<char>| valid_label(label) && uri == prefix + label + suffix;
        assert(prefix.is_prefix_of(uri)) by {
            assert(uri.subrange(0, prefix.len() as int) =~= prefix);
        }
        assert(rem =~= label + suffix);
        assert(suffix.is_suffix_of(rem)) by {
            assert(rem.subrange(rem.len() - suffix.len(), rem.len() as int) =~= suffix);
        }
        assert(rem.take(rem.len() - suffix.len()) =~= label);
    }
}

/// `t` is a prefix of `s` from position `off`.
pub(crate) fn prefix_at(s: &Vec<char>, off: usize, t: &Vec<char>) -> (r: bool)
    requires
        off <= s@.len(),
    ensures
        r == t@.is_prefix_of(s@.skip(off as int)),
{
    let sl = s.len();
    if t.len() > sl - off {
        return false;
    }
    let mut i: usize = 0;
    while i < t.len()
        invariant
            sl == s@.len(),
            off + t@.len() <= s@.len(),
            i <= t@.len(),
            forall|j: int| 0 <= j < i ==> s@[off + j] == t@[j],
        decreases t@.len() - i,
    {
        if s[off + i] != t[i] {
            assert(s@.skip(off as int).subrange(0, t@.len() as int)[i as int] != t@[i as int]);
            return false;
        }
        i = i + 1;
    }
    assert(t@ =~= s@.skip(off as int).subrange(0, t@.len() as int));
    true
}

/// The first position `p >= from` where `t` occurs in `s` (absolute index).
pub(crate) fn find_from(s: &Vec<char>, from: usize, t: &Vec<char>) -> (r: Option<usize>)
    requires
        from <= s@.len(),
    ensures
        match r {
            None => first_occurrence_from(s@, t@, from as int) is None,
            Some(p) => first_occurrence_from(s@, t@, from as int) == Some(p as int),
        },
{
    let mut p = from;
    let sl = s.len();
    while t.len() <= sl - p
        invariant
            sl == s@.len(),
            from <= p <= s@.len(),
            first_occurrence_from(s@, t@, from as int) == first_occurrence_from(s@, t@, p as int),
        decreases s@.len() - p,
    {
        let hit = prefix_at(s, p, t);
        assert(hit == (s@.subrange(p as int, p + t@.len()) == t@)) by {
            if hit {
                assert(s@.skip(p as int).subrange(0, t@.len() as int) =~= s@.subrange(p as int, p + t@.len()));
            } else {
                if s@.subrange(p as int, p + t@.len()) == t@ {
                    assert(s@.skip(p as int).subrange(0, t@.len() as int) =~= s@.subrange(p as int, p + t@.len()));
                }
            }
        }
        if hit {
            return Some(p);
        }
        if p == sl {
            assert(first_occurrence_from(s@, t@, (p + 1) as int) is None);
            return None;
        }
        p = p + 1;
    }
    None
}

pub(crate) proof fn lemma_first_occurrence_bounds(s: Seq<char>, t: Seq<char>, p: int, q: int)
    requires
        first_occurrence_from(s, t, p) == Some(q),
    ensures
        p <= q,
        0 <= q,
        q + t.len() <= s.len(),
        s.subrange(q, q + t.len()) == t,
    decreases s.len() + 1 - p,
{
    if p < 0 || p + t.len() > s.len() {
    } else if s.subrange(p, p + t.len()) == t {
    } else {
        lemma_first_occurrence_bounds(s, t, p + 1, q);
    }
}

/// No dot among positions `from..to` of `s`.
fn dot_free(s: &Vec<char>, from: usize, to: usize) -> (r: bool)
    requires
        from <= to <= s@.len(),
    ensures
        r == !s@.subrange(from as int, to as int).contains('.'),
{
    let mut i = from;
    while i < to
        invariant
            from <= i <= to <= s@.len(),
            forall|j: int| from <= j < i ==> s@[j] != '.',
        decreases to - i,
    {
        if s[i] == '.' {
            assert(s@.subrange(from as int, to as int)[i - from] == '.');
            return false;
        }
        i = i + 1;
    }
    assert(!s@.subrange(from as int, to as int).contains('.')) by {
        if s@.subrange(from as int, to as int).contains('.') {
            let k = choose|k: int| 0 <= k < to - from && s@.subrange(from as int, to as int)[k] == '.';
            assert(s@[from + k] == '.');
        }
    }
    true
}

pub(crate) proof fn lemma_first_occurrence_shift(s: Seq<char>, t: Seq<char>, off: int, p: int)
    requires
        0 <= off <= s.len(),
        0 <= p,
    ensures
        first_occurrence_from(s.skip(off), t, p) == match first_occurrence_from(s, t, off + p) {
            None => None,
            Some(q) => Some(q - off),
        },
    decreases s.len() + 1 - off - p,
{
    if p + t.len() > s.len() - off {
    } else {
        assert(s.skip(off).subrange(p, p + t.len()) =~= s.subrange(off + p, off + p + t.len()));
        if s.subrange(off + p, off + p + t.len()) != t {
            lemma_first_occurrence_shift(s, t, off, p + 1);
        }
    }
}

/// Match `uri` against a pattern containing `*` wildcards; each `*` matches
/// exactly one non-empty host label (no dots).
pub fn wildcard_matches(uri: &str, pattern: &str) -> (r: bool)
    ensures
        r == wildcard_match_spec(uri@, pattern@),
{
    let u = chars_of(uri);
    let pieces = split(pattern, '*');
    proof {
        lemma_split_len(pattern@, '*');
    }
    let ghost parts = split_spec(pattern@, '*');
    assert(pieces@.len() == parts.len());
    assert(pieces@[0]@ == parts[0]);
    let first = chars_of(pieces[0].as_str());
    if !prefix_at(&u, 0, &first) {
        assert(u@.skip(0) =~= u@);
        return false;
    }
    assert(u@.skip(0) =~= u@);
    let mut off: usize = first.len();
    let mut k: usize = 1;
    let n = pieces.len();
    let ul = u.len();
    while k < n
        invariant
            ul == u@.len(),
            n == pieces@.len() == parts.len(),
            1 <= k <= n,
            off <= u@.len(),
            pieces@.map_values(|x: String| x@) == parts,
            parts.len() >= 1,
            wildcard_match_spec(uri@, pattern@) == match_after_star(u@.skip(off as int), parts.skip(k as int)),
            u@ == uri@,
        decreases n - k,
    {
        assert(pieces@[k as int]@ == parts[k as int]);
        let part = chars_of(pieces[k].as_str());
        let ghost rest = parts.skip(k as int);
        let ghost rem = u@.skip(off as int);
        assert(rest[0] == part@);
        assert(rest.drop_first() =~= parts.skip(k + 1));
        if k == n - 1 {
            assert(rest.len() == 1);
            let rl = u.len() - off;
            if part.len() > rl {
                return false;
            }
            let cut = u.len() - part.len();
            let ends = prefix_at(&u, cut, &part);
            assert(ends == part@.is_suffix_of(rem)) by {
                assert(u@.skip(cut as int) =~= rem.subrange(rem.len() - part@.len(), rem.len() as int));
                assert(u@.skip(cut as int).subrange(0, part@.len() as int) =~= u@.skip(cut as int));
            }
            if !ends {
                return false;
            }
            let ok = off < cut && dot_free(&u, off, cut);
            assert(rem.take(rem.len() - part@.len()) =~= u@.subrange(off as int, cut as int));
            return ok;
        } else {
            let found = find_from(&u, off, &part);
            proof {
                lemma_first_occurrence_shift(u@, part@, off as int, 0);
                assert(first_occurrence(rem, part@) == first_occurrence_from(rem, part@, 0));
            }
            match found {
                None => {
                    return false;
                },
                Some(pos) => {
                    proof {
                        lemma_first_occurrence_bounds(u@, part@, off as int, pos as int);
                    }
                    assert(first_occurrence(rem, part@) == Some(pos - off));
                    assert(rem.take(pos - off) =~= u@.subrange(off as int, pos as int));
                    if !(off < pos && dot_free(&u, off, pos)) {
                        return false;
                    }
                    assert(rem.skip(pos - off + part@.len()) =~= u@.skip(pos + part@.len()));
                    off = pos + part.len();
                },
            }
        }
        k = k + 1;
    }
    assert(parts.skip(k as int).len() == 0);
    let rl = u.len() - off;
    assert(u@.skip(off as int) =~= u@.subrange(off as int, u@.len() as int));
    rl > 0 && dot_free(&u, off, u.len())
}

/// Whether a redirect URI is registered: an exact entry, or a `*` pattern
/// that matches it.
pub fn matches_redirect_uri(uri: &str, registered: &Vec<String>) -> (r: bool)
    ensures
        r == redirect_allowed(uri@, registered@.map_values(|x: String| x@)),
{
    let ghost reg = registered@.map_values(|x: String| x@);
    let mut i: usize = 0;
    while i < registered.len()
        invariant
            reg == registered@.map_values(|x: String| x@),
            i <= registered@.len(),
            forall|j: int| 0 <= j < i ==> reg[j] != uri@,
        decreases registered@.len() - i,
    {
        if crate::text::str_eq(registered[i].as_str(), uri) {
            assert(reg[i as int] == uri@);
            return true;
        }
        i = i + 1;
    }
    assert(!reg.contains(uri@));
    let mut i: usize = 0;
    while i < registered.len()
        invariant
            reg == registered@.map_values(|x: String| x@),
            !reg.contains(uri@),
            i <= registered@.len(),
            forall|j: int| 0 <= j < i ==> !((#[trigger] reg[j]).contains('*') && wildcard_match_spec(uri@, reg[j])),
        decreases registered@.len() - i,
    {
        let pat = registered[i].as_str();
        let pc = chars_of(pat);
        let mut has_star = false;
        let mut j: usize = 0;
        while j < pc.len()
            invariant
                j <= pc@.len(),
                has_star == exists|m: int| 0 <= m < j && pc@[m] == '*',
            decreases pc@.len() - j,
        {
            if pc[j] == '*' {
                has_star = true;
            }
            j = j + 1;
        }
        assert(has_star == pc@.contains('*'));
        if has_star && wildcard_matches(uri, pat) {
            assert(reg[i as int].contains('*'));
            return true;
        }
        i = i + 1;
    }
    false
}

} // verus!
