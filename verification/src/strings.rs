//! Verified character-level utilities over `&str` and `String`: equality,
//! substring containment, splitting on a separator, and the case-folding
//! relied on by the listing filters.
use vstd::prelude::*;
use vstd::string::StrSliceExecFns;

verus! {

/// The needle occurs in the hay starting at position `i`.
pub open spec fn contains_seq_at(hay: Seq<char>, needle: Seq<char>, i: int) -> bool {
    0 <= i && i + needle.len() <= hay.len() && hay.subrange(i, i + needle.len() as int)
        == needle
}

/// The needle occurs somewhere in the hay.
pub open spec fn contains_seq(hay: Seq<char>, needle: Seq<char>) -> bool {
    exists|i: int| contains_seq_at(hay, needle, i)
}

/// Character-by-character equality of two string slices.
pub fn str_eq(a: &str, b: &str) -> (r: bool)
    ensures
        r == (a@ == b@),
{
    let alen = a.unicode_len();
    let blen = b.unicode_len();
    if alen != blen {
        return false;
    }
    let mut i: usize = 0;
    while i < alen
        invariant
            alen == a@.len(),
            alen == b@.len(),
            i <= alen,
            forall|j: int| 0 <= j < i ==> a@[j] == b@[j],
        decreases alen - i,
    {
        if a.get_char(i) != b.get_char(i) {
            return false;
        }
        i = i + 1;
    }
    proof {
        assert(a@ =~= b@);
    }
    true
}

/// The needle occurs in the hay at exactly position `i`.
fn matches_at(hay: &str, needle: &str, i: usize) -> (r: bool)
    requires
        i + needle@.len() <= hay@.len(),
        hay@.len() <= usize::MAX,
    ensures
        r == contains_seq_at(hay@, needle@, i as int),
{
    let nlen = needle.unicode_len();
    let mut j: usize = 0;
    while j < nlen
        invariant
            nlen == needle@.len(),
            i + nlen <= hay@.len(),
            hay@.len() <= usize::MAX,
            j <= nlen,
            forall|m: int| 0 <= m < j ==> hay@[i + m] == needle@[m],
        decreases nlen - j,
    {
        if hay.get_char(i + j) != needle.get_char(j) {
            proof {
                let sub = hay@.subrange(i as int, i as int + nlen as int);
                assert(sub[j as int] == hay@[i + j]);
            }
            return false;
        }
        j = j + 1;
    }
    proof {
        assert(hay@.subrange(i as int, i as int + needle@.len() as int) =~= needle@);
    }
    true
}

/// Substring search: does the needle occur anywhere in the hay?
pub fn str_contains(hay: &str, needle: &str) -> (r: bool)
    ensures
        r == contains_seq(hay@, needle@),
{
    let hlen = hay.unicode_len();
    let nlen = needle.unicode_len();
    if nlen > hlen {
        proof {
            assert(forall|k: int| !contains_seq_at(hay@, needle@, k));
        }
        return false;
    }
    if nlen == 0 {
        proof {
            assert(hay@.subrange(0, 0) =~= needle@);
            assert(contains_seq_at(hay@, needle@, 0));
        }
        return true;
    }
    let mut i: usize = 0;
    while i <= hlen - nlen
        invariant
            hlen == hay@.len(),
            nlen == needle@.len(),
            1 <= nlen <= hlen,
            i <= hlen - nlen + 1,
            forall|k: int| 0 <= k < i ==> !contains_seq_at(hay@, needle@, k),
        decreases hlen - nlen - i + 1,
    {
        if matches_at(hay, needle, i) {
            return true;
        }
        i = i + 1;
    }
    proof {
        assert forall|k: int| !contains_seq_at(hay@, needle@, k) by {
            if 0 <= k < i {
            } else {
            }
        }
    }
    false
}

/// The sequence begins with the prefix.
pub open spec fn starts_with_seq(s: Seq<char>, prefix: Seq<char>) -> bool {
    prefix.len() <= s.len() && s.subrange(0, prefix.len() as int) == prefix
}

/// Does the string slice begin with the prefix?
pub fn str_starts_with(s: &str, prefix: &str) -> (r: bool)
    ensures
        r == starts_with_seq(s@, prefix@),
{
    let slen = s.unicode_len();
    let plen = prefix.unicode_len();
    if plen > slen {
        return false;
    }
    matches_at(s, prefix, 0)
}

/// The case folding computed by the standard library; its value on given
/// characters is not restated here.
pub uninterp spec fn lower_of(s: Seq<char>) -> Seq<char>;

/// Relies on str::to_lowercase: its result depends on the characters of the
/// input alone, and an empty input gives an empty result.
#[verifier::external_body]
pub(crate) fn lowercase(s: &str) -> (r: String)
    ensures
        r@ == lower_of(s@),
        s@.len() == 0 ==> r@.len() == 0,
{
    s.to_lowercase()
}

/// Splitting a character sequence on a separator: one segment per stretch
/// between separators, with empty segments where separators meet an end or
/// each other.
pub open spec fn spec_split(s: Seq<char>, sep: char) -> Seq<Seq<char>>
    decreases s.len(),
{
    if s.len() == 0 {
        seq![Seq::<char>::empty()]
    } else if s[0] == sep {
        seq![Seq::<char>::empty()] + spec_split(s.drop_first(), sep)
    } else {
        let rest = spec_split(s.drop_first(), sep);
        seq![seq![s[0]] + rest[0]] + rest.drop_first()
    }
}

/// A split has at least one segment.
pub proof fn lemma_split_len_pos(s: Seq<char>, sep: char)
    ensures
        spec_split(s, sep).len() >= 1,
    decreases s.len(),
{
    if s.len() == 0 {
    } else {
        lemma_split_len_pos(s.drop_first(), sep);
    }
}

/// Splitting a separator-free sequence gives that sequence as the one segment.
pub proof fn lemma_split_no_sep(u: Seq<char>, sep: char)
    requires
        forall|m: int| 0 <= m < u.len() ==> u[m] != sep,
    ensures
        spec_split(u, sep) == seq![u],
    decreases u.len(),
{
    if u.len() == 0 {
        assert(spec_split(u, sep) =~~= seq![u]);
    } else {
        lemma_split_no_sep(u.drop_first(), sep);
        assert(seq![u[0]] + u.drop_first() =~= u);
        assert((seq![u.drop_first()]).drop_first() =~= Seq::<Seq<char>>::empty());
        assert(spec_split(u, sep) =~~= seq![u]);
    }
}

/// Splitting at the first separator: a separator-free prefix becomes one
/// segment, and the rest is split on its own.
pub proof fn lemma_split_at_sep(u: Seq<char>, sep: char, v: Seq<char>)
    requires
        forall|m: int| 0 <= m < u.len() ==> u[m] != sep,
    ensures
        spec_split(u + seq![sep] + v, sep) == seq![u] + spec_split(v, sep),
    decreases u.len(),
{
    let s = u + seq![sep] + v;
    if u.len() == 0 {
        assert(s =~= seq![sep] + v);
        assert(s[0] == sep);
        assert(s.drop_first() =~= v);
        assert(seq![Seq::<char>::empty()] + spec_split(v, sep) =~~= seq![u] + spec_split(
            v,
            sep,
        ));
    } else {
        assert(s[0] == u[0]);
        assert(s.drop_first() =~= u.drop_first() + seq![sep] + v);
        lemma_split_at_sep(u.drop_first(), sep, v);
        let rest = spec_split(s.drop_first(), sep);
        assert(rest == seq![u.drop_first()] + spec_split(v, sep));
        assert(rest[0] == u.drop_first());
        assert(seq![s[0]] + rest[0] =~= u);
        assert(rest.drop_first() =~= spec_split(v, sep));
        assert(spec_split(s, sep) =~~= seq![u] + spec_split(v, sep));
    }
}

/// The characters of an optional string.
pub open spec fn opt_str_view(o: Option<String>) -> Option<Seq<char>> {
    match o {
        Some(s) => Some(s@),
        None => None,
    }
}

/// The segment right after the first segment equal to the marker, if both
/// exist.
pub open spec fn id_after_marker(parts: Seq<Seq<char>>, marker: Seq<char>) -> Option<Seq<char>>
    decreases parts.len(),
{
    if parts.len() == 0 {
        None
    } else if parts.first() == marker {
        if parts.len() >= 2 {
            Some(parts[1])
        } else {
            None
        }
    } else {
        id_after_marker(parts.drop_first(), marker)
    }
}

/// Splitting a string slice on a separator character.
pub fn split_char(s: &str, sep: char) -> (r: Vec<String>)
    ensures
        r@.map_values(|x: String| x@) == spec_split(s@, sep),
{
    let n = s.unicode_len();
    let mut segs: Vec<String> = Vec::new();
    let mut start: usize = 0;
    let mut i: usize = 0;
    proof {
        assert(s@.skip(0) =~= s@);
        assert(segs@.map_values(|x: String| x@) =~~= Seq::<Seq<char>>::empty());
        assert(segs@.map_values(|x: String| x@) + spec_split(s@.skip(0), sep) =~~= spec_split(
            s@,
            sep,
        ));
    }
    while i < n
        invariant
            n == s@.len(),
            start <= i <= n,
            forall|m: int| start <= m < i ==> s@[m] != sep,
            spec_split(s@, sep) == segs@.map_values(|x: String| x@) + spec_split(
                s@.skip(start as int),
                sep,
            ),
        decreases n - i,
    {
        if s.get_char(i) == sep {
            let ghost old_segs = segs@;
            let seg = s.substring_char(start, i).to_owned();
            let ghost u = s@.subrange(start as int, i as int);
            proof {
                assert(seg@ == u);
                assert(s@.skip(start as int) =~= u + seq![sep] + s@.skip(i as int + 1));
                lemma_split_at_sep(u, sep, s@.skip(i as int + 1));
            }
            segs.push(seg);
            start = i + 1;
            proof {
                assert(segs@ =~= old_segs.push(seg));
                assert(segs@.map_values(|x: String| x@) =~~= old_segs.map_values(
                    |x: String| x@,
                ) + seq![u]);
                assert(spec_split(s@, sep) =~~= segs@.map_values(|x: String| x@) + spec_split(
                    s@.skip(start as int),
                    sep,
                ));
            }
        }
        i = i + 1;
    }
    let ghost old_segs = segs@;
    let last = s.substring_char(start, n).to_owned();
    let ghost u = s@.subrange(start as int, n as int);
    proof {
        assert(last@ == u);
        assert(s@.skip(start as int) =~= u);
        lemma_split_no_sep(u, sep);
    }
    segs.push(last);
    proof {
        assert(segs@ =~= old_segs.push(last));
        assert(segs@.map_values(|x: String| x@) =~~= old_segs.map_values(|x: String| x@)
            + seq![u]);
        assert(segs@.map_values(|x: String| x@) =~~= spec_split(s@, sep));
    }
    segs
}

} // verus!
