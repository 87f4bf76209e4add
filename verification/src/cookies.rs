//! Cookie-store logic: splitting a stored cookie line into segments and
//! deduplicating a cookie header by name, first occurrence winning.

use vstd::prelude::*;
use crate::text::{
    find_char, find_char_exec, join, join_with, lemma_find_char, split_char, split_on, trim,
    trim_spec,
};

verus! {

/// The name of a cookie segment: the characters before the first `=`,
/// or the whole segment when it has none.
pub open spec fn cookie_name(seg: Seq<char>) -> Seq<char> {
    let i = find_char(seg, '=');
    if i < 0 {
        seg
    } else {
        seg.take(i)
    }
}

/// One left-to-right pass over the cookie segments: each segment is trimmed,
/// empties are dropped, and a segment is kept only when its name has not been
/// seen before.
pub open spec fn dedup_pass(
    parts: Seq<Seq<char>>,
    seen: Set<Seq<char>>,
    kept: Seq<Seq<char>>,
) -> Seq<Seq<char>>
    decreases parts.len(),
{
    if parts.len() == 0 {
        kept
    } else {
        let t = trim_spec(parts[0]);
        if t.len() == 0 || seen.contains(cookie_name(t)) {
            dedup_pass(parts.skip(1), seen, kept)
        } else {
            dedup_pass(parts.skip(1), seen.insert(cookie_name(t)), kept.push(t))
        }
    }
}

/// The deduplicated form of a `name=value; name=value` cookie line: segments
/// are split on `;` and trimmed, empty segments are dropped, the first
/// occurrence of each name wins, and the kept segments are joined with `"; "`
/// in their original order.
pub open spec fn dedup_spec(s: Seq<char>) -> Seq<char> {
    join_with(dedup_pass(split_on(s, ';'), Set::empty(), Seq::empty()), "; "@)
}

/// The trimmed, non-empty cookie segments of a stored cookie line, in order.
pub open spec fn segments_pass(parts: Seq<Seq<char>>, kept: Seq<Seq<char>>) -> Seq<Seq<char>>
    decreases parts.len(),
{
    if parts.len() == 0 {
        kept
    } else {
        let t = trim_spec(parts[0]);
        if t.len() == 0 {
            segments_pass(parts.skip(1), kept)
        } else {
            segments_pass(parts.skip(1), kept.push(t))
        }
    }
}

/// The segments of a stored cookie line: split on `;`, trimmed, empties
/// dropped, order preserved.
pub open spec fn segments_spec(s: Seq<char>) -> Seq<Seq<char>> {
    segments_pass(split_on(s, ';'), Seq::empty())
}

fn vec_contains_str(v: &Vec<String>, s: &str) -> (r: bool)
    ensures
        r == exists|k: int| 0 <= k < v@.len() && v@[k]@ == s@,
{
    let mut i: usize = 0;
    while i < v.len()
        invariant
            i <= v@.len(),
            forall|k: int| 0 <= k < i ==> v@[k]@ != s@,
        decreases v@.len() - i,
    {
        if crate::text::str_eq(v[i].as_str(), s) {
            return true;
        }
        i += 1;
    }
    false
}

/// The segment's name: everything before its first `=`, or the whole segment.
fn segment_name(seg: &str) -> (r: String)
    ensures
        r@ == cookie_name(seg@),
{
    match find_char_exec(seg, '=') {
        Some(i) => {
            proof {
                lemma_find_char(seg@, '=');
            }
            let name = String::from_str(seg.substring_char(0, i));
            proof {
                assert(name@ =~= seg@.take(i as int));
            }
            name
        },
        None => String::from_str(seg),
    }
}

/// Deduplicates a semicolon-separated cookie line by cookie name, keeping the
/// first occurrence of each name and the original order of the kept segments.
pub fn deduplicate_cookies(cookie_str: &str) -> (r: String)
    ensures
        r@ == dedup_spec(cookie_str@),
{
    let parts = split_char(cookie_str, ';');
    let ghost all = parts@.map_values(|p: String| p@);
    let mut seen_names: Vec<String> = Vec::new();
    let ghost mut seen: Set<Seq<char>> = Set::empty();
    let mut kept: Vec<String> = Vec::new();
    let mut i: usize = 0;
    proof {
        assert(all.skip(0) =~= all);
        assert(kept@.map_values(|p: String| p@) =~= Seq::<Seq<char>>::empty());
    }
    while i < parts.len()
        invariant
            i <= parts@.len(),
            all == parts@.map_values(|p: String| p@),
            all.len() == parts@.len(),
            dedup_pass(all, Set::empty(), Seq::empty()) == dedup_pass(
                all.skip(i as int),
                seen,
                kept@.map_values(|p: String| p@),
            ),
            forall|n: Seq<char>|
                seen.contains(n) == exists|k: int|
                    0 <= k < seen_names@.len() && #[trigger] seen_names@[k]@ == n,
        decreases parts@.len() - i,
    {
        let ghost before = all.skip(i as int);
        let ghost old_seen = seen;
        let ghost old_names = seen_names@;
        let ghost old_kept = kept@.map_values(|p: String| p@);
        proof {
            assert(before[0] == all[i as int]);
            assert(before.skip(1) =~= all.skip(i + 1));
        }
        let t = String::from_str(trim(parts[i].as_str()));
        let name = segment_name(t.as_str());
        if t.unicode_len() > 0 && !vec_contains_str(&seen_names, name.as_str()) {
            proof {
                seen = seen.insert(name@);
            }
            seen_names.push(name);
            kept.push(t);
            proof {
                assert(kept@.map_values(|p: String| p@) =~= old_kept.push(t@));
                assert(dedup_pass(before, old_seen, old_kept) == dedup_pass(
                    all.skip(i + 1),
                    seen,
                    old_kept.push(t@),
                ));
                assert forall|n: Seq<char>| seen.contains(n) == exists|k: int|
                    0 <= k < seen_names@.len() && #[trigger] seen_names@[k]@ == n by {
                    if seen.contains(n) {
                        if n == name@ {
                            assert(seen_names@[seen_names@.len() - 1]@ == n);
                        } else {
                            let k = choose|k: int|
                                0 <= k < old_names.len() && #[trigger] old_names[k]@ == n;
                            assert(seen_names@[k]@ == n);
                        }
                    } else {
                        assert forall|k: int| 0 <= k < seen_names@.len() implies seen_names@[k]@
                            != n by {
                            if k < old_names.len() {
                                assert(seen_names@[k] == old_names[k]);
                            }
                        }
                    }
                }
            }
        } else {
            proof {
                assert(dedup_pass(before, old_seen, old_kept) == dedup_pass(
                    all.skip(i + 1),
                    seen,
                    old_kept,
                ));
            }
        }
        i += 1;
    }
    proof {
        assert(all.skip(all.len() as int) =~= Seq::<Seq<char>>::empty());
    }
    join(&kept, "; ")
}

/// Splits a stored cookie line into its trimmed, non-empty segments, in order.
pub fn cookie_segments(cookie_str: &str) -> (r: Vec<String>)
    ensures
        r@.map_values(|p: String| p@) == segments_spec(cookie_str@),
{
    let parts = split_char(cookie_str, ';');
    let ghost all = parts@.map_values(|p: String| p@);
    let mut kept: Vec<String> = Vec::new();
    let mut i: usize = 0;
    proof {
        assert(all.skip(0) =~= all);
        assert(kept@.map_values(|p: String| p@) =~= Seq::<Seq<char>>::empty());
    }
    while i < parts.len()
        invariant
            i <= parts@.len(),
            all == parts@.map_values(|p: String| p@),
            all.len() == parts@.len(),
            segments_pass(all, Seq::empty()) == segments_pass(
                all.skip(i as int),
                kept@.map_values(|p: String| p@),
            ),
        decreases parts@.len() - i,
    {
        let ghost before = all.skip(i as int);
        let ghost old_kept = kept@.map_values(|p: String| p@);
        proof {
            assert(before[0] == all[i as int]);
            assert(before.skip(1) =~= all.skip(i + 1));
        }
        let t = String::from_str(trim(parts[i].as_str()));
        if t.unicode_len() > 0 {
            kept.push(t);
            proof {
                assert(kept@.map_values(|p: String| p@) =~= old_kept.push(t@));
            }
        }
        i += 1;
    }
    proof {
        assert(all.skip(all.len() as int) =~= Seq::<Seq<char>>::empty());
    }
    kept
}

} // verus!
