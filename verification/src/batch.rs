//! Batch inputs and their set and map semantics.
//!
//! Batch operation kinds take an unordered set of paths, or a mapping from
//! path to contents, in which duplicate paths collapse. The coroutines hold
//! such inputs as vectors without repeated paths; the helpers here collapse
//! duplicates and give the vectors their set and map views.

use vstd::prelude::*;

verus! {

/// The views of a sequence of paths, in order.
pub open spec fn path_views(s: Seq<String>) -> Seq<Seq<char>> {
    s.map_values(|p: String| p@)
}

/// True when the sequence holds a path whose view is `v`.
pub open spec fn has_path(s: Seq<String>, v: Seq<char>) -> bool {
    exists|i: int| 0 <= i < s.len() && s[i]@ == v
}

/// The set of path views that a sequence of paths holds.
pub open spec fn path_set(s: Seq<String>) -> Set<Seq<char>> {
    Set::new(|v: Seq<char>| has_path(s, v))
}

/// No two entries of the sequence are the same path.
pub open spec fn distinct_paths(s: Seq<String>) -> bool {
    forall|i: int, j: int| 0 <= i < j < s.len() ==> s[i]@ != s[j]@
}

/// No two entries of the sequence carry the same path.
pub open spec fn distinct_keys(s: Seq<(String, Vec<u8>)>) -> bool {
    forall|i: int, j: int| 0 <= i < j < s.len() ==> s[i].0@ != s[j].0@
}

/// The path-to-contents mapping that a sequence of entries denotes; a later
/// entry overrides an earlier one that carries the same path.
pub open spec fn entry_map(s: Seq<(String, Vec<u8>)>) -> Map<Seq<char>, Seq<u8>>
    decreases s.len(),
{
    if s.len() == 0 {
        Map::empty()
    } else {
        entry_map(s.drop_last()).insert(s.last().0@, s.last().1@)
    }
}

/// Appending a path adds exactly its view to the path set.
pub proof fn lemma_path_set_push(s: Seq<String>, p: String)
    ensures
        path_set(s.push(p)) == path_set(s).insert(p@),
{
    let t = s.push(p);
    assert forall|v: Seq<char>| path_set(t).contains(v) implies path_set(s).insert(
        p@,
    ).contains(v) by {
        let i = choose|i: int| 0 <= i < t.len() && t[i]@ == v;
        if i < s.len() {
            assert(s[i]@ == v);
        } else {
            assert(v == p@);
        }
    }
    assert forall|v: Seq<char>| path_set(s).insert(p@).contains(v) implies path_set(t).contains(
        v,
    ) by {
        if v == p@ {
            assert(t[s.len() as int]@ == v);
        } else {
            let i = choose|i: int| 0 <= i < s.len() && s[i]@ == v;
            assert(t[i]@ == v);
        }
    }
    assert(path_set(s.push(p)) =~= path_set(s).insert(p@));
}

/// Appending an entry updates the denoted mapping at exactly its path.
pub proof fn lemma_entry_map_push(s: Seq<(String, Vec<u8>)>, p: String, c: Vec<u8>)
    ensures
        entry_map(s.push((p, c))) == entry_map(s).insert(p@, c@),
{
    assert(s.push((p, c)).drop_last() =~= s);
}

/// Overwriting the entry that carries a path updates the denoted mapping at
/// exactly that path.
pub proof fn lemma_entry_map_update(s: Seq<(String, Vec<u8>)>, j: int, p: String, c: Vec<u8>)
    requires
        distinct_keys(s),
        0 <= j < s.len(),
        s[j].0@ == p@,
    ensures
        entry_map(s.update(j, (p, c))) == entry_map(s).insert(p@, c@),
    decreases s.len(),
{
    let t = s.update(j, (p, c));
    if j == s.len() - 1 {
        assert(t.drop_last() =~= s.drop_last());
        assert(t.last() == (p, c));
        assert(entry_map(s).insert(p@, c@) =~= entry_map(s.drop_last()).insert(p@, c@));
    } else {
        assert(t.drop_last() =~= s.drop_last().update(j, (p, c)));
        assert(distinct_keys(s.drop_last())) by {
            assert(forall|i: int, k: int|
                0 <= i < k < s.drop_last().len() ==> s.drop_last()[i] == s[i] && s.drop_last()[k]
                    == s[k]);
        }
        lemma_entry_map_update(s.drop_last(), j, p, c);
        assert(t.last() == s.last());
        assert(s.last().0@ != p@);
        assert(entry_map(s.drop_last()).insert(p@, c@).insert(s.last().0@, s.last().1@)
            =~= entry_map(s.drop_last()).insert(s.last().0@, s.last().1@).insert(p@, c@));
    }
}

/// True when the vector holds a path equal to `p`.
pub fn contains_path(ps: &Vec<String>, p: &String) -> (r: bool)
    ensures
        r == path_set(ps@).contains(p@),
{
    let mut k: usize = 0;
    while k < ps.len()
        invariant
            k <= ps@.len(),
            forall|i: int| 0 <= i < k ==> ps@[i]@ != p@,
        decreases ps@.len() - k,
    {
        if ps[k] == *p {
            assert(ps@[k as int]@ == p@);
            return true;
        }
        k += 1;
    }
    false
}

/// Collapses duplicate paths, keeping one entry per path.
pub fn dedup_paths(paths: Vec<String>) -> (r: Vec<String>)
    ensures
        distinct_paths(r@),
        path_set(r@) == path_set(paths@),
{
    let mut out: Vec<String> = Vec::new();
    let mut k: usize = 0;
    while k < paths.len()
        invariant
            k <= paths@.len(),
            distinct_paths(out@),
            path_set(out@) == path_set(paths@.take(k as int)),
        decreases paths@.len() - k,
    {
        let ghost pre = out@;
        let p = paths[k].clone();
        if !contains_path(&out, &p) {
            proof {
                assert(forall|i: int| 0 <= i < pre.len() ==> pre[i]@ != p@);
            }
            out.push(p);
        }
        proof {
            assert(paths@.take(k as int + 1) =~= paths@.take(k as int).push(paths@[k as int]));
            lemma_path_set_push(paths@.take(k as int), paths@[k as int]);
            if out@ == pre {
                assert(path_set(pre).contains(paths@[k as int]@));
                assert(path_set(out@) =~= path_set(paths@.take(k as int)).insert(
                    paths@[k as int]@,
                ));
            } else {
                lemma_path_set_push(pre, paths@[k as int]);
            }
        }
        k += 1;
    }
    proof {
        assert(paths@.take(paths@.len() as int) =~= paths@);
    }
    out
}

/// The index of the entry that carries path `p`, if one does.
fn find_key(es: &Vec<(String, Vec<u8>)>, p: &String) -> (r: Option<usize>)
    ensures
        match r {
            Some(j) => 0 <= j < es@.len() && es@[j as int].0@ == p@,
            None => forall|i: int| 0 <= i < es@.len() ==> es@[i].0@ != p@,
        },
{
    let mut k: usize = 0;
    while k < es.len()
        invariant
            k <= es@.len(),
            forall|i: int| 0 <= i < k ==> es@[i].0@ != p@,
        decreases es@.len() - k,
    {
        if es[k].0 == *p {
            return Some(k);
        }
        k += 1;
    }
    None
}

/// Collapses entries that carry the same path, keeping one entry per path;
/// of two entries with the same path, the later one wins, as the denoted
/// mapping prescribes.
pub fn dedup_entries(entries: Vec<(String, Vec<u8>)>) -> (r: Vec<(String, Vec<u8>)>)
    ensures
        distinct_keys(r@),
        entry_map(r@) == entry_map(entries@),
    decreases entries@.len(),
{
    let mut entries = entries;
    let ghost whole = entries@;
    match entries.pop() {
        None => entries,
        Some((p, c)) => {
            let ghost pg = p;
            let ghost cg = c;
            let mut rest = dedup_entries(entries);
            let ghost folded = rest@;
            match find_key(&rest, &p) {
                Some(j) => {
                    rest[j] = (p, c);
                    proof {
                        lemma_entry_map_update(folded, j as int, pg, cg);
                        assert(distinct_keys(rest@)) by {
                            assert(forall|i: int|
                                0 <= i < rest@.len() && i != j ==> rest@[i] == folded[i]);
                        }
                    }
                },
                None => {
                    rest.push((p, c));
                    proof {
                        lemma_entry_map_push(folded, pg, cg);
                        assert(distinct_keys(rest@)) by {
                            assert(forall|i: int| 0 <= i < folded.len() ==> rest@[i] == folded[i]);
                        }
                    }
                },
            }
            proof {
                assert(whole.drop_last() == entries@);
                assert(entry_map(whole) == entry_map(entries@).insert(pg@, cg@));
            }
            rest
        },
    }
}

} // verus!
