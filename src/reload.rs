use vstd::prelude::*;

use crate::status::{has_path, paths_distinct, SourceFile};

verus! {

/// What std's `Path::extension` gives for a path, as text.
pub uninterp spec fn path_extension(p: Seq<char>) -> Seq<char>;

/// Relies on std::path::Path::extension for the extension of a file's path
/// (the part of the file name after its last dot; empty where there is none).
#[verifier::external_body]
pub(crate) fn extension_of(path: &String) -> (r: String)
    ensures
        r@ == path_extension(path@),
{
    match std::path::Path::new(path.as_str()).extension() {
        Some(e) => e.to_string_lossy().into_owned(),
        None => String::new(),
    }
}

/// The files of `s` whose path has not occurred before them, in order.
pub open spec fn first_occurrences(s: Seq<SourceFile>) -> Seq<SourceFile>
    decreases s.len(),
{
    if s.len() == 0 {
        s
    } else {
        let before = first_occurrences(s.drop_last());
        if has_path(s.drop_last(), s.last().path@) {
            before
        } else {
            before.push(s.last())
        }
    }
}

/// The extensions of the files' paths, each once, in order of first occurrence.
pub open spec fn first_extensions(files: Seq<SourceFile>) -> Seq<Seq<char>>
    decreases files.len(),
{
    if files.len() == 0 {
        Seq::empty()
    } else {
        let before = first_extensions(files.drop_last());
        let e = path_extension(files.last().path@);
        if before.contains(e) {
            before
        } else {
            before.push(e)
        }
    }
}

/// Some file of `files` with path `p` was selected.
pub open spec fn was_selected(files: Seq<SourceFile>, sel: Seq<bool>, p: Seq<char>) -> bool {
    exists|j: int| 0 <= j < files.len() && j < sel.len() && files[j].path@ == p && sel[j]
}

/// Some entry of `keys` equal to `k` was selected.
pub open spec fn key_was_selected(keys: Seq<String>, sel: Seq<bool>, k: Seq<char>) -> bool {
    exists|j: int| 0 <= j < keys.len() && j < sel.len() && keys[j]@ == k && sel[j]
}

pub open spec fn views_of(v: Seq<String>) -> Seq<Seq<char>> {
    v.map_values(|s: String| s@)
}

proof fn lemma_has_path_push(s: Seq<SourceFile>, x: SourceFile, p: Seq<char>)
    ensures
        has_path(s.push(x), p) <==> (has_path(s, p) || x.path@ == p),
{
    let t = s.push(x);
    if has_path(s, p) {
        let k = choose|k: int| 0 <= k < s.len() && s[k].path@ == p;
        assert(t[k] == s[k]);
    }
    if x.path@ == p {
        assert(t[s.len() as int] == x);
    }
    if has_path(t, p) {
        let k = choose|k: int| 0 <= k < t.len() && t[k].path@ == p;
        if k < s.len() {
            assert(t[k] == s[k]);
        }
    }
}

/// Keeps the first file of each path, in order.
pub fn dedup_files(listed: &Vec<SourceFile>) -> (r: Vec<SourceFile>)
    ensures
        r@ == first_occurrences(listed@),
        paths_distinct(r@),
        forall|p: Seq<char>| has_path(r@, p) <==> has_path(listed@, p),
{
    let mut r: Vec<SourceFile> = Vec::new();
    let n = listed.len();
    let mut i: usize = 0;
    while i < n
        invariant
            0 <= i <= n,
            n == listed.len(),
            r@ == first_occurrences(listed@.take(i as int)),
            paths_distinct(r@),
            forall|p: Seq<char>| has_path(r@, p) <==> has_path(listed@.take(i as int), p),
        decreases n - i,
    {
        let ghost pre = listed@.take(i as int);
        let ghost next = listed@.take(i as int + 1);
        proof {
            assert(next.drop_last() =~= pre);
            assert(next.last() == listed@[i as int]);
        }
        let mut seen = false;
        let mut j: usize = 0;
        while j < r.len()
            invariant
                0 <= j <= r.len(),
                i < n,
                n == listed.len(),
                seen == exists|k: int| 0 <= k < j && r@[k].path@ == listed@[i as int].path@,
            decreases r.len() - j,
        {
            if r[j].path == listed[i].path {
                seen = true;
            }
            j += 1;
        }
        proof {
            assert(seen == has_path(r@, listed@[i as int].path@));
        }
        let ghost r0 = r@;
        if !seen {
            r.push(listed[i].duplicate());
        }
        proof {
            assert(next =~= pre.push(listed@[i as int]));
            assert forall|p: Seq<char>| has_path(r@, p) <==> has_path(next, p) by {
                lemma_has_path_push(pre, listed@[i as int], p);
                if !seen {
                    lemma_has_path_push(r0, listed@[i as int], p);
                }
            }
            if !seen {
                assert forall|a: int, b: int|
                    0 <= a < r@.len() && 0 <= b < r@.len() && a != b implies r@[a].path@
                    != r@[b].path@ by {
                    if a == r@.len() - 1 {
                        assert(!has_path(r0, r@[a].path@));
                        assert(r@[b] == r0[b]);
                    } else if b == r@.len() - 1 {
                        assert(!has_path(r0, r@[b].path@));
                        assert(r@[a] == r0[a]);
                    } else {
                        assert(r@[a] == r0[a]);
                        assert(r@[b] == r0[b]);
                    }
                }
            }
        }
        i += 1;
    }
    proof {
        assert(listed@.take(n as int) =~= listed@);
    }
    r
}

/// For each new file, whether a file of the same path was selected before.
pub fn carry_file_selection(
    old_files: &Vec<SourceFile>,
    old_sel: &Vec<bool>,
    new_files: &Vec<SourceFile>,
) -> (r: Vec<bool>)
    ensures
        r@.len() == new_files@.len(),
        forall|i: int|
            0 <= i < new_files@.len() ==> r@[i] == was_selected(
                old_files@,
                old_sel@,
                new_files@[i].path@,
            ),
{
    let mut r: Vec<bool> = Vec::new();
    let n = new_files.len();
    let mut i: usize = 0;
    while i < n
        invariant
            0 <= i <= n,
            n == new_files.len(),
            r@.len() == i,
            forall|k: int|
                0 <= k < i ==> r@[k] == was_selected(old_files@, old_sel@, new_files@[k].path@),
        decreases n - i,
    {
        let mut found = false;
        let mut j: usize = 0;
        while j < old_files.len()
            invariant
                0 <= j <= old_files.len(),
                i < n,
                n == new_files.len(),
                found == exists|k: int|
                    0 <= k < j && k < old_sel@.len() && old_files@[k].path@
                        == new_files@[i as int].path@ && old_sel@[k],
            decreases old_files.len() - j,
        {
            if j < old_sel.len() && old_sel[j] && old_files[j].path == new_files[i].path {
                found = true;
            }
            j += 1;
        }
        r.push(found);
        i += 1;
    }
    r
}

/// The distinct extensions of the files' paths, in order of first occurrence.
pub fn distinct_extensions(files: &Vec<SourceFile>) -> (r: Vec<String>)
    ensures
        views_of(r@) == first_extensions(files@),
{
    let mut r: Vec<String> = Vec::new();
    let n = files.len();
    let mut i: usize = 0;
    while i < n
        invariant
            0 <= i <= n,
            n == files.len(),
            views_of(r@) == first_extensions(files@.take(i as int)),
        decreases n - i,
    {
        let ghost next = files@.take(i as int + 1);
        proof {
            assert(next.drop_last() =~= files@.take(i as int));
            assert(next.last() == files@[i as int]);
        }
        let e = extension_of(&files[i].path);
        let mut seen = false;
        let mut j: usize = 0;
        while j < r.len()
            invariant
                0 <= j <= r.len(),
                seen == exists|k: int| 0 <= k < j && r@[k]@ == e@,
            decreases r.len() - j,
        {
            if r[j] == e {
                seen = true;
            }
            j += 1;
        }
        proof {
            let vs = views_of(r@);
            if seen {
                let k = choose|k: int| 0 <= k < r@.len() && r@[k]@ == e@;
                assert(vs[k] == e@);
            } else {
                assert forall|k: int| 0 <= k < vs.len() implies vs[k] != e@ by {
                    assert(vs[k] == r@[k]@);
                }
            }
            assert(seen == vs.contains(e@));
        }
        if !seen {
            let ghost before = r@;
            r.push(e);
            proof {
                assert(views_of(r@) =~= views_of(before).push(e@));
            }
        }
        i += 1;
    }
    proof {
        assert(files@.take(n as int) =~= files@);
    }
    r
}

/// For each new key, whether an equal key was selected before.
pub fn carry_key_selection(old_keys: &Vec<String>, old_sel: &Vec<bool>, new_keys: &Vec<String>) -> (r:
    Vec<bool>)
    ensures
        r@.len() == new_keys@.len(),
        forall|i: int|
            0 <= i < new_keys@.len() ==> r@[i] == key_was_selected(
                old_keys@,
                old_sel@,
                new_keys@[i]@,
            ),
{
    let mut r: Vec<bool> = Vec::new();
    let n = new_keys.len();
    let mut i: usize = 0;
    while i < n
        invariant
            0 <= i <= n,
            n == new_keys.len(),
            r@.len() == i,
            forall|k: int|
                0 <= k < i ==> r@[k] == key_was_selected(old_keys@, old_sel@, new_keys@[k]@),
        decreases n - i,
    {
        let mut found = false;
        let mut j: usize = 0;
        while j < old_keys.len()
            invariant
                0 <= j <= old_keys.len(),
                i < n,
                n == new_keys.len(),
                found == exists|k: int|
                    0 <= k < j && k < old_sel@.len() && old_keys@[k]@ == new_keys@[i as int]@
                        && old_sel@[k],
            decreases old_keys.len() - j,
        {
            if j < old_sel.len() && old_sel[j] && old_keys[j] == new_keys[i] {
                found = true;
            }
            j += 1;
        }
        r.push(found);
        i += 1;
    }
    r
}

/// Keeping the first file of each path is idempotent: a list whose paths are
/// already distinct is left as it is, so doing it twice is doing it once.
pub proof fn lemma_first_occurrences_idempotent(s: Seq<SourceFile>)
    ensures
        paths_distinct(s) ==> first_occurrences(s) == s,
        first_occurrences(first_occurrences(s)) == first_occurrences(s),
{
    lemma_distinct_after_first_occurrences(s);
    lemma_distinct_unchanged(s);
    lemma_distinct_unchanged(first_occurrences(s));
}

proof fn lemma_distinct_unchanged(s: Seq<SourceFile>)
    ensures
        paths_distinct(s) ==> first_occurrences(s) == s,
    decreases s.len(),
{
    if s.len() > 0 {
        let t = s.drop_last();
        lemma_distinct_unchanged(t);
        if paths_distinct(s) {
            assert(paths_distinct(t)) by {
                assert forall|a: int, b: int|
                    0 <= a < t.len() && 0 <= b < t.len() && a != b implies t[a].path@
                    != t[b].path@ by {
                    assert(t[a] == s[a] && t[b] == s[b]);
                }
            }
            assert(!has_path(t, s.last().path@)) by {
                if has_path(t, s.last().path@) {
                    let k = choose|k: int| 0 <= k < t.len() && t[k].path@ == s.last().path@;
                    assert(s[k] == t[k]);
                }
            }
            assert(t.push(s.last()) =~= s);
        }
    }
}

proof fn lemma_distinct_after_first_occurrences(s: Seq<SourceFile>)
    ensures
        paths_distinct(first_occurrences(s)),
        forall|p: Seq<char>| has_path(first_occurrences(s), p) <==> has_path(s, p),
    decreases s.len(),
{
    if s.len() > 0 {
        let t = s.drop_last();
        lemma_distinct_after_first_occurrences(t);
        let before = first_occurrences(t);
        assert forall|p: Seq<char>| has_path(first_occurrences(s), p) <==> has_path(s, p) by {
            lemma_has_path_push(t, s.last(), p);
            lemma_has_path_push(before, s.last(), p);
            assert(t.push(s.last()) =~= s);
        }
        if !has_path(t, s.last().path@) {
            let r = before.push(s.last());
            assert forall|a: int, b: int|
                0 <= a < r.len() && 0 <= b < r.len() && a != b implies r[a].path@ != r[b].path@ by {
                if a == r.len() - 1 {
                    assert(r[b] == before[b]);
                    assert(!has_path(before, r[a].path@));
                } else if b == r.len() - 1 {
                    assert(r[a] == before[a]);
                    assert(!has_path(before, r[b].path@));
                } else {
                    assert(r[a] == before[a] && r[b] == before[b]);
                }
            }
        }
    }
}

} // verus!
