//! Planning the extraction of a downloaded archive: which entries mark
//! the root directory of a bundled add-on, and before which entry an
//! existing top-level directory must be wiped so that extraction
//! replaces stale content instead of merging with it. The filesystem
//! work itself is left to the caller; the plan is pure.

use vstd::prelude::*;
use vstd::string::{StrSliceExecFns, StringExecFns};

verus! {

/// One entry of the downloaded archive, by its sanitized relative
/// path, components separated by `/`.
pub struct ArchiveEntry {
    pub path: String,
    pub is_dir: bool,
}

impl Clone for ArchiveEntry {
    fn clone(&self) -> (r: Self)
        ensures
            r == *self,
    {
        ArchiveEntry { path: self.path.clone(), is_dir: self.is_dir }
    }
}

/// The index of the first `/` in `p`, or `p.len()` where there is
/// none.
pub open spec fn first_slash(p: Seq<char>) -> int
    decreases p.len(),
{
    if p.len() == 0 {
        0
    } else if p[0] == '/' {
        0
    } else {
        1 + first_slash(p.drop_first())
    }
}

/// The first slash lies in range, carries a slash, and nothing before
/// it does.
pub proof fn lemma_first_slash_bounds(p: Seq<char>)
    ensures
        0 <= first_slash(p) <= p.len(),
        first_slash(p) < p.len() ==> p[first_slash(p)] == '/',
        forall|j: int| 0 <= j < first_slash(p) ==> p[j] != '/',
    decreases p.len(),
{
    if p.len() == 0 {
    } else if p[0] == '/' {
    } else {
        lemma_first_slash_bounds(p.drop_first());
        let fs = first_slash(p);
        assert forall|j: int| 0 <= j < fs implies p[j] != '/' by {
            if j > 0 {
                assert(p.drop_first()[j - 1] == p[j]);
            }
        }
        if fs < p.len() {
            assert(p[fs] == p.drop_first()[fs - 1]);
        }
    }
}

/// A position with no slash before it, and a slash at it unless it is
/// the end, is the first slash.
pub proof fn lemma_first_slash_at(p: Seq<char>, i: int)
    requires
        0 <= i <= p.len(),
        forall|j: int| 0 <= j < i ==> p[j] != '/',
        i < p.len() ==> p[i] == '/',
    ensures
        first_slash(p) == i,
{
    lemma_first_slash_bounds(p);
    let fs = first_slash(p);
    if fs < i {
        assert(p[fs] != '/');
    } else if i < fs {
        assert(p[i] != '/');
    }
}

/// Finds the first `/` in `path`, or its length where there is none.
fn first_slash_index(path: &str) -> (r: usize)
    ensures
        r as int == first_slash(path@),
        r <= path@.len(),
{
    let len = path.unicode_len();
    let mut i: usize = 0;
    while i < len
        invariant
            len == path@.len(),
            i <= len,
            forall|j: int| 0 <= j < i ==> path@[j] != '/',
        decreases len - i,
    {
        if path.get_char(i) == '/' {
            proof {
                lemma_first_slash_at(path@, i as int);
            }
            return i;
        }
        i = i + 1;
    }
    proof {
        lemma_first_slash_at(path@, len as int);
    }
    len
}

/// The top-level component of a sanitized relative path: what stands
/// before the first `/`, or the whole path where there is none.
pub open spec fn top_of(p: Seq<char>) -> Seq<char> {
    p.subrange(0, first_slash(p))
}

/// Extracts the top-level component of `path`.
pub fn top_component(path: &str) -> (r: String)
    ensures
        r@ == top_of(path@),
{
    let i = first_slash_index(path);
    proof {
        lemma_first_slash_bounds(path@);
    }
    let stem = path.substring_char(0, i);
    String::from_str(stem)
}

/// The add-on root an entry marks, where it does: a path of the shape
/// `S/S.toc` marks the root directory `S`.
pub open spec fn toc_root_of(p: Seq<char>) -> Option<Seq<char>> {
    let i = first_slash(p);
    if 0 < i && i < p.len() && p.subrange(i + 1, p.len() as int) == p.subrange(0, i) + ".toc"@ {
        Some(p.subrange(0, i))
    } else {
        None
    }
}

/// Decides whether `path` marks the root of a bundled add-on: a
/// directory whose name matches its own table-of-contents file one
/// level down, as in `S/S.toc`.
pub fn toc_root(path: &str) -> (r: Option<String>)
    ensures
        (match r {
            Some(s) => toc_root_of(path@) == Some(s@),
            None => toc_root_of(path@) is None,
        }),
{
    let len = path.unicode_len();
    let i = first_slash_index(path);
    proof {
        lemma_first_slash_bounds(path@);
        reveal_strlit(".toc");
    }
    if i == 0 || i >= len {
        return None;
    }
    let rest_len = len - i - 1;
    if rest_len < 5 || i != rest_len - 4 {
        proof {
            reveal_strlit(".toc");
            let p = path@;
            assert(p.subrange(i + 1, len as int).len() != (p.subrange(0, i as int)
                + ".toc"@).len());
            assert(p.subrange(i + 1, len as int) != p.subrange(0, i as int) + ".toc"@);
            assert(toc_root_of(p) is None);
        }
        return None;
    }
    let mut j: usize = 0;
    while j < i
        invariant
            len == path@.len(),
            i as int == first_slash(path@),
            0 < i < len,
            len == 2 * i + 5,
            j <= i,
            forall|j2: int| 0 <= j2 < j ==> path@[i + 1 + j2] == (#[trigger] path@[j2]),
        decreases i - j,
    {
        if path.get_char(i + 1 + j) != path.get_char(j) {
            proof {
                reveal_strlit(".toc");
                let p = path@;
                let cat = p.subrange(0, i as int) + ".toc"@;
                assert(p.subrange(i + 1, len as int)[j as int] == p[i + 1 + j]);
                assert(cat[j as int] == p[j as int]);
                assert(p.subrange(i + 1, len as int) != cat);
                assert(toc_root_of(p) is None);
            }
            return None;
        }
        j = j + 1;
    }
    let d0 = path.get_char(2 * i + 1);
    let d1 = path.get_char(2 * i + 2);
    let d2 = path.get_char(2 * i + 3);
    let d3 = path.get_char(2 * i + 4);
    if d0 != '.' || d1 != 't' || d2 != 'o' || d3 != 'c' {
        proof {
            reveal_strlit(".toc");
            let p = path@;
            let cat = p.subrange(0, i as int) + ".toc"@;
            let rest = p.subrange(i + 1, len as int);
            assert(rest[i as int] == p[2 * i + 1]);
            assert(rest[i + 1] == p[2 * i + 2]);
            assert(rest[i + 2] == p[2 * i + 3]);
            assert(rest[i + 3] == p[2 * i + 4]);
            assert(cat[i as int] == ".toc"@[0]);
            assert(cat[i + 1] == ".toc"@[1]);
            assert(cat[i + 2] == ".toc"@[2]);
            assert(cat[i + 3] == ".toc"@[3]);
            assert(rest != cat);
            assert(toc_root_of(p) is None);
        }
        return None;
    }
    proof {
        reveal_strlit(".toc");
        let p = path@;
        let s = p.subrange(0, i as int);
        let t = ".toc"@;
        let rest = p.subrange(i + 1, len as int);
        assert forall|k: int| 0 <= k < rest.len() implies rest[k] == (s + t)[k] by {
            assert(rest[k] == p[i + 1 + k]);
            if k < i {
                assert((s + t)[k] == p[k]);
            } else {
                assert((s + t)[k] == t[k - i]);
            }
        }
        assert(rest =~= s + t);
    }
    let stem = path.substring_char(0, i);
    Some(String::from_str(stem))
}

/// Some entry of `s` has `top` as its top-level component.
pub open spec fn tops_contain(s: Seq<ArchiveEntry>, top: Seq<char>) -> bool
    decreases s.len(),
{
    if s.len() == 0 {
        false
    } else {
        top_of(s[0].path@) == top || tops_contain(s.drop_first(), top)
    }
}

/// The add-on roots the archive's entries mark, in order.
pub open spec fn roots_of(entries: Seq<ArchiveEntry>) -> Seq<Seq<char>>
    decreases entries.len(),
{
    if entries.len() == 0 {
        Seq::empty()
    } else {
        roots_of(entries.drop_last()) + (match toc_root_of(entries.last().path@) {
            Some(s) => seq![s],
            None => Seq::<Seq<char>>::empty(),
        })
    }
}

/// The views of a sequence of strings.
pub open spec fn string_views(s: Seq<String>) -> Seq<Seq<char>> {
    s.map_values(|x: String| x@)
}

/// One step of the extraction: the entry's path and kind, and, where
/// this entry is the first one under its top-level directory, that
/// directory, which must be deleted before the entry is written.
pub struct InstallStep {
    pub path: String,
    pub is_dir: bool,
    pub wipe_top: Option<String>,
}

/// The whole extraction plan: one step per archive entry, in order,
/// and the add-on root directories the archive was found to bundle.
pub struct InstallPlan {
    pub steps: Vec<InstallStep>,
    pub addon_roots: Vec<String>,
}

/// Decides whether one of the first `k` entries already has `top` as
/// its top-level component.
fn tops_seen(entries: &Vec<ArchiveEntry>, k: usize, top: &String) -> (r: bool)
    requires
        k <= entries@.len(),
    ensures
        r == tops_contain(entries@.take(k as int), top@),
{
    let ghost s = entries@.take(k as int);
    let mut j: usize = 0;
    proof {
        assert(s.skip(0) =~= s);
    }
    while j < k
        invariant
            k <= entries@.len(),
            s == entries@.take(k as int),
            j <= k,
            tops_contain(s, top@) == tops_contain(s.skip(j as int), top@),
        decreases k - j,
    {
        proof {
            let rest = s.skip(j as int);
            assert(rest[0] == entries@[j as int]);
            assert(rest.drop_first() =~= s.skip(j + 1 as int));
        }
        let jt = top_component(entries[j].path.as_str());
        if jt == *top {
            proof {
                assert(top_of(s.skip(j as int)[0].path@) == top@);
            }
            return true;
        }
        j = j + 1;
    }
    false
}

/// Plans the extraction of an archive: every entry keeps its place and
/// kind; the first entry under each top-level directory is marked so
/// that the directory is wiped before it, guaranteeing a clean
/// replacement; and each entry of the shape `S/S.toc` contributes `S`
/// to the detected add-on roots.
pub fn plan_install(entries: &Vec<ArchiveEntry>) -> (plan: InstallPlan)
    ensures
        plan.steps@.len() == entries@.len(),
        forall|k: int|
            0 <= k < entries@.len() ==> {
                &&& (#[trigger] plan.steps@[k]).path@ == entries@[k].path@
                &&& plan.steps@[k].is_dir == entries@[k].is_dir
                &&& match plan.steps@[k].wipe_top {
                    Some(t) => t@ == top_of(entries@[k].path@) && !tops_contain(
                        entries@.take(k),
                        top_of(entries@[k].path@),
                    ),
                    None => tops_contain(entries@.take(k), top_of(entries@[k].path@)),
                }
            },
        string_views(plan.addon_roots@) == roots_of(entries@),
{
    let n = entries.len();
    let mut steps: Vec<InstallStep> = Vec::new();
    let mut addon_roots: Vec<String> = Vec::new();
    let mut k: usize = 0;
    proof {
        assert(entries@.take(0) =~= Seq::<ArchiveEntry>::empty());
    }
    while k < n
        invariant
            n == entries@.len(),
            k <= n,
            steps@.len() == k,
            forall|k2: int|
                0 <= k2 < k ==> {
                    &&& (#[trigger] steps@[k2]).path@ == entries@[k2].path@
                    &&& steps@[k2].is_dir == entries@[k2].is_dir
                    &&& match steps@[k2].wipe_top {
                        Some(t) => t@ == top_of(entries@[k2].path@) && !tops_contain(
                            entries@.take(k2),
                            top_of(entries@[k2].path@),
                        ),
                        None => tops_contain(entries@.take(k2), top_of(entries@[k2].path@)),
                    }
                },
            string_views(addon_roots@) == roots_of(entries@.take(k as int)),
        decreases n - k,
    {
        let top = top_component(entries[k].path.as_str());
        let seen = tops_seen(entries, k, &top);
        let wipe_top = if seen {
            None
        } else {
            Some(top)
        };
        let ghost roots_pre = addon_roots@;
        match toc_root(entries[k].path.as_str()) {
            Some(root) => {
                addon_roots.push(root);
                proof {
                    assert(string_views(addon_roots@) =~= string_views(roots_pre)
                        + seq![toc_root_of(entries@[k as int].path@)->0]);
                }
            },
            None => {},
        }
        steps.push(
            InstallStep { path: entries[k].path.clone(), is_dir: entries[k].is_dir, wipe_top },
        );
        proof {
            let cur = entries@.take(k + 1 as int);
            assert(cur.drop_last() =~= entries@.take(k as int));
            assert(cur.last() == entries@[k as int]);
        }
        k = k + 1;
    }
    proof {
        assert(entries@.take(n as int) =~= entries@);
    }
    InstallPlan { steps, addon_roots }
}

} // verus!
