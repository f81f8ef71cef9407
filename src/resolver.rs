use vstd::prelude::*;
use crate::paths::{descends_from, is_within, Platform};
use crate::registry::{names_unique, ProjectsDb, RecordView};

verus! {

/// Lexicographic order on characters by code point; a proper prefix comes first.
pub open spec fn precedes(a: Seq<char>, b: Seq<char>) -> bool
    decreases a.len(),
{
    if a.len() == 0 {
        b.len() > 0
    } else if b.len() == 0 {
        false
    } else if a[0] != b[0] {
        a[0] < b[0]
    } else {
        precedes(a.drop_first(), b.drop_first())
    }
}

/// No name comes before itself.
pub proof fn lemma_precedes_irreflexive(a: Seq<char>)
    ensures
        !precedes(a, a),
    decreases a.len(),
{
    if a.len() > 0 {
        lemma_precedes_irreflexive(a.drop_first());
    }
}

/// The name order is transitive.
pub proof fn lemma_precedes_transitive(a: Seq<char>, b: Seq<char>, c: Seq<char>)
    requires
        precedes(a, b),
        precedes(b, c),
    ensures
        precedes(a, c),
    decreases a.len(),
{
    if a.len() > 0 && b.len() > 0 && c.len() > 0 && a[0] == b[0] && b[0] == c[0] {
        lemma_precedes_transitive(a.drop_first(), b.drop_first(), c.drop_first());
    }
}

/// Of two different names, one comes first.
pub proof fn lemma_precedes_total(a: Seq<char>, b: Seq<char>)
    requires
        a != b,
    ensures
        precedes(a, b) || precedes(b, a),
    decreases a.len(),
{
    if a.len() > 0 && b.len() > 0 {
        if a[0] == b[0] {
            if a.drop_first() == b.drop_first() {
                assert(a =~= seq![a[0]] + a.drop_first());
                assert(b =~= seq![b[0]] + b.drop_first());
            }
            lemma_precedes_total(a.drop_first(), b.drop_first());
        }
    } else if a.len() == 0 && b.len() == 0 {
        assert(a =~= b);
    }
}

/// The record at `i` is a candidate for `dir`: its root contains `dir`.
pub open spec fn owns(s: Seq<(Seq<char>, RecordView)>, i: int, dir: Seq<char>, p: Platform) -> bool {
    0 <= i < s.len() && descends_from(dir, s[i].1.path, p)
}

/// The record at `i` is preferred over the one at `j`: its root is longer
/// (deeper), or as long and its name comes first.
pub open spec fn outranks(s: Seq<(Seq<char>, RecordView)>, i: int, j: int) -> bool {
    ||| s[i].1.path.len() > s[j].1.path.len()
    ||| (s[i].1.path.len() == s[j].1.path.len() && precedes(s[i].0, s[j].0))
}

/// Among the first `n` records, the one at `i` owns `dir` and outranks every
/// other owner.
pub open spec fn best_among(s: Seq<(Seq<char>, RecordView)>, i: int, dir: Seq<char>, n: int, p: Platform) -> bool {
    &&& 0 <= i < n <= s.len()
    &&& owns(s, i, dir, p)
    &&& forall|j: int| 0 <= j < n && j != i && owns(s, j, dir, p) ==> outranks(s, i, j)
}

/// The record that owns `dir` most specifically, if any record owns it.
pub open spec fn resolution(s: Seq<(Seq<char>, RecordView)>, dir: Seq<char>, p: Platform) -> Option<int> {
    if exists|i: int| best_among(s, i, dir, s.len() as int, p) {
        Some(choose|i: int| best_among(s, i, dir, s.len() as int, p))
    } else {
        None
    }
}

/// At most one record owns a directory most specifically.
proof fn lemma_best_unique(s: Seq<(Seq<char>, RecordView)>, dir: Seq<char>, i: int, k: int, p: Platform)
    requires
        best_among(s, i, dir, s.len() as int, p),
        best_among(s, k, dir, s.len() as int, p),
    ensures
        i == k,
{
    if i != k {
        assert(outranks(s, i, k) && outranks(s, k, i));
        if s[i].1.path.len() == s[k].1.path.len() {
            lemma_precedes_transitive(s[i].0, s[k].0, s[i].0);
            lemma_precedes_irreflexive(s[i].0);
        }
    }
}

/// The record that owns a directory most specifically is its resolution.
proof fn lemma_best_resolves(s: Seq<(Seq<char>, RecordView)>, dir: Seq<char>, i: int, p: Platform)
    requires
        best_among(s, i, dir, s.len() as int, p),
    ensures
        resolution(s, dir, p) == Some(i),
{
    let k = choose|k: int| best_among(s, k, dir, s.len() as int, p);
    lemma_best_unique(s, dir, i, k, p);
}

/// One more record looked at: the best so far stays best unless the new one
/// owns `dir` and outranks it.
proof fn lemma_best_extend(s: Seq<(Seq<char>, RecordView)>, dir: Seq<char>, b: int, n: int, p: Platform)
    requires
        names_unique(s),
        best_among(s, b, dir, n, p),
        n < s.len(),
    ensures
        owns(s, n, dir, p) && outranks(s, n, b) ==> best_among(s, n, dir, n + 1, p),
        !(owns(s, n, dir, p) && outranks(s, n, b)) ==> best_among(s, b, dir, n + 1, p),
{
    if owns(s, n, dir, p) {
        if outranks(s, n, b) {
            assert forall|j: int| 0 <= j < n + 1 && j != n && owns(s, j, dir, p) implies outranks(
                s,
                n,
                j,
            ) by {
                if j != b {
                    assert(outranks(s, b, j));
                    if s[n].1.path.len() == s[j].1.path.len() {
                        lemma_precedes_transitive(s[n].0, s[b].0, s[j].0);
                    }
                }
            }
        } else {
            assert(s[n].0 != s[b].0);
            lemma_precedes_total(s[n].0, s[b].0);
        }
    }
}

/// Where some record among the first `n` owns `dir`, one of them owns it
/// most specifically.
proof fn lemma_best_exists(s: Seq<(Seq<char>, RecordView)>, dir: Seq<char>, n: int, r: int, p: Platform)
    requires
        names_unique(s),
        0 <= r < n <= s.len(),
        owns(s, r, dir, p),
    ensures
        exists|i: int| best_among(s, i, dir, n, p),
    decreases n,
{
    if r == n - 1 && !(exists|k: int| 0 <= k < n - 1 && owns(s, k, dir, p)) {
        assert(best_among(s, r, dir, n, p));
    } else {
        let k = if r < n - 1 {
            r
        } else {
            choose|k: int| 0 <= k < n - 1 && owns(s, k, dir, p)
        };
        let m = n - 1;
        lemma_best_exists(s, dir, m, k, p);
        let b = choose|i: int| best_among(s, i, dir, m, p);
        lemma_best_extend(s, dir, b, m, p);
    }
}

/// Every directory that lies within a registered root resolves, to a record
/// whose root contains it and is at least as deep; when that root is strictly
/// the deepest of those containing the directory, to that very record.
pub proof fn lemma_owner_resolves(s: Seq<(Seq<char>, RecordView)>, dir: Seq<char>, r: int, p: Platform)
    requires
        names_unique(s),
        0 <= r < s.len(),
        descends_from(dir, s[r].1.path, p),
    ensures
        resolution(s, dir, p) is Some,
        owns(s, resolution(s, dir, p)->0, dir, p),
        s[resolution(s, dir, p)->0].1.path.len() >= s[r].1.path.len(),
        (forall|j: int|
            0 <= j < s.len() && j != r && descends_from(dir, s[j].1.path, p) ==> s[j].1.path.len()
                < s[r].1.path.len()) ==> resolution(s, dir, p) == Some(r),
{
    lemma_best_exists(s, dir, s.len() as int, r, p);
    let i = choose|i: int| best_among(s, i, dir, s.len() as int, p);
    lemma_best_resolves(s, dir, i, p);
    if i != r {
        assert(outranks(s, i, r));
    }
    if forall|j: int|
        0 <= j < s.len() && j != r && descends_from(dir, s[j].1.path, p) ==> s[j].1.path.len()
            < s[r].1.path.len() {
        assert(best_among(s, r, dir, s.len() as int, p));
        lemma_best_resolves(s, dir, r, p);
    }
}

/// A directory within no registered root resolves to nothing.
pub proof fn lemma_outsider_unresolved(s: Seq<(Seq<char>, RecordView)>, dir: Seq<char>, p: Platform)
    requires
        forall|j: int| 0 <= j < s.len() ==> !descends_from(dir, s[j].1.path, p),
    ensures
        resolution(s, dir, p) is None,
{
}

/// Whether `a` comes before `b` in the order `precedes` describes.
pub fn text_precedes(a: &str, b: &str) -> (r: bool)
    ensures
        r == precedes(a@, b@),
{
    let alen = a.unicode_len();
    let blen = b.unicode_len();
    let mut i: usize = 0;
    assert(a@.skip(0) =~= a@ && b@.skip(0) =~= b@);
    while i < alen && i < blen
        invariant
            alen == a@.len(),
            blen == b@.len(),
            i <= alen && i <= blen,
            precedes(a@, b@) == precedes(a@.skip(i as int), b@.skip(i as int)),
        decreases alen - i,
    {
        let ca = a.get_char(i);
        let cb = b.get_char(i);
        assert(a@.skip(i as int)[0] == ca && b@.skip(i as int)[0] == cb);
        if ca != cb {
            return ca < cb;
        }
        assert(a@.skip(i as int).drop_first() =~= a@.skip(i + 1));
        assert(b@.skip(i as int).drop_first() =~= b@.skip(i + 1));
        i = i + 1;
    }
    i == alen && i < blen
}

impl ProjectsDb {
    /// Finds the registered project that owns `dir`: among the records whose
    /// root contains `dir` on component boundaries, the one with the deepest
    /// root, ties going to the name that comes first.
    pub fn resolve(&self, dir: &str, p: Platform) -> (r: Option<usize>)
        requires
            self.wf(),
        ensures
            r is None ==> resolution(self@, dir@, p) is None,
            r matches Some(i) ==> resolution(self@, dir@, p) == Some(i as int),
    {
        let n = self.len();
        let mut best: Option<usize> = None;
        let mut best_len: usize = 0;
        let mut i: usize = 0;
        while i < n
            invariant
                n == self@.len(),
                self.wf(),
                i <= n,
                best is None ==> forall|j: int| 0 <= j < i ==> !owns(self@, j, dir@, p),
                best matches Some(b) ==> best_among(self@, b as int, dir@, i as int, p) && best_len
                    == self@[b as int].1.path.len(),
            decreases n - i,
        {
            let e = self.entry(i);
            let root = e.info.project_path.as_str();
            if is_within(dir, root, p) {
                let len = root.unicode_len();
                match best {
                    None => {
                        best = Some(i);
                        best_len = len;
                    },
                    Some(b) => {
                        proof {
                            lemma_best_extend(self@, dir@, b as int, i as int, p);
                        }
                        let better = len > best_len || (len == best_len && text_precedes(
                            e.name.as_str(),
                            self.entry(b).name.as_str(),
                        ));
                        if better {
                            best = Some(i);
                            best_len = len;
                        }
                    },
                }
            } else {
                proof {
                    if let Some(b) = best {
                        lemma_best_extend(self@, dir@, b as int, i as int, p);
                    }
                }
            }
            i = i + 1;
        }
        proof {
            if let Some(b) = best {
                lemma_best_resolves(self@, dir@, b as int, p);
            }
        }
        best
    }
}

} // verus!
