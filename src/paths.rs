//! Unix path algebra over strings: absoluteness, joining, search-path lists.

use vstd::prelude::*;

verus! {

/// The character that separates path components.
pub open spec fn sep() -> char {
    '/'
}

/// A path is absolute when it starts at the root directory.
pub open spec fn is_absolute_spec(p: Seq<char>) -> bool {
    p.len() > 0 && p[0] == sep()
}

/// Joining `p` onto `root`: an absolute `p` replaces the root; otherwise one
/// separator is put between the two unless the root is empty or already ends
/// with one.
pub open spec fn joined(root: Seq<char>, p: Seq<char>) -> Seq<char> {
    if is_absolute_spec(p) {
        p
    } else if root.len() == 0 || root.last() == sep() {
        root + p
    } else {
        root + seq![sep()] + p
    }
}

/// Returns whether `p` is absolute.
pub fn is_absolute(p: &str) -> (r: bool)
    ensures
        r == is_absolute_spec(p@),
{
    let n = p.unicode_len();
    n > 0 && p.get_char(0) == '/'
}

/// Joins `p` onto `root` with the rule of [`joined`].
pub fn join_path(root: &str, p: &str) -> (r: String)
    ensures
        r@ == joined(root@, p@),
{
    if is_absolute(p) {
        return p.to_owned();
    }
    let n = root.unicode_len();
    let mut out = root.to_owned();
    if n == 0 || root.get_char(n - 1) == '/' {
        out.append(p);
    } else {
        proof {
            reveal_strlit("/");
            assert("/"@ =~= seq![sep()]);
        }
        out.append("/");
        out.append(p);
    }
    out
}

/// Resolves a configured entry against the installation root: an absolute
/// entry stands as it is, a relative one is taken under `root`.
pub fn resolve_path(root: &str, rel_or_abs: &str) -> (r: String)
    ensures
        r@ == joined(root@, rel_or_abs@),
        is_absolute_spec(rel_or_abs@) ==> r@ == rel_or_abs@,
{
    if is_absolute(rel_or_abs) {
        rel_or_abs.to_owned()
    } else {
        join_path(root, rel_or_abs)
    }
}

/// The views of a list of strings.
pub open spec fn views(v: Seq<String>) -> Seq<Seq<char>> {
    v.map_values(|s: String| s@)
}

/// Resolves each entry against `root`, keeping their order.
pub fn resolve_paths(root: &str, entries: &Vec<String>) -> (r: Vec<String>)
    ensures
        r@.len() == entries@.len(),
        forall|i: int| 0 <= i < r@.len() ==> #[trigger] r@[i]@ == joined(root@, entries@[i]@),
{
    let mut out: Vec<String> = Vec::new();
    let mut i: usize = 0;
    while i < entries.len()
        invariant
            i <= entries@.len(),
            out@.len() == i,
            forall|k: int| 0 <= k < i ==> #[trigger] out@[k]@ == joined(root@, entries@[k]@),
        decreases entries@.len() - i,
    {
        out.push(resolve_path(root, entries[i].as_str()));
        i = i + 1;
    }
    out
}

/// Resolving twice against an absolute root gives the same path as resolving
/// once, and an absolute entry ignores the root entirely.
pub proof fn lemma_resolve_round_trip(root: Seq<char>, p: Seq<char>)
    ensures
        is_absolute_spec(root) ==> joined(root, joined(root, p)) == joined(root, p),
        is_absolute_spec(root) ==> is_absolute_spec(joined(root, p)),
        !is_absolute_spec(p) && root.len() > 0 && root.last() != sep() ==> joined(root, p)
            == root + seq![sep()] + p,
        is_absolute_spec(p) ==> forall|other: Seq<char>| #[trigger] joined(other, p) == p,
{
    if is_absolute_spec(root) && !is_absolute_spec(p) {
        let j = joined(root, p);
        assert(j[0] == root[0]);
    }
}

/// The name of the directory whose entries the runtime's site mechanism
/// processes.
pub open spec fn site_dir_name() -> Seq<char> {
    seq!['s', 'i', 't', 'e', '-', 'p', 'a', 'c', 'k', 'a', 'g', 'e', 's']
}

/// `p` names a site directory: its last component is `site-packages`.
pub open spec fn is_site_dir_spec(p: Seq<char>) -> bool {
    let n = site_dir_name().len();
    &&& p.len() >= n
    &&& p.subrange(p.len() - n, p.len() as int) == site_dir_name()
    &&& (p.len() == n || p[p.len() - n - 1] == sep())
}

/// Returns whether the last component of `p` is `site-packages`.
pub fn is_site_dir(p: &str) -> (r: bool)
    ensures
        r == is_site_dir_spec(p@),
{
    let name = "site-packages";
    proof {
        reveal_strlit("site-packages");
        assert(name@ =~= site_dir_name());
    }
    let n = name.unicode_len();
    let len = p.unicode_len();
    if len < n {
        return false;
    }
    let off = len - n;
    let mut i: usize = 0;
    while i < n
        invariant
            n == site_dir_name().len(),
            name@ == site_dir_name(),
            len == p@.len(),
            off + n == len,
            i <= n,
            forall|k: int| 0 <= k < i ==> p@[off + k] == site_dir_name()[k],
        decreases n - i,
    {
        if p.get_char(off + i) != name.get_char(i) {
            proof {
                let sub = p@.subrange(off as int, len as int);
                assert(sub[i as int] != site_dir_name()[i as int]);
            }
            return false;
        }
        i = i + 1;
    }
    assert(p@.subrange(off as int, len as int) =~= site_dir_name());
    off == 0 || p.get_char(off - 1) == '/'
}

/// The entries of `ps` that name site directories, in their order.
pub open spec fn site_dirs_of(ps: Seq<Seq<char>>) -> Seq<Seq<char>> {
    ps.filter(|p: Seq<char>| is_site_dir_spec(p))
}

/// Picks the site directories out of a search path, keeping their order.
pub fn site_dirs(paths: &Vec<String>) -> (r: Vec<String>)
    ensures
        views(r@) == site_dirs_of(views(paths@)),
{
    let mut out: Vec<String> = Vec::new();
    let mut i: usize = 0;
    while i < paths.len()
        invariant
            i <= paths@.len(),
            views(out@) == site_dirs_of(views(paths@).subrange(0, i as int)),
        decreases paths@.len() - i,
    {
        proof {
            let pre = views(paths@).subrange(0, i as int);
            let next = views(paths@).subrange(0, i + 1);
            assert(next.drop_last() =~= pre);
            assert(next.last() == paths@[i as int]@);
            reveal(Seq::filter);
        }
        let ghost old_out = out@;
        if is_site_dir(paths[i].as_str()) {
            out.push(paths[i].clone());
            proof {
                assert(views(out@) =~= views(old_out).push(paths@[i as int]@));
            }
        }
        i = i + 1;
    }
    assert(views(paths@).subrange(0, paths@.len() as int) =~= views(paths@));
    out
}

/// The character that separates entries of a search-path list.
pub open spec fn list_sep() -> char {
    ':'
}

/// The entries joined into one search-path list, separated by [`list_sep`].
pub open spec fn search_path_text(ps: Seq<Seq<char>>) -> Seq<char>
    decreases ps.len(),
{
    if ps.len() == 0 {
        seq![]
    } else if ps.len() == 1 {
        ps[0]
    } else {
        search_path_text(ps.drop_last()) + seq![list_sep()] + ps.last()
    }
}

/// Some entry holds the list separator, so no list can carry it.
pub open spec fn holds_list_sep(ps: Seq<Seq<char>>) -> bool {
    exists|i: int, j: int| 0 <= i < ps.len() && 0 <= j < ps[i].len() && #[trigger] ps[i][j] == list_sep()
}

/// Returns whether `c` occurs in `s`.
pub fn contains_char(s: &str, c: char) -> (r: bool)
    ensures
        r == exists|j: int| 0 <= j < s@.len() && s@[j] == c,
{
    let n = s.unicode_len();
    let mut i: usize = 0;
    while i < n
        invariant
            n == s@.len(),
            i <= n,
            forall|k: int| 0 <= k < i ==> s@[k] != c,
        decreases n - i,
    {
        if s.get_char(i) == c {
            return true;
        }
        i = i + 1;
    }
    false
}

/// Joins the paths into one search-path list; `None` when an entry holds the
/// separator and so cannot be carried by such a list.
pub fn join_search_path(paths: &Vec<String>) -> (r: Option<String>)
    ensures
        r is None <==> holds_list_sep(views(paths@)),
        r matches Some(t) ==> t@ == search_path_text(views(paths@)),
{
    let ghost ps = views(paths@);
    let mut out = String::new();
    let mut i: usize = 0;
    while i < paths.len()
        invariant
            ps == views(paths@),
            i <= paths@.len(),
            out@ == search_path_text(ps.subrange(0, i as int)),
            !holds_list_sep(ps.subrange(0, i as int)),
        decreases paths@.len() - i,
    {
        let entry = paths[i].as_str();
        if contains_char(entry, ':') {
            proof {
                let j = choose|j: int| 0 <= j < entry@.len() && entry@[j] == list_sep();
                assert(ps[i as int][j] == list_sep());
            }
            return None;
        }
        proof {
            let pre = ps.subrange(0, i as int);
            let next = ps.subrange(0, i + 1);
            assert(next.drop_last() =~= pre);
            assert(!holds_list_sep(next)) by {
                if holds_list_sep(next) {
                    let (a, b) = choose|a: int, b: int|
                        0 <= a < next.len() && 0 <= b < next[a].len() && #[trigger] next[a][b]
                            == list_sep();
                    if a < i {
                        assert(pre[a][b] == list_sep());
                    }
                }
            }
        }
        if i > 0 {
            proof {
                reveal_strlit(":");
                assert(":"@ =~= seq![list_sep()]);
            }
            out.append(":");
        }
        out.append(entry);
        i = i + 1;
    }
    assert(ps.subrange(0, paths@.len() as int) =~= ps);
    Some(out)
}

} // verus!
