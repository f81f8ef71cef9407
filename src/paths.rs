use vstd::prelude::*;

verus! {

/// The operating-system family whose conventions the commands follow.
#[derive(Clone, Copy, Debug, PartialEq, Eq, Structural)]
pub enum Platform {
    Unix,
    MacOs,
    Windows,
}

/// Whether `c` separates path components on the platform: `/` everywhere,
/// and a backslash on Windows only (elsewhere it is an ordinary name character).
pub open spec fn is_separator(c: char, p: Platform) -> bool {
    c == '/' || (p == Platform::Windows && c == '\\')
}

fn separates(c: char, p: Platform) -> (r: bool)
    ensures
        r == is_separator(c, p),
{
    c == '/' || (p == Platform::Windows && c == '\\')
}

/// `dir` is `root` itself or lies below it, split on whole path components
/// of the platform: "/foo/bar" lies below "/foo" but not below "/fo".
pub open spec fn descends_from(dir: Seq<char>, root: Seq<char>, p: Platform) -> bool {
    &&& 0 < root.len() <= dir.len()
    &&& dir.take(root.len() as int) == root
    &&& (dir.len() == root.len() || is_separator(dir[root.len() as int], p) || is_separator(
        root.last(),
        p,
    ))
}

/// The four characters of the Windows verbatim prefix `\\?\`.
pub open spec fn verbatim_prefix() -> Seq<char> {
    seq!['\\', '\\', '?', '\\']
}

pub open spec fn starts_verbatim(s: Seq<char>) -> bool {
    s.len() >= 4 && s.take(4) == verbatim_prefix()
}

/// `s` with every leading verbatim prefix taken off.
pub open spec fn strip_verbatim(s: Seq<char>) -> Seq<char>
    decreases s.len(),
{
    if starts_verbatim(s) {
        strip_verbatim(s.skip(4))
    } else {
        s
    }
}

/// The canonical form of a directory string on a platform.
pub open spec fn cleaned(path: Seq<char>, platform: Platform) -> Seq<char> {
    if platform == Platform::Windows {
        strip_verbatim(path)
    } else {
        path
    }
}

fn has_verbatim_at(s: &str, len: usize, i: usize) -> (r: bool)
    requires
        len == s@.len(),
        i <= len,
    ensures
        r == starts_verbatim(s@.skip(i as int)),
{
    if len - i < 4 {
        return false;
    }
    let r = s.get_char(i) == '\\' && s.get_char(i + 1) == '\\' && s.get_char(i + 2) == '?'
        && s.get_char(i + 3) == '\\';
    assert(r == (s@.skip(i as int).take(4) =~= verbatim_prefix()));
    r
}

/// Canonicalizes a directory string for comparison with registered roots:
/// on Windows the verbatim prefix `\\?\` is taken off the front.
pub fn clean_path(path: &str, platform: Platform) -> (r: String)
    ensures
        r@ == cleaned(path@, platform),
{
    if platform != Platform::Windows {
        return path.to_owned();
    }
    let len = path.unicode_len();
    let mut i: usize = 0;
    assert(path@.skip(0) =~= path@);
    while has_verbatim_at(path, len, i)
        invariant
            len == path@.len(),
            i <= len,
            strip_verbatim(path@) == strip_verbatim(path@.skip(i as int)),
        decreases len - i,
    {
        assert(path@.skip(i as int).skip(4) =~= path@.skip(i + 4));
        i = i + 4;
    }
    assert(path@.subrange(i as int, len as int) =~= path@.skip(i as int));
    path.substring_char(i, len).to_owned()
}

/// Whether `dir` is `root` or a directory below it, on component boundaries.
pub fn is_within(dir: &str, root: &str, p: Platform) -> (r: bool)
    ensures
        r == descends_from(dir@, root@, p),
{
    let dlen = dir.unicode_len();
    let rlen = root.unicode_len();
    if rlen == 0 || rlen > dlen {
        return false;
    }
    let mut i: usize = 0;
    while i < rlen
        invariant
            dlen == dir@.len(),
            rlen == root@.len(),
            0 < rlen <= dlen,
            i <= rlen,
            dir@.take(i as int) == root@.take(i as int),
        decreases rlen - i,
    {
        if dir.get_char(i) != root.get_char(i) {
            assert(dir@.take(rlen as int)[i as int] != root@[i as int]);
            return false;
        }
        assert(dir@.take(i + 1) =~= dir@.take(i as int).push(dir@[i as int]));
        assert(root@.take(i + 1) =~= root@.take(i as int).push(root@[i as int]));
        i = i + 1;
    }
    assert(root@.take(rlen as int) =~= root@);
    if dlen == rlen {
        return true;
    }
    let next = dir.get_char(rlen);
    let last = root.get_char(rlen - 1);
    separates(next, p) || separates(last, p)
}

/// The path of the entry file `main` of a project rooted at `root`:
/// an absolute `main` stands alone, a relative one is joined below the root.
pub open spec fn entry_path(root: Seq<char>, main: Seq<char>, p: Platform) -> Seq<char> {
    if main.len() > 0 && is_separator(main[0], p) {
        main
    } else if root.len() > 0 && is_separator(root.last(), p) {
        root + main
    } else {
        root + seq!['/'] + main
    }
}

/// Joins `main` below `root` as `entry_path` describes.
pub fn join_entry(root: &str, main: &str, p: Platform) -> (r: String)
    ensures
        r@ == entry_path(root@, main@, p),
{
    let mlen = main.unicode_len();
    if mlen > 0 {
        if separates(main.get_char(0), p) {
            return main.to_owned();
        }
    }
    let rlen = root.unicode_len();
    let mut r = root.to_owned();
    if rlen > 0 {
        if separates(root.get_char(rlen - 1), p) {
            r.append(main);
            return r;
        }
    }
    r.append("/");
    proof {
        reveal_strlit("/");
    }
    r.append(main);
    r
}

/// `dir` followed by a separator and `name`.
pub open spec fn child_path(dir: Seq<char>, name: Seq<char>) -> Seq<char> {
    dir + seq!['/'] + name
}

pub fn child(dir: &str, name: &str) -> (r: String)
    ensures
        r@ == child_path(dir@, name@),
{
    let mut r = dir.to_owned();
    r.append("/");
    proof {
        reveal_strlit("/");
    }
    r.append(name);
    r
}

pub open spec fn db_file_name() -> Seq<char> {
    "upm_projects.json"@
}

/// Where the registry file lies below the install directory.
pub fn db_path(install_dir: &str) -> (r: String)
    ensures
        r@ == child_path(install_dir@, db_file_name()),
{
    child(install_dir, "upm_projects.json")
}

} // verus!
