//! Path arithmetic for the trash engine: extracting an entry name from a
//! path, joining a relative path onto the working directory, and building
//! the payload and sidecar locations inside the trash areas.

use vstd::prelude::*;

verus! {

/// Length of the prefix of `s` that remains once every trailing '/' strictly
/// before `end` has been stripped.
pub open spec fn strip_slashes_end(s: Seq<char>, end: int) -> int
    decreases end,
{
    if end <= 0 {
        0
    } else if s[end - 1] == '/' {
        strip_slashes_end(s, end - 1)
    } else {
        end
    }
}

/// Index of the last '/' strictly before `end`, or -1 if there is none.
pub open spec fn last_slash_before(s: Seq<char>, end: int) -> int
    decreases end,
{
    if end <= 0 {
        -1
    } else if s[end - 1] == '/' {
        end - 1
    } else {
        last_slash_before(s, end - 1)
    }
}

/// The final component of a path, with any trailing separators stripped:
/// the name under which an entry lives inside the content area.
pub open spec fn entry_name_spec(p: Seq<char>) -> Seq<char> {
    let end = strip_slashes_end(p, p.len() as int);
    p.subrange(last_slash_before(p, end) + 1, end)
}

/// A path joined onto a working directory: an absolute path stands alone,
/// anything else is appended to the directory with a separator.
pub open spec fn join_spec(cwd: Seq<char>, p: Seq<char>) -> Seq<char> {
    if p.len() > 0 && p[0] == '/' {
        p
    } else {
        cwd + seq!['/'] + p
    }
}

/// The location of the entry called `name` directly under `dir`.
pub open spec fn in_dir_spec(dir: Seq<char>, name: Seq<char>) -> Seq<char> {
    dir + seq!['/'] + name
}

/// The sidecar file name that pairs with the entry called `name`.
pub open spec fn sidecar_spec(name: Seq<char>) -> Seq<char> {
    name + ".drashinfo"@
}

/// The entry name of a path, as `entry_name_spec` describes it.
pub fn entry_name(path: &str) -> (r: String)
    ensures
        r@ == entry_name_spec(path@),
{
    let len = path.unicode_len();
    let mut end = len;
    while end > 0 && path.get_char(end - 1) == '/'
        invariant
            end <= len,
            len == path@.len(),
            strip_slashes_end(path@, len as int) == strip_slashes_end(path@, end as int),
        decreases end,
    {
        assert(strip_slashes_end(path@, end as int) == strip_slashes_end(path@, end - 1));
        end = end - 1;
    }
    assert(strip_slashes_end(path@, len as int) == end);

    let mut start = end;
    while start > 0 && path.get_char(start - 1) != '/'
        invariant
            start <= end <= len,
            len == path@.len(),
            last_slash_before(path@, end as int) == last_slash_before(path@, start as int),
        decreases start,
    {
        assert(last_slash_before(path@, start as int) == last_slash_before(path@, start - 1));
        start = start - 1;
    }
    assert(last_slash_before(path@, end as int) == if start == 0 { -1 } else { start - 1 });

    let part = path.substring_char(start, end);
    String::from_str(part)
}

/// The path joined onto the working directory, as `join_spec` describes it.
pub fn join_paths(cwd: &str, path: &str) -> (r: String)
    ensures
        r@ == join_spec(cwd@, path@),
{
    proof {
        reveal_strlit("/");
    }
    if path.unicode_len() > 0 && path.get_char(0) == '/' {
        String::from_str(path)
    } else {
        let mut out = String::from_str(cwd);
        out.append("/");
        out.append(path);
        assert(out@ =~= join_spec(cwd@, path@));
        out
    }
}

/// The location of `name` under `dir`, as `in_dir_spec` describes it.
pub fn in_dir(dir: &str, name: &str) -> (r: String)
    ensures
        r@ == in_dir_spec(dir@, name@),
{
    proof {
        reveal_strlit("/");
    }
    let mut out = String::from_str(dir);
    out.append("/");
    out.append(name);
    assert(out@ =~= in_dir_spec(dir@, name@));
    out
}

/// The sidecar file name for `name`, as `sidecar_spec` describes it.
pub fn sidecar_name(name: &str) -> (r: String)
    ensures
        r@ == sidecar_spec(name@),
{
    let mut out = String::from_str(name);
    out.append(".drashinfo");
    out
}

} // verus!
