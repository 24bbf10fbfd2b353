use vstd::prelude::*;

verus! {

/// The position of the last '/' of `p`, or -1 where it has none.
pub open spec fn last_slash(p: Seq<char>) -> int
    decreases p.len(),
{
    if p.len() == 0 {
        -1
    } else if p.last() == '/' {
        p.len() - 1
    } else {
        last_slash(p.drop_last())
    }
}

/// The name of the last component of path `p`: its final segment, where
/// empty segments and "." are passed over; none where the path is empty, is
/// the root, or ends in "..".
pub open spec fn file_name(p: Seq<char>) -> Option<Seq<char>>
    decreases p.len() via file_name_decreases
{
    if p.len() == 0 {
        None
    } else {
        let s = last_slash(p);
        let seg = p.subrange(s + 1, p.len() as int);
        if seg == seq!['.', '.'] {
            None
        } else if seg.len() == 0 || seg == seq!['.'] {
            if s < 0 {
                None
            } else {
                file_name(p.subrange(0, s))
            }
        } else {
            Some(seg)
        }
    }
}

/// `last_slash` is a position of `p`, or -1.
pub proof fn lemma_last_slash_bounds(p: Seq<char>)
    ensures
        -1 <= last_slash(p) < p.len(),
    decreases p.len(),
{
    if p.len() > 0 && p.last() != '/' {
        lemma_last_slash_bounds(p.drop_last());
    }
}

#[via_fn]
proof fn file_name_decreases(p: Seq<char>) {
    lemma_last_slash_bounds(p);
}

/// Path `name` under directory `base`, with one separator between them.
pub open spec fn join(base: Seq<char>, name: Seq<char>) -> Seq<char> {
    if base.len() == 0 || base.last() == '/' {
        base + name
    } else {
        base + seq!['/'] + name
    }
}

/// The directory inside a project that holds its marker file.
pub open spec fn marker_dir(path: Seq<char>) -> Seq<char> {
    join(path, ".project_manager"@)
}

/// The marker file of a project: it records the project's type.
pub open spec fn marker_file(path: Seq<char>) -> Seq<char> {
    join(marker_dir(path), "project.json"@)
}

proof fn lemma_last_slash(p: Seq<char>, j: int)
    requires
        0 <= j <= p.len(),
        j == 0 || p[j - 1] == '/',
        forall|k: int| j <= k < p.len() ==> p[k] != '/',
    ensures
        last_slash(p) == j - 1,
    decreases p.len(),
{
    if p.len() > 0 && j < p.len() {
        lemma_last_slash(p.drop_last(), j);
    }
}

/// The position of the last '/' among the first `end` characters of `p`.
fn find_last_slash(p: &str, end: usize) -> (r: Option<usize>)
    requires
        end <= p@.len(),
    ensures
        match r {
            Some(i) => last_slash(p@.subrange(0, end as int)) == i && i < end,
            None => last_slash(p@.subrange(0, end as int)) == -1,
        },
{
    let mut j: usize = end;
    while j > 0
        invariant
            j <= end <= p@.len(),
            forall|k: int| j <= k < end ==> p@[k] != '/',
        decreases j,
    {
        if p.get_char(j - 1) == '/' {
            proof {
                lemma_last_slash(p@.subrange(0, end as int), j as int);
            }
            return Some(j - 1);
        }
        j -= 1;
    }
    proof {
        lemma_last_slash(p@.subrange(0, end as int), 0);
    }
    None
}

/// The name of the last component of `path`, as `file_name` gives it.
pub fn path_file_name(path: &str) -> (r: Option<String>)
    ensures
        match r {
            Some(s) => file_name(path@) == Some(s@),
            None => file_name(path@) is None,
        },
{
    let n = path.unicode_len();
    let mut end: usize = n;
    assert(path@.subrange(0, n as int) =~= path@);
    while end > 0
        invariant
            end <= n == path@.len(),
            file_name(path@) == file_name(path@.subrange(0, end as int)),
        decreases end,
    {
        let ghost q = path@.subrange(0, end as int);
        let s = find_last_slash(path, end);
        let start: usize = match s {
            Some(i) => i + 1,
            None => 0,
        };
        let seg = path.substring_char(start, end);
        assert(seg@ == q.subrange(last_slash(q) + 1, q.len() as int));
        let seg_len = end - start;
        if seg_len == 2 && seg.get_char(0) == '.' && seg.get_char(1) == '.' {
            assert(seg@ =~= seq!['.', '.']);
            return None;
        }
        if seg_len == 0 || (seg_len == 1 && seg.get_char(0) == '.') {
            assert(seg_len == 1 ==> seg@ =~= seq!['.']);
            match s {
                Some(i) => {
                    assert(q.subrange(0, i as int) =~= path@.subrange(0, i as int));
                    end = i;
                },
                None => {
                    return None;
                },
            }
        } else {
            assert(seg@ != seq!['.', '.']);
            assert(seg@ != seq!['.']);
            return Some(String::from_str(seg));
        }
    }
    None
}

/// `name` under directory `base`, as `join` gives it.
pub fn join_path(base: &str, name: &str) -> (r: String)
    ensures
        r@ == join(base@, name@),
{
    let n = base.unicode_len();
    let r = String::from_str(base);
    if n == 0 || base.get_char(n - 1) == '/' {
        r.concat(name)
    } else {
        proof {
            reveal_strlit("/");
        }
        r.concat("/").concat(name)
    }
}

/// The directory that holds the marker file of the project at `path`.
pub fn marker_dir_path(path: &str) -> (r: String)
    ensures
        r@ == marker_dir(path@),
{
    join_path(path, ".project_manager")
}

/// The marker file of the project at `path`.
pub fn marker_file_path(path: &str) -> (r: String)
    ensures
        r@ == marker_file(path@),
{
    let dir = marker_dir_path(path);
    join_path(dir.as_str(), "project.json")
}

} // verus!
