use vstd::prelude::*;
use crate::model::Command;

verus! {

/// The text in an argument template that stands for the project's path.
pub open spec fn placeholder() -> Seq<char> {
    "{path}"@
}

/// `s` with each occurrence of `pat`, read from left to right without
/// overlap, replaced by `rep`.
pub open spec fn replace_all(s: Seq<char>, pat: Seq<char>, rep: Seq<char>) -> Seq<char>
    decreases s.len(),
{
    if pat.len() == 0 || s.len() == 0 {
        s
    } else if pat.len() <= s.len() && s.subrange(0, pat.len() as int) == pat {
        rep + replace_all(s.subrange(pat.len() as int, s.len() as int), pat, rep)
    } else {
        seq![s[0]] + replace_all(s.subrange(1, s.len() as int), pat, rep)
    }
}

/// An argument template with the project's path put in for the placeholder.
pub open spec fn render(arg: Seq<char>, path: Seq<char>) -> Seq<char> {
    replace_all(arg, placeholder(), path)
}

/// `s` with each occurrence of the non-empty `pat` replaced by `rep`.
pub fn replace_text(s: &str, pat: &str, rep: &str) -> (r: String)
    requires
        pat@.len() > 0,
    ensures
        r@ == replace_all(s@, pat@, rep@),
{
    let n = s.unicode_len();
    let plen = pat.unicode_len();
    let pat_string = String::from_str(pat);
    let mut out = String::new();
    let mut i: usize = 0;
    assert(s@.subrange(0, n as int) =~= s@);
    while i < n
        invariant
            n == s@.len(),
            plen == pat@.len() > 0,
            pat_string@ == pat@,
            i <= n,
            out@ + replace_all(s@.subrange(i as int, n as int), pat@, rep@) == replace_all(
                s@,
                pat@,
                rep@,
            ),
        decreases n - i,
    {
        let ghost rest = s@.subrange(i as int, n as int);
        if plen <= n - i {
            let window = String::from_str(s.substring_char(i, i + plen));
            assert(window@ == rest.subrange(0, plen as int));
            if window == pat_string {
                assert(rest.subrange(plen as int, rest.len() as int) =~= s@.subrange(
                    (i + plen) as int,
                    n as int,
                ));
                assert(out@ + rep@ + replace_all(s@.subrange((i + plen) as int, n as int), pat@, rep@)
                    == out@ + (rep@ + replace_all(s@.subrange((i + plen) as int, n as int), pat@, rep@)));
                out.append(rep);
                i = i + plen;
                continue;
            }
        }
        let one = s.substring_char(i, i + 1);
        assert(one@ =~= seq![rest[0]]);
        assert(rest.subrange(1, rest.len() as int) =~= s@.subrange((i + 1) as int, n as int));
        assert(out@ + one@ + replace_all(s@.subrange((i + 1) as int, n as int), pat@, rep@) == out@
            + (one@ + replace_all(s@.subrange((i + 1) as int, n as int), pat@, rep@)));
        out.append(one);
        i = i + 1;
    }
    assert(s@.subrange(n as int, n as int).len() == 0);
    assert(out@ =~= out@ + replace_all(s@.subrange(n as int, n as int), pat@, rep@));
    out
}

/// The argument template `arg` with `path` put in for each placeholder.
pub fn render_argument(arg: &str, path: &str) -> (r: String)
    ensures
        r@ == render(arg@, path@),
{
    proof {
        reveal_strlit("{path}");
    }
    replace_text(arg, "{path}", path)
}

/// The arguments of `cmd`, each rendered against `path`.
pub fn render_arguments(cmd: &Command, path: &str) -> (r: Vec<String>)
    ensures
        r@.len() == cmd@.arguments.len(),
        forall|i: int| 0 <= i < r@.len() ==> (#[trigger] r@[i])@ == render(cmd@.arguments[i], path@),
{
    let mut r: Vec<String> = Vec::new();
    let mut i: usize = 0;
    while i < cmd.arguments.len()
        invariant
            i <= cmd.arguments@.len(),
            r@.len() == i,
            forall|j: int| 0 <= j < i ==> (#[trigger] r@[j])@ == render(cmd@.arguments[j], path@),
        decreases cmd.arguments@.len() - i,
    {
        r.push(render_argument(cmd.arguments[i].as_str(), path));
        i += 1;
    }
    r
}

} // verus!
