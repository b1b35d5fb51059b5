//! Turning a path argument of a built-in into the path it names.
use vstd::prelude::*;
use vstd::string::*;
use crate::text::{Delim, opt_string, opt_text, pieces, same_text, split_by, texts, has_char};

verus! {

/// Whether `a` names a path relative to the home directory: `~` or `~/...`.
pub open spec fn is_home_relative(a: Seq<char>) -> bool {
    a == "~"@ || (a.len() >= 2 && a[0] == '~' && a[1] == '/')
}

/// Whether `a` is taken as-is: it starts with `/` or `\`, or holds a `:`
/// (a drive letter).
pub open spec fn is_absolute(a: Seq<char>) -> bool {
    (a.len() > 0 && (a[0] == '/' || a[0] == '\\')) || a.contains(':')
}

/// `rest` below the directory `base`.
pub open spec fn join(base: Seq<char>, rest: Seq<char>) -> Seq<char> {
    if base.len() > 0 && base.last() == '/' {
        base + rest
    } else {
        base + "/"@ + rest
    }
}

/// The directories left after walking `segs` from the root: `.` stays,
/// `..` goes up (never above the root).
pub open spec fn walk(segs: Seq<Seq<char>>) -> Seq<Seq<char>>
    decreases segs.len(),
{
    if segs.len() == 0 {
        Seq::empty()
    } else {
        let st = walk(segs.drop_last());
        let g = segs.last();
        if g == "."@ {
            st
        } else if g == ".."@ {
            if st.len() > 0 {
                st.drop_last()
            } else {
                st
            }
        } else {
            st.push(g)
        }
    }
}

/// `/a/b/c` for the directories `a`, `b`, `c`.
pub open spec fn render(st: Seq<Seq<char>>) -> Seq<char>
    decreases st.len(),
{
    if st.len() == 0 {
        Seq::empty()
    } else {
        render(st.drop_last()) + "/"@ + st.last()
    }
}

/// A rooted path with `.`, `..` and repeated separators worked out; any
/// other path as it is.
pub open spec fn normalized(p: Seq<char>) -> Seq<char> {
    if p.len() > 0 && p[0] == '/' {
        let r = render(walk(pieces(p, Delim::Slash)));
        if r.len() == 0 {
            "/"@
        } else {
            r
        }
    } else {
        p
    }
}

/// The path that argument `arg` names, with the shell in `current` and
/// `home` the home directory if it is known. `None` when the argument needs
/// the home directory and it is not known.
pub open spec fn resolved(current: Seq<char>, arg: Seq<char>, home: Option<Seq<char>>) -> Option<
    Seq<char>,
> {
    if is_home_relative(arg) {
        match home {
            None => None,
            Some(h) => if arg == "~"@ {
                Some(h)
            } else {
                Some(join(h, arg.subrange(2, arg.len() as int)))
            },
        }
    } else if is_absolute(arg) {
        Some(arg)
    } else {
        Some(normalized(join(current, arg)))
    }
}

fn home_relative(a: &str) -> (r: bool)
    ensures
        r == is_home_relative(a@),
{
    if same_text(a, "~") {
        return true;
    }
    let n = a.unicode_len();
    n >= 2 && a.get_char(0) == '~' && a.get_char(1) == '/'
}

fn absolute(a: &str) -> (r: bool)
    ensures
        r == is_absolute(a@),
{
    let n = a.unicode_len();
    (n > 0 && (a.get_char(0) == '/' || a.get_char(0) == '\\')) || has_char(a, ':')
}

/// `rest` below the directory `base`.
pub fn join_path(base: &str, rest: &str) -> (r: String)
    ensures
        r@ == join(base@, rest@),
{
    let n = base.unicode_len();
    let mut out = base.to_owned();
    if !(n > 0 && base.get_char(n - 1) == '/') {
        out.append("/");
    }
    out.append(rest);
    proof {
        reveal_strlit("/");
    }
    out
}

/// Works out `.`, `..` and repeated separators of a rooted path.
pub fn normalize(p: &str) -> (r: String)
    ensures
        r@ == normalized(p@),
{
    let n = p.unicode_len();
    if !(n > 0 && p.get_char(0) == '/') {
        return p.to_owned();
    }
    let segs = split_by(p, Delim::Slash);
    let mut st: Vec<String> = Vec::new();
    let mut i: usize = 0;
    while i < segs.len()
        invariant
            i <= segs@.len(),
            texts(st@) == walk(texts(segs@).subrange(0, i as int)),
        decreases segs@.len() - i,
    {
        let g = segs[i].as_str();
        let ghost pre = texts(segs@).subrange(0, i + 1);
        assert(pre.drop_last() =~= texts(segs@).subrange(0, i as int));
        assert(pre.last() == g@);
        let ghost before = st@;
        if same_text(g, ".") {
        } else if same_text(g, "..") {
            if st.len() > 0 {
                st.pop();
                assert(texts(st@) =~= texts(before).drop_last());
            }
        } else {
            st.push(g.to_owned());
            assert(texts(st@) =~= texts(before).push(g@));
        }
        i = i + 1;
    }
    assert(texts(segs@).subrange(0, segs@.len() as int) =~= texts(segs@));
    let mut out = String::new();
    let mut k: usize = 0;
    while k < st.len()
        invariant
            k <= st@.len(),
            out@ == render(texts(st@).subrange(0, k as int)),
        decreases st@.len() - k,
    {
        let ghost pre = texts(st@).subrange(0, k + 1);
        assert(pre.drop_last() =~= texts(st@).subrange(0, k as int));
        out.append("/");
        out.append(st[k].as_str());
        k = k + 1;
    }
    assert(texts(st@).subrange(0, st@.len() as int) =~= texts(st@));
    if out.unicode_len() == 0 {
        return "/".to_owned();
    }
    out
}

/// The path that `arg` names, with the shell in `current`; `home` is the
/// home directory if it is known.
pub fn resolve_path(current: &str, arg: &str, home: Option<&str>) -> (r: Option<String>)
    ensures
        opt_string(r) == resolved(current@, arg@, opt_text(home)),
{
    if home_relative(arg) {
        match home {
            None => None,
            Some(h) => {
                if same_text(arg, "~") {
                    Some(h.to_owned())
                } else {
                    let n = arg.unicode_len();
                    Some(join_path(h, arg.substring_char(2, n)))
                }
            },
        }
    } else if absolute(arg) {
        Some(arg.to_owned())
    } else {
        let joined = join_path(current, arg);
        Some(normalize(joined.as_str()))
    }
}

/// Relies on `dirs::home_dir`: the current user's home directory, when the
/// host can tell it. Nothing is promised of the answer.
#[verifier::external_body]
fn home_directory() -> (r: Option<String>) {
    match dirs::home_dir() {
        Some(p) => Some(p.to_string_lossy().into_owned()),
        None => None,
    }
}

/// The path that `arg` names, with the shell in `current`, asking the host
/// for the home directory when the argument needs it. `None` only when the
/// home directory is needed and not known.
pub fn resolve(current: &str, arg: &str) -> (r: Option<String>)
    ensures
        !is_home_relative(arg@) ==> opt_string(r) == resolved(current@, arg@, None),
        is_home_relative(arg@) ==> (r is None || exists|h: Seq<char>|
            opt_string(r) == resolved(current@, arg@, Some(h))),
{
    if home_relative(arg) {
        match home_directory() {
            None => None,
            Some(h) => resolve_path(current, arg, Some(h.as_str())),
        }
    } else {
        resolve_path(current, arg, None)
    }
}

/// `~` names the home directory, `~/rest` the path `rest` below it, and an
/// absolute argument names itself, whatever the current directory.
pub proof fn lemma_resolution_rules(current: Seq<char>, home: Seq<char>, arg: Seq<char>)
    ensures
        resolved(current, "~"@, Some(home)) == Some(home),
        resolved(current, "~"@, None) is None,
        is_absolute(arg) && !is_home_relative(arg) ==> resolved(current, arg, Some(home)) == Some(
            arg,
        ),
        arg.len() >= 2 && arg[0] == '~' && arg[1] == '/' ==> resolved(current, arg, Some(home))
            == Some(join(home, arg.subrange(2, arg.len() as int))),
{
    reveal_strlit("~");
}

} // verus!
