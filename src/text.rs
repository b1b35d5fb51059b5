//! Character classes and splitting a line into pieces.
use vstd::prelude::*;
use vstd::string::*;

verus! {

/// What separates the pieces of a text: whitespace between the words of a
/// command line, `/` between the components of a path.
#[derive(Clone, Copy, Debug, PartialEq, Eq, Structural)]
pub enum Delim {
    Space,
    Slash,
}

/// Unicode `White_Space`, the class that `char::is_whitespace` tests.
pub open spec fn is_space_char(c: char) -> bool {
    let u = c as u32;
    (0x09 <= u && u <= 0x0d) || u == 0x20 || u == 0x85 || u == 0xa0 || u == 0x1680 || (0x2000
        <= u && u <= 0x200a) || u == 0x2028 || u == 0x2029 || u == 0x202f || u == 0x205f || u
        == 0x3000
}

pub open spec fn is_delim(d: Delim, c: char) -> bool {
    match d {
        Delim::Space => is_space_char(c),
        Delim::Slash => c == '/',
    }
}

/// The pieces finished so far, and the piece being read, after reading `s`
/// from left to right.
pub open spec fn scan(s: Seq<char>, d: Delim) -> (Seq<Seq<char>>, Seq<char>)
    decreases s.len(),
{
    if s.len() == 0 {
        (Seq::empty(), Seq::empty())
    } else {
        let (done, cur) = scan(s.drop_last(), d);
        let c = s.last();
        if is_delim(d, c) {
            if cur.len() > 0 {
                (done.push(cur), Seq::empty())
            } else {
                (done, cur)
            }
        } else {
            (done, cur.push(c))
        }
    }
}

/// The maximal runs of non-delimiter characters of `s`, in order.
pub open spec fn pieces(s: Seq<char>, d: Delim) -> Seq<Seq<char>> {
    let (done, cur) = scan(s, d);
    if cur.len() > 0 {
        done.push(cur)
    } else {
        done
    }
}

/// The texts a vector of strings holds.
pub open spec fn texts(v: Seq<String>) -> Seq<Seq<char>> {
    v.map_values(|t: String| t@)
}

/// The text of an optional string slice.
pub open spec fn opt_text(t: Option<&str>) -> Option<Seq<char>> {
    match t {
        Some(t) => Some(t@),
        None => None,
    }
}

/// The text of an optional string.
pub open spec fn opt_string(t: Option<String>) -> Option<Seq<char>> {
    match t {
        Some(t) => Some(t@),
        None => None,
    }
}

/// Number of whitespace characters at the start of `s`.
pub open spec fn lead(s: Seq<char>) -> nat
    decreases s.len(),
{
    if s.len() > 0 && is_space_char(s[0]) {
        1 + lead(s.drop_first())
    } else {
        0
    }
}

/// Number of whitespace characters at the end of `s`.
pub open spec fn trail(s: Seq<char>) -> nat
    decreases s.len(),
{
    if s.len() > 0 && is_space_char(s.last()) {
        1 + trail(s.drop_last())
    } else {
        0
    }
}

/// `s` without whitespace at either end.
pub open spec fn trimmed(s: Seq<char>) -> Seq<char> {
    if lead(s) >= s.len() {
        Seq::empty()
    } else {
        s.subrange(lead(s) as int, s.len() - trail(s))
    }
}

/// Whether two strings hold the same characters.
pub fn same_text(a: &str, b: &str) -> (r: bool)
    ensures
        r == (a@ == b@),
{
    let n = a.unicode_len();
    if n != b.unicode_len() {
        return false;
    }
    let mut i: usize = 0;
    while i < n
        invariant
            n == a@.len(),
            n == b@.len(),
            i <= n,
            a@.subrange(0, i as int) == b@.subrange(0, i as int),
        decreases n - i,
    {
        if a.get_char(i) != b.get_char(i) {
            assert(a@[i as int] != b@[i as int]);
            return false;
        }
        assert(a@.subrange(0, i + 1) == a@.subrange(0, i as int).push(a@[i as int]));
        assert(b@.subrange(0, i + 1) == b@.subrange(0, i as int).push(b@[i as int]));
        i = i + 1;
    }
    assert(a@ == a@.subrange(0, n as int));
    assert(b@ == b@.subrange(0, n as int));
    true
}

/// Whether `s` holds `c`.
pub fn has_char(s: &str, c: char) -> (r: bool)
    ensures
        r == s@.contains(c),
{
    let n = s.unicode_len();
    let mut i: usize = 0;
    while i < n
        invariant
            n == s@.len(),
            i <= n,
            forall|j: int| 0 <= j < i ==> s@[j] != c,
        decreases n - i,
    {
        if s.get_char(i) == c {
            return true;
        }
        i = i + 1;
    }
    false
}

/// Whether `c` is whitespace.
pub fn is_space(c: char) -> (r: bool)
    ensures
        r == is_space_char(c),
{
    let u = c as u32;
    (0x09 <= u && u <= 0x0d) || u == 0x20 || u == 0x85 || u == 0xa0 || u == 0x1680 || (0x2000
        <= u && u <= 0x200a) || u == 0x2028 || u == 0x2029 || u == 0x202f || u == 0x205f || u
        == 0x3000
}

fn delim_at(d: Delim, c: char) -> (r: bool)
    ensures
        r == is_delim(d, c),
{
    match d {
        Delim::Space => is_space(c),
        Delim::Slash => c == '/',
    }
}

/// Splits `s` into its pieces: the maximal runs of characters that are not
/// delimiters. Empty pieces are never produced.
pub fn split_by(s: &str, d: Delim) -> (r: Vec<String>)
    ensures
        texts(r@) == pieces(s@, d),
{
    let n = s.unicode_len();
    let mut out: Vec<String> = Vec::new();
    let mut start: usize = 0;
    let mut i: usize = 0;
    while i < n
        invariant
            n == s@.len(),
            start <= i <= n,
            texts(out@) == scan(s@.subrange(0, i as int), d).0,
            s@.subrange(start as int, i as int) == scan(s@.subrange(0, i as int), d).1,
        decreases n - i,
    {
        let c = s.get_char(i);
        let ghost pre = s@.subrange(0, i as int);
        assert(s@.subrange(0, i + 1).drop_last() == pre);
        if delim_at(d, c) {
            if start < i {
                let piece = s.substring_char(start, i).to_owned();
                let ghost before = out@;
                out.push(piece);
                assert(texts(out@) =~= texts(before).push(piece@));
            }
            i = i + 1;
            start = i;
        } else {
            assert(s@.subrange(start as int, i + 1) == s@.subrange(start as int, i as int).push(
                c,
            ));
            i = i + 1;
        }
    }
    assert(s@.subrange(0, n as int) == s@);
    if start < n {
        let piece = s.substring_char(start, n).to_owned();
        let ghost before = out@;
        out.push(piece);
        assert(texts(out@) =~= texts(before).push(piece@));
    }
    out
}

/// `s` without whitespace at either end.
pub fn trim_text(s: &str) -> (r: String)
    ensures
        r@ == trimmed(s@),
{
    let n = s.unicode_len();
    let mut a: usize = 0;
    assert(s@.subrange(0, n as int) == s@);
    while a < n && is_space(s.get_char(a))
        invariant
            n == s@.len(),
            a <= n,
            lead(s@) == a + lead(s@.subrange(a as int, n as int)),
        decreases n - a,
    {
        assert(s@.subrange(a as int, n as int).drop_first() == s@.subrange(a + 1, n as int));
        a = a + 1;
    }
    if a == n {
        assert(lead(s@) == n);
        return String::new();
    }
    assert(lead(s@) == a);
    let mut b: usize = n;
    assert(s@.subrange(0, n as int) == s@);
    while b > a + 1 && is_space(s.get_char(b - 1))
        invariant
            n == s@.len(),
            a < b <= n,
            !is_space_char(s@[a as int]),
            trail(s@) == (n - b) + trail(s@.subrange(0, b as int)),
        decreases b,
    {
        assert(s@.subrange(0, b as int).drop_last() == s@.subrange(0, b - 1));
        b = b - 1;
    }
    if b == a + 1 {
        assert(s@.subrange(0, b as int).last() == s@[a as int]);
    }
    assert(trail(s@) == n - b);
    s.substring_char(a, b).to_owned()
}

} // verus!
