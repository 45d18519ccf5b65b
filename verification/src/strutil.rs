//! Small verified string helpers shared across the library: joining path
//! segments, escaping spaces for shell consumption, substring search and
//! rendering an integer in decimal.

use vstd::prelude::*;

verus! {

/// Whether two strings hold the same characters.
pub(crate) fn str_eq(a: &str, b: &str) -> (r: bool)
    ensures
        r == (a@ == b@),
{
    let n: usize = a.unicode_len();
    let m: usize = b.unicode_len();
    if n != m {
        return false;
    }
    let mut i: usize = 0;
    while i < n
        invariant
            n == a@.len(),
            n == b@.len(),
            i <= n,
            forall|k: int| 0 <= k < i ==> a@[k] == b@[k],
        decreases n - i,
    {
        if a.get_char(i) != b.get_char(i) {
            return false;
        }
        i = i + 1;
    }
    proof {
        assert(a@ =~= b@);
    }
    true
}

/// Relies on std's `String::push`: appends exactly the given character.
#[verifier::external_body]
pub(crate) fn string_push(s: &mut String, c: char)
    ensures
        final(s)@ == old(s)@.push(c),
{
    s.push(c);
}

/// A string holding exactly the given characters.
pub fn string_from_chars(v: &Vec<char>) -> (r: String)
    ensures
        r@ == v@,
{
    let n: usize = v.len();
    let mut r: String = String::new();
    let mut i: usize = 0;
    while i < n
        invariant
            i <= n,
            n == v@.len(),
            r@ == v@.subrange(0, i as int),
        decreases n - i,
    {
        string_push(&mut r, v[i]);
        assert(r@ =~= v@.subrange(0, i + 1 as int));
        i = i + 1;
    }
    assert(r@ =~= v@);
    r
}

/// The characters of `s`, one per element.
pub fn chars_of(s: &str) -> (v: Vec<char>)
    ensures
        v@ == s@,
{
    let n: usize = s.unicode_len();
    let mut v: Vec<char> = Vec::new();
    let mut i: usize = 0;
    while i < n
        invariant
            i <= n,
            n == s@.len(),
            v@ == s@.subrange(0, i as int),
        decreases n - i,
    {
        v.push(s.get_char(i));
        assert(v@ =~= s@.subrange(0, i + 1 as int));
        i = i + 1;
    }
    assert(v@ =~= s@);
    v
}

/// How a path segment is appended to a directory path: with a `/` separator
/// unless the directory is empty or already ends in `/`.
pub open spec fn spec_path_join(dir: Seq<char>, name: Seq<char>) -> Seq<char> {
    if dir.len() == 0 {
        name
    } else if dir.last() == '/' {
        dir + name
    } else {
        dir + seq!['/'] + name
    }
}

/// Joins a relative name onto a directory path, inserting `/` when needed.
pub fn path_join(dir: &str, name: &str) -> (r: String)
    ensures
        r@ == spec_path_join(dir@, name@),
{
    let n: usize = dir.unicode_len();
    let mut r: String = dir.to_owned();
    if n == 0 {
        let out = name.to_owned();
        assert(out@ =~= spec_path_join(dir@, name@));
        return out;
    }
    if dir.get_char(n - 1) != '/' {
        string_push(&mut r, '/');
        assert(r@ =~= dir@ + seq!['/']);
    }
    let out = r.concat(name);
    assert(out@ =~= spec_path_join(dir@, name@));
    out
}

/// Space-escaping for shell text: every space is preceded by a backslash;
/// all other characters are kept as they are.
pub open spec fn spec_escape_shell_path(s: Seq<char>) -> Seq<char>
    decreases s.len(),
{
    if s.len() == 0 {
        Seq::empty()
    } else {
        (if s.first() == ' ' {
            seq!['\\', ' ']
        } else {
            seq![s.first()]
        }) + spec_escape_shell_path(s.drop_first())
    }
}

/// Escapes a filesystem path for interpolation into shell source text by
/// backslash-escaping every space.
pub fn escape_shell_path(path: &str) -> (r: String)
    ensures
        r@ == spec_escape_shell_path(path@),
{
    let n: usize = path.unicode_len();
    let mut r: String = String::new();
    let mut i: usize = 0;
    assert(path@.skip(0) =~= path@);
    while i < n
        invariant
            i <= n,
            n == path@.len(),
            spec_escape_shell_path(path@) == r@ + spec_escape_shell_path(path@.skip(i as int)),
        decreases n - i,
    {
        let c = path.get_char(i);
        proof {
            let rest = path@.skip(i as int);
            assert(rest.len() > 0);
            assert(rest.first() == path@[i as int]);
            assert(rest.drop_first() =~= path@.skip(i + 1 as int));
            assert(spec_escape_shell_path(rest) == (if rest.first() == ' ' {
                seq!['\\', ' ']
            } else {
                seq![rest.first()]
            }) + spec_escape_shell_path(path@.skip(i + 1 as int)));
        }
        if c == ' ' {
            string_push(&mut r, '\\');
            string_push(&mut r, ' ');
        } else {
            string_push(&mut r, c);
        }
        assert(spec_escape_shell_path(path@) == r@ + spec_escape_shell_path(
            path@.skip(i + 1 as int),
        ));
        i = i + 1;
    }
    assert(path@.skip(n as int) =~= Seq::<char>::empty());
    assert(r@ =~= spec_escape_shell_path(path@));
    r
}

/// The pattern `p` occurs in `s` starting at position `i`.
pub open spec fn spec_sub_at(s: Seq<char>, p: Seq<char>, i: int) -> bool {
    &&& 0 <= i
    &&& i + p.len() <= s.len()
    &&& s.subrange(i, i + p.len() as int) == p
}

/// The pattern `p` occurs somewhere in `s`.
pub open spec fn spec_contains_sub(s: Seq<char>, p: Seq<char>) -> bool {
    exists|i: int| spec_sub_at(s, p, i)
}

/// Whether the character sequence `pat` occurs as a contiguous run inside `s`.
pub fn contains_sub(s: &str, pat: &str) -> (r: bool)
    ensures
        r == spec_contains_sub(s@, pat@),
{
    let sv: Vec<char> = chars_of(s);
    let pv: Vec<char> = chars_of(pat);
    let n: usize = sv.len();
    let m: usize = pv.len();
    if m > n {
        assert(forall|i: int| !spec_sub_at(s@, pat@, i));
        return false;
    }
    if m == 0 {
        assert(s@.subrange(0, 0) =~= pat@);
        assert(spec_sub_at(s@, pat@, 0));
        return true;
    }
    let mut i: usize = 0;
    while i <= n - m
        invariant
            0 < m <= n,
            n == s@.len(),
            m == pat@.len(),
            sv@ == s@,
            pv@ == pat@,
            i <= n - m + 1,
            forall|k: int| 0 <= k < i ==> !spec_sub_at(s@, pat@, k),
        decreases n - i,
    {
        let mut j: usize = 0;
        let mut all_match: bool = true;
        while j < m
            invariant
                m <= n,
                n == s@.len(),
                m == pat@.len(),
                sv@ == s@,
                pv@ == pat@,
                i + m <= n,
                j <= m,
                all_match ==> forall|l: int| 0 <= l < j ==> s@[i + l] == pat@[l],
                !all_match ==> !spec_sub_at(s@, pat@, i as int),
            decreases m - j,
        {
            if sv[i + j] != pv[j] {
                proof {
                    if spec_sub_at(s@, pat@, i as int) {
                        assert(s@.subrange(i as int, i + m as int)[j as int] == pat@[j as int]);
                        assert(false);
                    }
                }
                all_match = false;
                j = m;
            } else {
                j = j + 1;
            }
        }
        if all_match {
            assert(s@.subrange(i as int, i + m as int) =~= pat@);
            assert(spec_sub_at(s@, pat@, i as int));
            return true;
        }
        i = i + 1;
    }
    proof {
        assert forall|k: int| !spec_sub_at(s@, pat@, k) by {
            if 0 <= k <= n - m {
                assert(!spec_sub_at(s@, pat@, k));
            }
        }
    }
    false
}

/// The decimal digit characters in order.
pub open spec fn spec_dec_digit(d: int) -> char {
    seq!['0', '1', '2', '3', '4', '5', '6', '7', '8', '9'][d]
}

/// The decimal rendering of a non-negative integer, most significant digit
/// first, with no leading zeros (`0` renders as "0").
pub open spec fn spec_dec(n: int) -> Seq<char>
    decreases n,
{
    if n < 10 {
        seq![spec_dec_digit(n)]
    } else {
        spec_dec(n / 10).push(spec_dec_digit(n % 10))
    }
}

/// The character for one decimal digit.
fn dec_digit(d: u64) -> (c: char)
    requires
        d < 10,
    ensures
        c == spec_dec_digit(d as int),
{
    match d {
        0 => '0',
        1 => '1',
        2 => '2',
        3 => '3',
        4 => '4',
        5 => '5',
        6 => '6',
        7 => '7',
        8 => '8',
        _ => '9',
    }
}

fn push_dec(n: u64, out: &mut String)
    ensures
        final(out)@ == old(out)@ + spec_dec(n as int),
    decreases n,
{
    if n >= 10 {
        push_dec(n / 10, out);
    }
    string_push(out, dec_digit(n % 10));
    proof {
        if n < 10 {
            assert(final(out)@ =~= old(out)@ + spec_dec(n as int));
        } else {
            assert(final(out)@ =~= old(out)@ + spec_dec(n as int));
        }
    }
}

/// Renders an unsigned integer in decimal.
pub fn u64_to_dec(n: u64) -> (r: String)
    ensures
        r@ == spec_dec(n as int),
{
    let mut r: String = String::new();
    push_dec(n, &mut r);
    assert(r@ =~= spec_dec(n as int));
    r
}

} // verus!
