//! Verified parsing of the process-listing text the statistics sampler
//! works on: the child lists printed by `pgrep -P <pid> -l` (one `pid name`
//! per line) and the `%cpu %mem` table printed by `ps`.
//!
//! Percentages are held in hundredths (a value of `250` is `2.50%`): the
//! number grammar is an optional run of digits, optionally followed by a
//! point and more digits, of which the first two contribute; anything else —
//! a sign, an exponent, a second point — does not parse, and a process whose
//! row does not parse contributes nothing, by the sampler's
//! partial-data-beats-no-data rule.

use vstd::prelude::*;

verus! {

/// The whitespace characters these listings can contain.
pub open spec fn spec_is_space(c: char) -> bool {
    c == ' ' || c == '\t' || c == '\n' || c == '\r'
}

/// `s` without its leading whitespace.
pub open spec fn spec_trim_start(s: Seq<char>) -> Seq<char>
    decreases s.len(),
{
    if s.len() > 0 && spec_is_space(s.first()) {
        spec_trim_start(s.drop_first())
    } else {
        s
    }
}

/// `s` without its trailing whitespace.
pub open spec fn spec_trim_end(s: Seq<char>) -> Seq<char>
    decreases s.len(),
{
    if s.len() > 0 && spec_is_space(s.last()) {
        spec_trim_end(s.drop_last())
    } else {
        s
    }
}

/// `s` without leading and trailing whitespace.
pub open spec fn spec_trim(s: Seq<char>) -> Seq<char> {
    spec_trim_end(spec_trim_start(s))
}

/// Splitting at every occurrence of `sep`, keeping empty pieces, as std's
/// `split` does: the empty text yields one empty piece.
pub open spec fn spec_split(s: Seq<char>, sep: char) -> Seq<Seq<char>>
    decreases s.len(),
{
    if s.len() == 0 {
        seq![Seq::<char>::empty()]
    } else if s.first() == sep {
        seq![Seq::<char>::empty()] + spec_split(s.drop_first(), sep)
    } else {
        let rest = spec_split(s.drop_first(), sep);
        seq![seq![s.first()] + rest.first()] + rest.drop_first()
    }
}

/// A decimal digit.
pub open spec fn spec_is_digit(c: char) -> bool {
    '0' <= c && c <= '9'
}

/// The numeric value of one digit character.
pub open spec fn spec_digit_val(c: char) -> int {
    c as int - 48
}

/// Every character of `s` is a digit.
pub open spec fn spec_all_digits(s: Seq<char>) -> bool {
    forall|k: int| 0 <= k < s.len() ==> spec_is_digit(#[trigger] s[k])
}

/// The value of a digit string, most significant digit first.
pub open spec fn spec_digits_val(s: Seq<char>) -> int
    decreases s.len(),
{
    if s.len() == 0 {
        0
    } else {
        spec_digits_val(s.drop_last()) * 10 + spec_digit_val(s.last())
    }
}

proof fn lemma_digits_val_nonneg(s: Seq<char>)
    requires
        spec_all_digits(s),
    ensures
        spec_digits_val(s) >= 0,
    decreases s.len(),
{
    if s.len() > 0 {
        assert(spec_all_digits(s.drop_last()));
        lemma_digits_val_nonneg(s.drop_last());
    }
}

/// A digit string is worth at least any of its prefixes.
proof fn lemma_digits_val_prefix(s: Seq<char>, i: int)
    requires
        spec_all_digits(s),
        0 <= i <= s.len(),
    ensures
        spec_digits_val(s.take(i)) <= spec_digits_val(s),
    decreases s.len() - i,
{
    if i == s.len() {
        assert(s.take(i) =~= s);
    } else {
        assert(s.take(i + 1).drop_last() =~= s.take(i));
        assert(spec_all_digits(s.take(i)));
        lemma_digits_val_nonneg(s.take(i));
        assert(spec_digits_val(s.take(i + 1)) == spec_digits_val(s.take(i)) * 10 + spec_digit_val(
            s.take(i + 1).last(),
        ));
        lemma_digits_val_prefix(s, i + 1);
    }
}

/// Whether this character is whitespace.
fn is_space(c: char) -> (r: bool)
    ensures
        r == spec_is_space(c),
{
    c == ' ' || c == '\t' || c == '\n' || c == '\r'
}

/// Whether this character is a decimal digit.
fn is_digit(c: char) -> (r: bool)
    ensures
        r == spec_is_digit(c),
{
    c >= '0' && c <= '9'
}

/// The value of a digit character.
fn digit_val(c: char) -> (d: u64)
    requires
        spec_is_digit(c),
    ensures
        d == spec_digit_val(c),
        d <= 9,
{
    match c {
        '0' => 0,
        '1' => 1,
        '2' => 2,
        '3' => 3,
        '4' => 4,
        '5' => 5,
        '6' => 6,
        '7' => 7,
        '8' => 8,
        _ => 9,
    }
}

proof fn lemma_trim_start_skip(s: Seq<char>, i: int)
    requires
        0 <= i <= s.len(),
        forall|k: int| 0 <= k < i ==> spec_is_space(#[trigger] s[k]),
        i < s.len() ==> !spec_is_space(s[i]),
    ensures
        spec_trim_start(s) == s.skip(i),
    decreases i,
{
    if i == 0 {
        assert(s.skip(0) =~= s);
    } else {
        assert(spec_is_space(s[0]));
        let t = s.drop_first();
        lemma_trim_start_skip(t, i - 1);
        assert(t.skip(i - 1) =~= s.skip(i));
    }
}

proof fn lemma_trim_end_take(s: Seq<char>, j: int)
    requires
        0 <= j <= s.len(),
        forall|k: int| j <= k < s.len() ==> spec_is_space(#[trigger] s[k]),
        j > 0 ==> !spec_is_space(s[j - 1]),
    ensures
        spec_trim_end(s) == s.take(j),
    decreases s.len() - j,
{
    if j == s.len() {
        assert(s.take(j) =~= s);
    } else {
        assert(spec_is_space(s.last()));
        let t = s.drop_last();
        lemma_trim_end_take(t, j);
        assert(t.take(j) =~= s.take(j));
    }
}

/// `v` without leading and trailing whitespace.
pub fn trim_chars(v: &Vec<char>) -> (r: Vec<char>)
    ensures
        r@ == spec_trim(v@),
{
    let n: usize = v.len();
    let mut start: usize = 0;
    while start < n && is_space(v[start])
        invariant
            n == v@.len(),
            start <= n,
            forall|k: int| 0 <= k < start ==> spec_is_space(#[trigger] v@[k]),
        decreases n - start,
    {
        start = start + 1;
    }
    proof {
        lemma_trim_start_skip(v@, start as int);
    }
    let mut end: usize = n;
    while end > start && is_space(v[end - 1])
        invariant
            n == v@.len(),
            start <= end <= n,
            forall|k: int| end <= k < n ==> spec_is_space(#[trigger] v@[k]),
        decreases end,
    {
        end = end - 1;
    }
    proof {
        let tail = v@.skip(start as int);
        assert forall|k: int| end - start <= k < tail.len() implies spec_is_space(
            #[trigger] tail[k],
        ) by {
            assert(tail[k] == v@[k + start]);
        }
        if end > start {
            assert(tail[end - start - 1] == v@[end - 1]);
        }
        lemma_trim_end_take(tail, end - start);
    }
    let mut r: Vec<char> = Vec::new();
    let mut i: usize = start;
    while i < end
        invariant
            start <= i <= end <= n,
            n == v@.len(),
            r@ == v@.subrange(start as int, i as int),
        decreases end - i,
    {
        r.push(v[i]);
        assert(r@ =~= v@.subrange(start as int, i + 1 as int));
        i = i + 1;
    }
    proof {
        assert(v@.subrange(start as int, end as int) =~= v@.skip(start as int).take(
            end - start as int,
        ));
    }
    r
}

/// The spec-level pieces of a piece list.
pub open spec fn spec_piece_views(s: Seq<Vec<char>>) -> Seq<Seq<char>> {
    s.map_values(|p: Vec<char>| p@)
}

fn split_from(v: &Vec<char>, from: usize, sep: char) -> (r: Vec<Vec<char>>)
    requires
        from <= v@.len(),
    ensures
        spec_piece_views(r@) == spec_split(v@.skip(from as int), sep),
        r@.len() >= 1,
    decreases v@.len() - from,
{
    let n: usize = v.len();
    if from == n {
        let mut r: Vec<Vec<char>> = Vec::new();
        r.push(Vec::new());
        assert(v@.skip(from as int) =~= Seq::<char>::empty());
        assert(spec_piece_views(r@) =~= seq![Seq::<char>::empty()]);
        r
    } else if v[from] == sep {
        let mut rest = split_from(v, from + 1, sep);
        let ghost rest_views = spec_piece_views(rest@);
        rest.insert(0, Vec::new());
        proof {
            let s = v@.skip(from as int);
            assert(s.len() > 0 && s.first() == sep);
            assert(s.drop_first() =~= v@.skip(from + 1 as int));
            rest_views.insert_ensures(0, Seq::<char>::empty());
            assert(spec_piece_views(rest@) =~= seq![Seq::<char>::empty()] + rest_views);
            assert(spec_split(s, sep) == seq![Seq::<char>::empty()] + spec_split(
                s.drop_first(),
                sep,
            ));
        }
        rest
    } else {
        let c = v[from];
        let mut rest = split_from(v, from + 1, sep);
        let ghost rest_views = spec_piece_views(rest@);
        let mut head = rest.remove(0);
        let ghost head_view = head@;
        head.insert(0, c);
        rest.insert(0, head);
        proof {
            let s = v@.skip(from as int);
            assert(s.len() > 0 && s.first() == c && c != sep);
            assert(s.drop_first() =~= v@.skip(from + 1 as int));
            assert(head_view == rest_views.first());
            assert(head@ =~= seq![c] + head_view);
            assert(spec_piece_views(rest@) =~= seq![seq![c] + rest_views.first()]
                + rest_views.drop_first());
            assert(spec_split(s, sep) == seq![seq![s.first()] + spec_split(
                s.drop_first(),
                sep,
            ).first()] + spec_split(s.drop_first(), sep).drop_first());
        }
        rest
    }
}

/// Splits at every occurrence of `sep`, keeping empty pieces.
pub fn split_chars(v: &Vec<char>, sep: char) -> (r: Vec<Vec<char>>)
    ensures
        spec_piece_views(r@) == spec_split(v@, sep),
        r@.len() >= 1,
{
    let r = split_from(v, 0, sep);
    proof {
        assert(v@.skip(0) =~= v@);
    }
    r
}

/// The value of a digit run, when there is one and it fits: `Some`
/// exactly when the range is non-empty, all digits, and worth at most
/// `u64::MAX`.
fn parse_digits_u64(v: &Vec<char>, from: usize, to: usize) -> (r: Option<u64>)
    requires
        from <= to <= v@.len(),
    ensures
        (r is Some) <==> (from < to && spec_all_digits(v@.subrange(from as int, to as int))
            && spec_digits_val(v@.subrange(from as int, to as int)) <= u64::MAX),
        r matches Some(x) ==> x == spec_digits_val(v@.subrange(from as int, to as int)),
{
    let ghost s = v@.subrange(from as int, to as int);
    if from == to {
        return None;
    }
    let mut acc: u64 = 0;
    let mut i: usize = from;
    while i < to
        invariant
            from <= i <= to <= v@.len(),
            s == v@.subrange(from as int, to as int),
            spec_all_digits(s.take(i - from)),
            acc == spec_digits_val(s.take(i - from)),
        decreases to - i,
    {
        let c = v[i];
        assert(s[i - from] == v@[i as int]);
        if !is_digit(c) {
            return None;
        }
        let d = digit_val(c);
        proof {
            assert(s.take(i + 1 - from).drop_last() =~= s.take(i - from));
            assert(spec_all_digits(s.take(i + 1 - from)));
        }
        let next = match acc.checked_mul(10) {
            Some(m) => m.checked_add(d),
            None => None,
        };
        match next {
            None => {
                proof {
                    assert(spec_digits_val(s.take(i + 1 - from)) > u64::MAX);
                    if spec_all_digits(s) {
                        lemma_digits_val_prefix(s, i + 1 - from);
                    }
                }
                return None;
            },
            Some(a) => {
                acc = a;
            },
        }
        i = i + 1;
    }
    assert(s.take(to - from as int) =~= s);
    Some(acc)
}

/// What `u32` parsing accepts here: an optional leading `+`, then a
/// non-empty digit run worth at most `u32::MAX`.
pub open spec fn spec_parse_u32(s: Seq<char>) -> Option<u32> {
    let body = if s.len() > 0 && s.first() == '+' {
        s.drop_first()
    } else {
        s
    };
    if body.len() > 0 && spec_all_digits(body) && spec_digits_val(body) <= u32::MAX {
        Some(spec_digits_val(body) as u32)
    } else {
        None
    }
}

/// Parses a process id as std's `u32` parsing would.
pub fn parse_u32_chars(v: &Vec<char>) -> (r: Option<u32>)
    ensures
        r == spec_parse_u32(v@),
{
    let n: usize = v.len();
    let from: usize = if n > 0 && v[0] == '+' {
        1
    } else {
        0
    };
    proof {
        if from == 1 {
            assert(v@.subrange(1, n as int) =~= v@.drop_first());
        } else {
            assert(v@.subrange(0, n as int) =~= v@);
        }
    }
    match parse_digits_u64(v, from, n) {
        None => None,
        Some(x) => {
            if x <= 0xffff_ffff {
                Some(x as u32)
            } else {
                None
            }
        },
    }
}

/// Where the first `.` stands in `s`, if anywhere.
pub open spec fn spec_first_dot(s: Seq<char>) -> Option<int>
    decreases s.len(),
{
    if s.len() == 0 {
        None
    } else if s.first() == '.' {
        Some(0)
    } else {
        match spec_first_dot(s.drop_first()) {
            Some(i) => Some(i + 1),
            None => None,
        }
    }
}

proof fn lemma_first_dot_at(s: Seq<char>, i: int)
    requires
        0 <= i < s.len(),
        s[i] == '.',
        forall|k: int| 0 <= k < i ==> s[k] != '.',
    ensures
        spec_first_dot(s) == Some(i),
    decreases i,
{
    if i > 0 {
        lemma_first_dot_at(s.drop_first(), i - 1);
    }
}

proof fn lemma_first_dot_none(s: Seq<char>)
    requires
        forall|k: int| 0 <= k < s.len() ==> s[k] != '.',
    ensures
        spec_first_dot(s) is None,
    decreases s.len(),
{
    if s.len() > 0 {
        lemma_first_dot_none(s.drop_first());
    }
}

/// The hundredths contributed by the fraction digits: the first two count,
/// the rest are cut off.
pub open spec fn spec_frac_centi(fp: Seq<char>) -> int {
    if fp.len() == 0 {
        0
    } else if fp.len() == 1 {
        spec_digit_val(fp[0]) * 10
    } else {
        spec_digit_val(fp[0]) * 10 + spec_digit_val(fp[1])
    }
}

/// What a percentage column parses to, in hundredths: a non-empty digit run,
/// optionally followed by a point and further digits, of which the first two
/// contribute; `Some` exactly when the text fits that grammar and the value
/// fits.
pub open spec fn spec_parse_centi(s: Seq<char>) -> Option<u64> {
    let ip = match spec_first_dot(s) {
        Some(d) => s.subrange(0, d),
        None => s,
    };
    let fp = match spec_first_dot(s) {
        Some(d) => s.subrange(d + 1, s.len() as int),
        None => Seq::<char>::empty(),
    };
    if ip.len() > 0 && spec_all_digits(ip) && spec_all_digits(fp) && spec_digits_val(ip) * 100
        + spec_frac_centi(fp) <= u64::MAX {
        Some((spec_digits_val(ip) * 100 + spec_frac_centi(fp)) as u64)
    } else {
        None
    }
}

/// Whether every character in the range is a digit.
fn all_digits_range(v: &Vec<char>, from: usize, to: usize) -> (r: bool)
    requires
        from <= to <= v@.len(),
    ensures
        r == spec_all_digits(v@.subrange(from as int, to as int)),
{
    let ghost s = v@.subrange(from as int, to as int);
    let mut i: usize = from;
    while i < to
        invariant
            from <= i <= to <= v@.len(),
            s == v@.subrange(from as int, to as int),
            spec_all_digits(s.take(i - from)),
        decreases to - i,
    {
        assert(s[i - from] == v@[i as int]);
        if !is_digit(v[i]) {
            return false;
        }
        proof {
            assert(s.take(i + 1 - from).drop_last() =~= s.take(i - from));
        }
        i = i + 1;
    }
    assert(s.take(to - from as int) =~= s);
    true
}

/// Parses a percentage column into hundredths.
pub fn parse_centi_chars(v: &Vec<char>) -> (r: Option<u64>)
    ensures
        r == spec_parse_centi(v@),
{
    let n: usize = v.len();
    let mut k: usize = 0;
    while k < n && v[k] != '.'
        invariant
            k <= n,
            n == v@.len(),
            forall|j: int| 0 <= j < k ==> v@[j] != '.',
        decreases n - k,
    {
        k = k + 1;
    }
    let dot_found = k < n;
    proof {
        if dot_found {
            lemma_first_dot_at(v@, k as int);
        } else {
            lemma_first_dot_none(v@);
        }
    }
    let iend: usize = k;
    let fstart: usize = if dot_found {
        k + 1
    } else {
        n
    };
    let ghost ip = match spec_first_dot(v@) {
        Some(d) => v@.subrange(0, d),
        None => v@,
    };
    let ghost fp = match spec_first_dot(v@) {
        Some(d) => v@.subrange(d + 1, v@.len() as int),
        None => Seq::<char>::empty(),
    };
    proof {
        assert(ip =~= v@.subrange(0, iend as int));
        assert(fp =~= v@.subrange(fstart as int, n as int));
    }
    if iend == 0 {
        return None;
    }
    if !all_digits_range(v, fstart, n) {
        return None;
    }
    let frac: u64 = if fstart == n {
        0
    } else if fstart + 1 == n {
        assert(fp[0] == v@[fstart as int]);
        digit_val(v[fstart]) * 10
    } else {
        assert(fp[0] == v@[fstart as int]);
        assert(fp[1] == v@[fstart + 1 as int]);
        digit_val(v[fstart]) * 10 + digit_val(v[fstart + 1])
    };
    assert(frac == spec_frac_centi(fp));
    match parse_digits_u64(v, 0, iend) {
        None => {
            proof {
                if spec_all_digits(ip) {
                    assert(spec_digits_val(ip) > u64::MAX);
                    lemma_digits_val_nonneg(ip);
                }
            }
            None
        },
        Some(ipv) => {
            proof {
                lemma_digits_val_nonneg(ip);
            }
            match ipv.checked_mul(100) {
                None => None,
                Some(m) => match m.checked_add(frac) {
                    None => None,
                    Some(total) => Some(total),
                },
            }
        },
    }
}

/// One line of `pgrep -P <pid> -l` output: space-separated columns, the
/// first a process id, the second the process name; lines with fewer than
/// two columns or an unparsable id yield nothing.
pub open spec fn spec_pgrep_line(line: Seq<char>) -> Option<(u32, Seq<char>)> {
    let cols = spec_split(line, ' ');
    if cols.len() < 2 {
        None
    } else {
        match spec_parse_u32(spec_trim(cols[0])) {
            Some(pid) => Some((pid, spec_trim(cols[1]))),
            None => None,
        }
    }
}

/// The child entries of a line list, in order, unparsable lines skipped.
pub open spec fn spec_pgrep_lines(lines: Seq<Seq<char>>) -> Seq<(u32, Seq<char>)>
    decreases lines.len(),
{
    if lines.len() == 0 {
        Seq::empty()
    } else {
        (match spec_pgrep_line(lines.first()) {
            Some(x) => seq![x],
            None => Seq::<(u32, Seq<char>)>::empty(),
        }) + spec_pgrep_lines(lines.drop_first())
    }
}

/// The child processes named by a whole `pgrep` output.
pub open spec fn spec_pgrep_children(text: Seq<char>) -> Seq<(u32, Seq<char>)> {
    spec_pgrep_lines(spec_split(text, '\n'))
}

/// The spec-level pairs of a parsed child list.
pub open spec fn spec_child_views(s: Seq<(u32, String)>) -> Seq<(u32, Seq<char>)> {
    s.map_values(|p: (u32, String)| (p.0, p.1@))
}

proof fn lemma_child_views_push(s: Seq<(u32, String)>, x: (u32, String))
    ensures
        spec_child_views(s.push(x)) == spec_child_views(s).push((x.0, x.1@)),
{
    assert(spec_child_views(s.push(x)) =~= spec_child_views(s).push((x.0, x.1@)));
}

/// Parses a whole `pgrep -P <pid> -l` output into (process id, name) pairs,
/// in order, skipping lines that do not parse.
pub fn parse_pgrep_output(text: &str) -> (r: Vec<(u32, String)>)
    ensures
        spec_child_views(r@) == spec_pgrep_children(text@),
{
    let chars = crate::strutil::chars_of(text);
    let lines = split_chars(&chars, '\n');
    let ghost line_views = spec_piece_views(lines@);
    let n: usize = lines.len();
    let mut r: Vec<(u32, String)> = Vec::new();
    let mut i: usize = 0;
    assert(line_views.skip(0) =~= line_views);
    while i < n
        invariant
            n == lines@.len(),
            n == line_views.len(),
            line_views == spec_piece_views(lines@),
            i <= n,
            spec_pgrep_lines(line_views) == spec_child_views(r@) + spec_pgrep_lines(
                line_views.skip(i as int),
            ),
        decreases n - i,
    {
        proof {
            let rest = line_views.skip(i as int);
            assert(rest.first() == line_views[i as int]);
            assert(rest.drop_first() =~= line_views.skip(i + 1 as int));
        }
        let line = &lines[i];
        assert(line@ == line_views[i as int]);
        let cols = split_chars(line, ' ');
        let ghost col_views = spec_piece_views(cols@);
        if cols.len() >= 2 {
            let t0 = trim_chars(&cols[0]);
            assert(cols@[0]@ == col_views[0]);
            assert(cols@[1]@ == col_views[1]);
            match parse_u32_chars(&t0) {
                Some(pid) => {
                    let t1 = trim_chars(&cols[1]);
                    let name = crate::strutil::string_from_chars(&t1);
                    let ghost prev = r@;
                    r.push((pid, name));
                    proof {
                        lemma_child_views_push(prev, r@.last());
                        assert(spec_child_views(r@) =~= spec_child_views(prev).push(
                            (pid, spec_trim(col_views[1])),
                        ));
                    }
                },
                None => {},
            }
        }
        i = i + 1;
    }
    assert(line_views.skip(n as int) =~= Seq::<Seq<char>>::empty());
    assert(spec_child_views(r@) =~= spec_pgrep_lines(line_views));
    r
}

/// The parsed percentage columns of a column list, in order, unparsable
/// columns skipped.
pub open spec fn spec_centi_cols(cols: Seq<Seq<char>>) -> Seq<u64>
    decreases cols.len(),
{
    if cols.len() == 0 {
        Seq::empty()
    } else {
        (match spec_parse_centi(spec_trim(cols.first())) {
            Some(x) => seq![x],
            None => Seq::<u64>::empty(),
        }) + spec_centi_cols(cols.drop_first())
    }
}

/// The CPU and memory percentages, in hundredths, read from a `ps -o
/// %cpu,%mem -p <pid>` output: the first two parsable columns of the second
/// line. Zero contribution whenever the output has no second line or fewer
/// than two parsable columns — a parse failure is zero contribution, not an
/// error.
pub open spec fn spec_ps_cpu_mem(text: Seq<char>) -> (u64, u64) {
    let lines = spec_split(text, '\n');
    if lines.len() < 2 {
        (0u64, 0u64)
    } else {
        let stats = spec_centi_cols(spec_split(spec_trim(lines[1]), ' '));
        if stats.len() < 2 {
            (0u64, 0u64)
        } else {
            (stats[0], stats[1])
        }
    }
}

/// Parses a `ps -o %cpu,%mem -p <pid>` output into CPU and memory
/// hundredths; zeros when the output does not parse.
pub fn parse_ps_output(text: &str) -> (r: (u64, u64))
    ensures
        r == spec_ps_cpu_mem(text@),
{
    let chars = crate::strutil::chars_of(text);
    let lines = split_chars(&chars, '\n');
    let ghost line_views = spec_piece_views(lines@);
    if lines.len() < 2 {
        return (0, 0);
    }
    assert(lines@[1]@ == line_views[1]);
    let stat_line = trim_chars(&lines[1]);
    let cols = split_chars(&stat_line, ' ');
    let ghost col_views = spec_piece_views(cols@);
    let n: usize = cols.len();
    let mut stats: Vec<u64> = Vec::new();
    let mut i: usize = 0;
    assert(col_views.skip(0) =~= col_views);
    while i < n
        invariant
            n == cols@.len(),
            n == col_views.len(),
            col_views == spec_piece_views(cols@),
            i <= n,
            spec_centi_cols(col_views) == stats@ + spec_centi_cols(col_views.skip(i as int)),
        decreases n - i,
    {
        proof {
            let rest = col_views.skip(i as int);
            assert(rest.first() == col_views[i as int]);
            assert(rest.drop_first() =~= col_views.skip(i + 1 as int));
        }
        assert(cols@[i as int]@ == col_views[i as int]);
        let t = trim_chars(&cols[i]);
        match parse_centi_chars(&t) {
            Some(x) => {
                let ghost prev = stats@;
                stats.push(x);
                assert(stats@ =~= prev.push(x));
                assert(stats@ + spec_centi_cols(col_views.skip(i + 1 as int)) =~= prev + (seq![x]
                    + spec_centi_cols(col_views.skip(i + 1 as int))));
            },
            None => {},
        }
        i = i + 1;
    }
    assert(col_views.skip(n as int) =~= Seq::<Seq<char>>::empty());
    assert(stats@ =~= spec_centi_cols(col_views));
    if stats.len() < 2 {
        (0, 0)
    } else {
        (stats[0], stats[1])
    }
}

} // verus!
