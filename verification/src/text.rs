//! Character-level text helpers with their specifications: whitespace
//! trimming, line splitting, joining, literal replacement and decimal
//! rendering of integers.

use vstd::prelude::*;
use vstd::string::*;

verus! {

/// Whether `c` has the Unicode `White_Space` property (what
/// `char::is_whitespace` tests).
pub open spec fn is_white(c: char) -> bool {
    let u = c as u32;
    ||| 0x09 <= u <= 0x0d
    ||| u == 0x20
    ||| u == 0x85
    ||| u == 0xa0
    ||| u == 0x1680
    ||| 0x2000 <= u <= 0x200a
    ||| u == 0x2028
    ||| u == 0x2029
    ||| u == 0x202f
    ||| u == 0x205f
    ||| u == 0x3000
}

/// `s` without its leading whitespace.
pub open spec fn trim_start_spec(s: Seq<char>) -> Seq<char>
    decreases s.len(),
{
    if s.len() > 0 && is_white(s[0]) {
        trim_start_spec(s.drop_first())
    } else {
        s
    }
}

/// `s` without its trailing whitespace.
pub open spec fn trim_end_spec(s: Seq<char>) -> Seq<char>
    decreases s.len(),
{
    if s.len() > 0 && is_white(s.last()) {
        trim_end_spec(s.drop_last())
    } else {
        s
    }
}

/// `s` without leading and trailing whitespace (what `str::trim` gives).
pub open spec fn trim_spec(s: Seq<char>) -> Seq<char> {
    trim_end_spec(trim_start_spec(s))
}

/// Index of the first line feed of `s`, or its length when it has none.
pub open spec fn newline_pos(s: Seq<char>) -> nat
    decreases s.len(),
{
    if s.len() == 0 {
        0
    } else if s[0] == '\n' {
        0
    } else {
        1 + newline_pos(s.drop_first())
    }
}

/// A line with one trailing carriage return removed, if it has one.
pub open spec fn strip_cr(l: Seq<char>) -> Seq<char> {
    if l.len() > 0 && l.last() == '\r' {
        l.drop_last()
    } else {
        l
    }
}

/// The lines of `s`, as `str::lines` yields them: split at each `\n`,
/// a `\r` right before a `\n` dropped, and no empty line after a final `\n`.
pub open spec fn lines_of(s: Seq<char>) -> Seq<Seq<char>>
    decreases s.len(),
{
    if s.len() == 0 {
        seq![]
    } else {
        let n = newline_pos(s);
        if n >= s.len() {
            seq![s]
        } else {
            seq![strip_cr(s.take(n as int))] + lines_of(s.skip(n + 1 as int))
        }
    }
}

/// Lines joined with `\n` between them.
pub open spec fn join_lines_spec(ls: Seq<Seq<char>>) -> Seq<char>
    decreases ls.len(),
{
    if ls.len() == 0 {
        seq![]
    } else if ls.len() == 1 {
        ls[0]
    } else {
        join_lines_spec(ls.drop_last()) + seq!['\n'] + ls.last()
    }
}

/// Every non-overlapping occurrence of `pat` in `s`, scanning from the left,
/// replaced by `rep` (what `str::replace` gives for a non-empty pattern).
pub open spec fn replace_all_spec(s: Seq<char>, pat: Seq<char>, rep: Seq<char>) -> Seq<char>
    decreases s.len(),
{
    if pat.len() == 0 || s.len() < pat.len() {
        s
    } else if s.take(pat.len() as int) == pat {
        rep + replace_all_spec(s.skip(pat.len() as int), pat, rep)
    } else {
        seq![s[0]] + replace_all_spec(s.drop_first(), pat, rep)
    }
}

/// The decimal digit character for `d < 10`.
pub open spec fn digit_char(d: nat) -> char {
    seq!['0', '1', '2', '3', '4', '5', '6', '7', '8', '9'][d as int]
}

/// The decimal rendering of `n`, without sign or leading zeros.
pub open spec fn decimal(n: nat) -> Seq<char>
    decreases n,
{
    if n < 10 {
        seq![digit_char(n)]
    } else {
        decimal(n / 10) + seq![digit_char(n % 10)]
    }
}

/// The characters of a string, in order.
pub fn to_chars(s: &str) -> (v: Vec<char>)
    ensures
        v@ == s@,
{
    let mut v: Vec<char> = Vec::new();
    for c in it: s.chars()
        invariant
            v@ == it.seq().take(it.index() as int),
    {
        v.push(c);
    }
    v
}

/// Whether `c` is Unicode whitespace.
pub fn is_whitespace(c: char) -> (r: bool)
    ensures
        r == is_white(c),
{
    let u = c as u32;
    (0x09 <= u && u <= 0x0d) || u == 0x20 || u == 0x85 || u == 0xa0 || u == 0x1680 || (0x2000
        <= u && u <= 0x200a) || u == 0x2028 || u == 0x2029 || u == 0x202f || u == 0x205f || u
        == 0x3000
}

proof fn lemma_trim_start(s: Seq<char>, i: int)
    requires
        0 <= i <= s.len(),
        forall|k: int| 0 <= k < i ==> is_white(#[trigger] s[k]),
        i < s.len() ==> !is_white(s[i]),
    ensures
        trim_start_spec(s) == s.skip(i),
    decreases i,
{
    if i > 0 {
        assert forall|k: int| 0 <= k < i - 1 implies is_white(#[trigger] s.drop_first()[k]) by {
            assert(s.drop_first()[k] == s[k + 1]);
        }
        lemma_trim_start(s.drop_first(), i - 1);
        assert(s.drop_first().skip(i - 1) =~= s.skip(i));
    } else {
        assert(s.skip(0) =~= s);
    }
}

proof fn lemma_trim_end(t: Seq<char>, j: int)
    requires
        0 <= j <= t.len(),
        forall|k: int| j <= k < t.len() ==> is_white(#[trigger] t[k]),
        j > 0 ==> !is_white(t[j - 1]),
    ensures
        trim_end_spec(t) == t.take(j),
    decreases t.len() - j,
{
    if j < t.len() {
        assert(is_white(t[t.len() - 1]));
        lemma_trim_end(t.drop_last(), j);
        assert(t.drop_last().take(j) =~= t.take(j));
    } else {
        assert(t.take(j) =~= t);
    }
}

/// `s` without leading and trailing whitespace.
pub fn trim(s: &str) -> (r: String)
    ensures
        r@ == trim_spec(s@),
{
    let v = to_chars(s);
    let n = v.len();
    let mut i: usize = 0;
    while i < n && is_whitespace(v[i])
        invariant
            v@ == s@,
            n == v.len(),
            i <= n,
            forall|k: int| 0 <= k < i ==> is_white(#[trigger] v@[k]),
        decreases n - i,
    {
        i = i + 1;
    }
    proof {
        lemma_trim_start(s@, i as int);
    }
    let mut j: usize = n;
    while j > i && is_whitespace(v[j - 1])
        invariant
            v@ == s@,
            n == v.len(),
            i <= j <= n,
            forall|k: int| j <= k < n ==> is_white(#[trigger] v@[k]),
        decreases j,
    {
        j = j - 1;
    }
    proof {
        let t = s@.skip(i as int);
        assert forall|k: int| j - i <= k < t.len() implies is_white(#[trigger] t[k]) by {
            assert(t[k] == s@[k + i]);
        }
        if j > i {
            assert(t[j - i - 1] == s@[j - 1]);
        }
        lemma_trim_end(t, j - i);
        assert(t.take(j - i) =~= s@.subrange(i as int, j as int));
    }
    String::from_str(s.substring_char(i, j))
}


proof fn lemma_newline_pos(t: Seq<char>, m: int)
    requires
        0 <= m <= t.len(),
        forall|q: int| 0 <= q < m ==> #[trigger] t[q] != '\n',
        m < t.len() ==> t[m] == '\n',
    ensures
        newline_pos(t) == m,
    decreases m,
{
    if m > 0 {
        assert forall|q: int| 0 <= q < m - 1 implies #[trigger] t.drop_first()[q] != '\n' by {
            assert(t.drop_first()[q] == t[q + 1]);
        }
        if m < t.len() {
            assert(t.drop_first()[m - 1] == t[m]);
        }
        lemma_newline_pos(t.drop_first(), m - 1);
    }
}

/// The views of a vector of strings.
pub open spec fn views(v: Seq<String>) -> Seq<Seq<char>> {
    v.map_values(|x: String| x@)
}

/// The lines of `s`, as `str::lines` yields them.
pub fn split_lines(s: &str) -> (r: Vec<String>)
    ensures
        views(r@) == lines_of(s@),
{
    let v = to_chars(s);
    let n = v.len();
    let mut out: Vec<String> = Vec::new();
    let mut start: usize = 0;
    let mut k: usize = 0;
    proof {
        assert(s@.skip(0) =~= s@);
        assert(views(out@) + lines_of(s@) =~= lines_of(s@));
    }
    while k < n
        invariant
            v@ == s@,
            n == v.len(),
            start <= k <= n,
            forall|q: int| start <= q < k ==> #[trigger] v@[q] != '\n',
            views(out@) + lines_of(s@.skip(start as int)) == lines_of(s@),
        decreases n - k,
    {
        if v[k] == '\n' {
            let ghost t = s@.skip(start as int);
            proof {
                assert forall|q: int| 0 <= q < k - start implies #[trigger] t[q] != '\n' by {
                    assert(t[q] == s@[q + start]);
                }
                assert(t[k - start] == s@[k as int]);
                lemma_newline_pos(t, k - start);
                assert(t.take(k - start) =~= s@.subrange(start as int, k as int));
                assert(t.skip(k - start + 1) =~= s@.skip(k + 1));
            }
            let line: String = if k > start && v[k - 1] == '\r' {
                proof {
                    assert(s@.subrange(start as int, k as int).drop_last() =~= s@.subrange(
                        start as int,
                        k - 1,
                    ));
                }
                String::from_str(s.substring_char(start, k - 1))
            } else {
                String::from_str(s.substring_char(start, k))
            };
            proof {
                assert(line@ == strip_cr(t.take(k - start)));
            }
            let ghost before = out@;
            out.push(line);
            proof {
                assert(views(out@) =~= views(before) + seq![line@]);
                assert(views(out@) + lines_of(s@.skip(k + 1)) =~= views(before) + lines_of(t));
            }
            start = k + 1;
        }
        k = k + 1;
    }
    let ghost t = s@.skip(start as int);
    if start < n {
        proof {
            assert forall|q: int| 0 <= q < n - start implies #[trigger] t[q] != '\n' by {
                assert(t[q] == s@[q + start]);
            }
            lemma_newline_pos(t, n - start);
            assert(t =~= s@.subrange(start as int, n as int));
        }
        let line = String::from_str(s.substring_char(start, n));
        let ghost before = out@;
        out.push(line);
        proof {
            assert(views(out@) =~= views(before) + seq![line@]);
            assert(lines_of(t) == seq![t]);
        }
    } else {
        proof {
            assert(t.len() == 0);
            assert(views(out@) + lines_of(t) =~= views(out@));
        }
    }
    out
}

/// Lines joined with `\n` between them.
pub fn join_lines(lines: &Vec<String>) -> (r: String)
    ensures
        r@ == join_lines_spec(views(lines@)),
{
    let mut r = String::new();
    let n = lines.len();
    let mut i: usize = 0;
    while i < n
        invariant
            n == lines.len(),
            i <= n,
            r@ == join_lines_spec(views(lines@).take(i as int)),
        decreases n - i,
    {
        let ghost prev = views(lines@).take(i as int);
        let ghost next = views(lines@).take(i + 1);
        proof {
            assert(next.drop_last() =~= prev);
            assert(next.last() == lines@[i as int]@);
        }
        if i > 0 {
            r.append("\n");
            proof {
                reveal_strlit("\n");
            }
        } else {
            proof {
                assert(prev.len() == 0);
            }
        }
        r.append(lines[i].as_str());
        i = i + 1;
    }
    proof {
        assert(views(lines@).take(n as int) =~= views(lines@));
    }
    r
}

/// Whether `pat` occurs in `v` at position `i`.
fn matches_at(v: &Vec<char>, i: usize, pat: &Vec<char>) -> (r: bool)
    requires
        i + pat.len() <= v.len(),
    ensures
        r == (v@.subrange(i as int, i + pat.len()) == pat@),
{
    let m = pat.len();
    let mut q: usize = 0;
    while q < m
        invariant
            m == pat.len(),
            i + m <= v.len(),
            q <= m,
            forall|p: int| 0 <= p < q ==> v@[i + p] == pat@[p],
        decreases m - q,
    {
        if v[i + q] != pat[q] {
            proof {
                assert(v@.subrange(i as int, i + m)[q as int] != pat@[q as int]);
            }
            return false;
        }
        q = q + 1;
    }
    proof {
        assert(v@.subrange(i as int, i + m) =~= pat@);
    }
    true
}

/// Every non-overlapping occurrence of a non-empty `pat` in `s`, scanning
/// from the left, replaced by `rep`.
pub fn replace_all(s: &str, pat: &str, rep: &str) -> (r: String)
    requires
        pat@.len() > 0,
    ensures
        r@ == replace_all_spec(s@, pat@, rep@),
{
    let v = to_chars(s);
    let p = to_chars(pat);
    let n = v.len();
    let m = p.len();
    let mut out = String::new();
    let mut seg: usize = 0;
    let mut i: usize = 0;
    proof {
        assert(s@.skip(0) =~= s@);
        assert(out@ + s@.subrange(0, 0) + replace_all_spec(s@, pat@, rep@) =~= replace_all_spec(
            s@,
            pat@,
            rep@,
        ));
    }
    while m <= n - i
        invariant
            v@ == s@,
            p@ == pat@,
            n == v.len(),
            m == p.len(),
            m > 0,
            seg <= i <= n,
            replace_all_spec(s@, pat@, rep@) == out@ + s@.subrange(seg as int, i as int)
                + replace_all_spec(s@.skip(i as int), pat@, rep@),
        decreases n - i,
    {
        let ghost t = s@.skip(i as int);
        proof {
            assert(t.take(m as int) =~= s@.subrange(i as int, i + m));
        }
        if matches_at(&v, i, &p) {
            proof {
                assert(t.skip(m as int) =~= s@.skip(i + m));
            }
            let ghost before = out@;
            out.append(s.substring_char(seg, i));
            out.append(rep);
            proof {
                assert(s@.subrange((i + m) as int, (i + m) as int) =~= Seq::<char>::empty());
                assert(out@ + s@.subrange((i + m) as int, (i + m) as int) + replace_all_spec(
                    s@.skip(i + m),
                    pat@,
                    rep@,
                ) =~= before + s@.subrange(seg as int, i as int) + (rep@ + replace_all_spec(
                    s@.skip(i + m),
                    pat@,
                    rep@,
                )));
            }
            i = i + m;
            seg = i;
        } else {
            proof {
                assert(t.drop_first() =~= s@.skip(i + 1));
                assert(t[0] == s@[i as int]);
                assert(s@.subrange(seg as int, i as int) + (seq![t[0]] + replace_all_spec(
                    t.drop_first(),
                    pat@,
                    rep@,
                )) =~= s@.subrange(seg as int, i + 1) + replace_all_spec(
                    s@.skip(i + 1),
                    pat@,
                    rep@,
                ));
            }
            i = i + 1;
        }
    }
    proof {
        let t = s@.skip(i as int);
        assert(replace_all_spec(t, pat@, rep@) == t);
        assert(s@.subrange(seg as int, i as int) + t =~= s@.subrange(seg as int, n as int));
    }
    out.append(s.substring_char(seg, n));
    out
}

/// The decimal rendering of `n`.
pub fn decimal_string(n: u64) -> (r: String)
    ensures
        r@ == decimal(n as nat),
    decreases n,
{
    let digits = "0123456789";
    proof {
        reveal_strlit("0123456789");
    }
    if n < 10 {
        let d = n as usize;
        String::from_str(digits.substring_char(d, d + 1))
    } else {
        let mut r = decimal_string(n / 10);
        let d = (n % 10) as usize;
        let tail = digits.substring_char(d, d + 1);
        proof {
            assert(tail@ =~= seq![digit_char((n % 10) as nat)]);
        }
        r.append(tail);
        r
    }
}

/// Whitespace is exactly the Unicode `White_Space` set: the controls tab,
/// line feed, vertical tab, form feed and carriage return, space, next line,
/// no-break space, Ogham space mark, the spaces from en quad to hair space,
/// the line and paragraph separators, narrow no-break space, medium
/// mathematical space and ideographic space.
pub proof fn lemma_whitespace_chars(c: char)
    ensures
        is_white(c) <==> (c == '\t' || c == '\n' || c == '\u{0B}' || c == '\u{0C}' || c == '\r'
            || c == ' ' || c == '\u{85}' || c == '\u{A0}' || c == '\u{1680}' || c == '\u{2000}'
            || c == '\u{2001}' || c == '\u{2002}' || c == '\u{2003}' || c == '\u{2004}' || c
            == '\u{2005}' || c == '\u{2006}' || c == '\u{2007}' || c == '\u{2008}' || c
            == '\u{2009}' || c == '\u{200A}' || c == '\u{2028}' || c == '\u{2029}' || c
            == '\u{202F}' || c == '\u{205F}' || c == '\u{3000}'),
{
}

proof fn lemma_trim_start_shape(s: Seq<char>) -> (i: int)
    ensures
        0 <= i <= s.len(),
        trim_start_spec(s) == s.skip(i),
        forall|k: int| 0 <= k < i ==> is_white(#[trigger] s[k]),
        i < s.len() ==> !is_white(s[i]),
    decreases s.len(),
{
    if s.len() > 0 && is_white(s[0]) {
        let i2 = lemma_trim_start_shape(s.drop_first());
        assert(s.drop_first().skip(i2) =~= s.skip(i2 + 1));
        assert forall|k: int| 0 <= k < i2 + 1 implies is_white(#[trigger] s[k]) by {
            if k > 0 {
                assert(s[k] == s.drop_first()[k - 1]);
            }
        }
        if i2 + 1 < s.len() {
            assert(s[i2 + 1] == s.drop_first()[i2]);
        }
        i2 + 1
    } else {
        assert(s.skip(0) =~= s);
        0
    }
}

proof fn lemma_trim_end_shape(t: Seq<char>) -> (j: int)
    ensures
        0 <= j <= t.len(),
        trim_end_spec(t) == t.take(j),
        forall|k: int| j <= k < t.len() ==> is_white(#[trigger] t[k]),
        j > 0 ==> !is_white(t[j - 1]),
    decreases t.len(),
{
    if t.len() > 0 && is_white(t.last()) {
        let j2 = lemma_trim_end_shape(t.drop_last());
        assert(t.drop_last().take(j2) =~= t.take(j2));
        assert forall|k: int| j2 <= k < t.len() implies is_white(#[trigger] t[k]) by {
            if k < t.len() - 1 {
                assert(t[k] == t.drop_last()[k]);
            }
        }
        if j2 > 0 {
            assert(t[j2 - 1] == t.drop_last()[j2 - 1]);
        }
        j2
    } else {
        assert(t.take(t.len() as int) =~= t);
        t.len() as int
    }
}

/// Trimming only removes whitespace around the text: the result is a
/// contiguous piece of the input, everything before and after it is
/// whitespace, and (when not empty) it neither starts nor ends with
/// whitespace. Every other character is kept, in order.
pub proof fn lemma_trim_keeps_inner_text(s: Seq<char>)
    ensures
        exists|i: int, j: int|
            0 <= i <= j <= s.len() && trim_spec(s) == s.subrange(i, j) && (forall|k: int|
                0 <= k < i ==> is_white(#[trigger] s[k])) && (forall|k: int|
                j <= k < s.len() ==> is_white(#[trigger] s[k])) && (i < j ==> !is_white(s[i])
                && !is_white(s[j - 1])),
{
    let i = lemma_trim_start_shape(s);
    let t = s.skip(i);
    let j = lemma_trim_end_shape(t);
    assert(trim_spec(s) == t.take(j));
    assert(t.take(j) =~= s.subrange(i, i + j));
    assert forall|k: int| i + j <= k < s.len() implies is_white(#[trigger] s[k]) by {
        assert(s[k] == t[k - i]);
    }
    if j > 0 {
        assert(s[i + j - 1] == t[j - 1]);
        assert(i < s.len());
    }
    assert(0 <= i <= i + j <= s.len() && trim_spec(s) == s.subrange(i, i + j));
}

/// A trimmed text neither starts nor ends with a carriage return, a line
/// feed, a tab or a space.
pub proof fn lemma_trim_no_line_ends(s: Seq<char>)
    ensures
        trim_spec(s).len() > 0 ==> trim_spec(s)[0] != '\r' && trim_spec(s)[0] != '\n'
            && trim_spec(s)[0] != '\t' && trim_spec(s)[0] != ' ',
        trim_spec(s).len() > 0 ==> trim_spec(s).last() != '\r' && trim_spec(s).last() != '\n'
            && trim_spec(s).last() != '\t' && trim_spec(s).last() != ' ',
{
    lemma_trim_keeps_inner_text(s);
    let (i, j) = choose|i: int, j: int|
        0 <= i <= j <= s.len() && trim_spec(s) == s.subrange(i, j) && (forall|k: int|
            0 <= k < i ==> is_white(#[trigger] s[k])) && (forall|k: int|
            j <= k < s.len() ==> is_white(#[trigger] s[k])) && (i < j ==> !is_white(s[i])
            && !is_white(s[j - 1]));
    if trim_spec(s).len() > 0 {
        assert(trim_spec(s)[0] == s[i]);
        assert(trim_spec(s).last() == s[j - 1]);
        lemma_whitespace_chars(s[i]);
        lemma_whitespace_chars(s[j - 1]);
    }
}

} // verus!
