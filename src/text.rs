//! Small verified text utilities: decimal rendering, substring search,
//! prefixes and line splitting.
use vstd::prelude::*;

verus! {

/// The ASCII digit for a value below ten.
pub open spec fn digit_char(d: nat) -> char {
    if d == 0 { '0' }
    else if d == 1 { '1' }
    else if d == 2 { '2' }
    else if d == 3 { '3' }
    else if d == 4 { '4' }
    else if d == 5 { '5' }
    else if d == 6 { '6' }
    else if d == 7 { '7' }
    else if d == 8 { '8' }
    else { '9' }
}

/// Base-ten rendering of a natural number, without leading zeros.
pub open spec fn decimal(n: nat) -> Seq<char>
    decreases n,
{
    if n < 10 {
        seq![digit_char(n)]
    } else {
        decimal(n / 10).push(digit_char(n % 10))
    }
}

/// `s` holds `p` as a contiguous run of characters.
pub open spec fn has_substring(s: Seq<char>, p: Seq<char>) -> bool {
    exists|i: int| 0 <= i && i + p.len() <= s.len() && #[trigger] s.subrange(i, i + p.len()) == p
}

/// `s` begins with `p`.
pub open spec fn has_prefix(s: Seq<char>, p: Seq<char>) -> bool {
    p.len() <= s.len() && s.subrange(0, p.len() as int) == p
}

/// The pieces of `s` that end in a line feed, each without it, and the
/// unterminated rest as last piece (possibly empty).
pub open spec fn pieces(s: Seq<char>) -> Seq<Seq<char>>
    decreases s.len(),
{
    if s.len() == 0 {
        seq![Seq::<char>::empty()]
    } else if s.last() == '\n' {
        pieces(s.drop_last()).push(Seq::<char>::empty())
    } else {
        let p = pieces(s.drop_last());
        p.update(p.len() - 1, p.last().push(s.last()))
    }
}

/// A terminated line loses one carriage return before its line feed.
pub open spec fn strip_cr(l: Seq<char>) -> Seq<char> {
    if l.len() > 0 && l.last() == '\r' { l.drop_last() } else { l }
}

/// The lines of `s`: split at `\n` or `\r\n`; a final line ending is
/// optional and an empty remainder after the last line ending is no line.
pub open spec fn lines_of(s: Seq<char>) -> Seq<Seq<char>> {
    let p = pieces(s);
    let terminated = p.drop_last().map_values(|l: Seq<char>| strip_cr(l));
    if p.last().len() == 0 { terminated } else { terminated.push(p.last()) }
}

/// The views of a sequence of strings.
pub open spec fn views(v: Seq<String>) -> Seq<Seq<char>> {
    v.map_values(|s: String| s@)
}

proof fn lemma_pieces_nonempty(s: Seq<char>)
    ensures
        pieces(s).len() >= 1,
    decreases s.len(),
{
    if s.len() > 0 {
        lemma_pieces_nonempty(s.drop_last());
    }
}

fn digit_str(d: u64) -> (r: &'static str)
    requires
        d < 10,
    ensures
        r@ == seq![digit_char(d as nat)],
{
    proof {
        reveal_strlit("0");
        reveal_strlit("1");
        reveal_strlit("2");
        reveal_strlit("3");
        reveal_strlit("4");
        reveal_strlit("5");
        reveal_strlit("6");
        reveal_strlit("7");
        reveal_strlit("8");
        reveal_strlit("9");
    }
    let r = if d == 0 { "0" }
    else if d == 1 { "1" }
    else if d == 2 { "2" }
    else if d == 3 { "3" }
    else if d == 4 { "4" }
    else if d == 5 { "5" }
    else if d == 6 { "6" }
    else if d == 7 { "7" }
    else if d == 8 { "8" }
    else { "9" };
    assert(r@ =~= seq![digit_char(d as nat)]);
    r
}

/// Renders `n` in base ten.
pub fn decimal_string(n: u64) -> (r: String)
    ensures
        r@ == decimal(n as nat),
    decreases n,
{
    if n < 10 {
        String::from_str(digit_str(n))
    } else {
        let mut s = decimal_string(n / 10);
        s.append(digit_str(n % 10));
        s
    }
}

/// The characters of `s`, one per element.
pub fn chars_of(s: &str) -> (r: Vec<char>)
    ensures
        r@ == s@,
{
    let n = s.unicode_len();
    let mut r: Vec<char> = Vec::new();
    let mut i: usize = 0;
    while i < n
        invariant
            n == s@.len(),
            i <= n,
            r@ == s@.subrange(0, i as int),
        decreases n - i,
    {
        r.push(s.get_char(i));
        i = i + 1;
        assert(r@ =~= s@.subrange(0, i as int));
    }
    assert(r@ =~= s@);
    r
}

fn matches_at(s: &Vec<char>, p: &Vec<char>, i: usize) -> (r: bool)
    requires
        i + p@.len() <= s@.len(),
    ensures
        r == (s@.subrange(i as int, i + p@.len()) == p@),
{
    let slen = s.len();
    let mut j: usize = 0;
    while j < p.len()
        invariant
            slen == s@.len(),
            i + p@.len() <= s@.len(),
            j <= p@.len(),
            s@.subrange(i as int, i + j) == p@.subrange(0, j as int),
        decreases p@.len() - j,
    {
        if s[i + j] != p[j] {
            assert(s@.subrange(i as int, i + p@.len())[j as int] != p@[j as int]);
            return false;
        }
        j = j + 1;
        assert(s@.subrange(i as int, i + j) =~= p@.subrange(0, j as int));
    }
    assert(p@.subrange(0, j as int) =~= p@);
    true
}

/// Whether `needle` occurs in `hay`.
pub fn contains(hay: &str, needle: &str) -> (r: bool)
    ensures
        r == has_substring(hay@, needle@),
{
    let s = chars_of(hay);
    let p = chars_of(needle);
    if p.len() > s.len() {
        return false;
    }
    let last = s.len() - p.len();
    let mut i: usize = 0;
    while i < last
        invariant
            i <= last,
            last + p@.len() == s@.len(),
            s@ == hay@,
            p@ == needle@,
            forall|k: int| 0 <= k < i ==> #[trigger] s@.subrange(k, k + p@.len()) != p@,
        decreases last - i,
    {
        if matches_at(&s, &p, i) {
            return true;
        }
        i = i + 1;
    }
    if matches_at(&s, &p, last) {
        return true;
    }
    assert forall|k: int| 0 <= k && k + needle@.len() <= hay@.len() implies
        #[trigger] hay@.subrange(k, k + needle@.len()) != needle@ by {
        assert(k <= i);
    }
    false
}

/// Whether `s` begins with `p`.
pub fn starts_with(s: &str, p: &str) -> (r: bool)
    ensures
        r == has_prefix(s@, p@),
{
    let sc = chars_of(s);
    let pc = chars_of(p);
    if pc.len() > sc.len() {
        return false;
    }
    let r = matches_at(&sc, &pc, 0);
    r
}

/// Splits `s` into its lines, as `str::lines` does.
pub fn split_lines(s: &str) -> (r: Vec<String>)
    ensures
        views(r@) == lines_of(s@),
{
    let n = s.unicode_len();
    let mut r: Vec<String> = Vec::new();
    let mut start: usize = 0;
    let mut i: usize = 0;
    while i < n
        invariant
            n == s@.len(),
            start <= i <= n,
            pieces(s@.subrange(0, i as int)).last() == s@.subrange(start as int, i as int),
            views(r@) == pieces(s@.subrange(0, i as int)).drop_last().map_values(
                |l: Seq<char>| strip_cr(l),
            ),
        decreases n - i,
    {
        let c = s.get_char(i);
        let ghost pre = s@.subrange(0, i as int);
        assert(s@.subrange(0, i + 1).drop_last() =~= pre);
        proof {
            lemma_pieces_nonempty(pre);
        }
        if c == '\n' {
            let ghost seg = s@.subrange(start as int, i as int);
            let mut end = i;
            if end > start && s.get_char(end - 1) == '\r' {
                end = end - 1;
                assert(seg.drop_last() =~= s@.subrange(start as int, end as int));
            }
            let line = String::from_str(s.substring_char(start, end));
            assert(line@ == strip_cr(seg));
            let ghost before = r@;
            r.push(line);
            assert(views(r@) =~= views(before).push(line@));
            start = i + 1;
            i = i + 1;
            assert(pieces(s@.subrange(0, i as int)) == pieces(pre).push(Seq::<char>::empty()));
            assert(pieces(s@.subrange(0, i as int)).drop_last() =~= pieces(pre));
            assert(pieces(pre) =~= pieces(pre).drop_last().push(pieces(pre).last()));
            assert(views(r@) =~= pieces(s@.subrange(0, i as int)).drop_last().map_values(
                |l: Seq<char>| strip_cr(l),
            ));
            assert(s@.subrange(start as int, i as int) =~= Seq::<char>::empty());
        } else {
            i = i + 1;
            let ghost p = pieces(pre);
            assert(pieces(s@.subrange(0, i as int)) == p.update(p.len() - 1, p.last().push(c)));
            assert(pieces(s@.subrange(0, i as int)).drop_last() =~= p.drop_last());
            assert(s@.subrange(start as int, i as int) =~= s@.subrange(
                start as int,
                i - 1,
            ).push(c));
        }
    }
    assert(s@.subrange(0, n as int) =~= s@);
    if start < n {
        r.push(String::from_str(s.substring_char(start, n)));
    }
    assert(views(r@) =~= lines_of(s@));
    r
}

/// A copy of a list of strings.
pub fn copy_strings(v: &Vec<String>) -> (r: Vec<String>)
    ensures
        views(r@) == views(v@),
{
    let mut r: Vec<String> = Vec::new();
    let mut i: usize = 0;
    while i < v.len()
        invariant
            i <= v@.len(),
            views(r@) == views(v@.subrange(0, i as int)),
        decreases v@.len() - i,
    {
        let ghost before = r@;
        r.push(String::from_str(v[i].as_str()));
        i = i + 1;
        assert(views(r@) =~= views(before).push(v@[i - 1]@));
        assert(v@.subrange(0, i as int) =~= v@.subrange(0, i - 1).push(v@[i - 1]));
        assert(views(v@.subrange(0, i as int)) =~= views(v@.subrange(0, i - 1)).push(v@[i - 1]@));
    }
    assert(v@.subrange(0, i as int) =~= v@);
    r
}

/// Unicode's White_Space property, which `char::is_whitespace` tests.
pub open spec fn is_white_space(c: char) -> bool {
    let u = c as u32;
    (9 <= u && u <= 13) || u == 0x20 || u == 0x85 || u == 0xa0 || u == 0x1680 || (0x2000 <= u && u
        <= 0x200a) || u == 0x2028 || u == 0x2029 || u == 0x202f || u == 0x205f || u == 0x3000
}

/// How many white-space characters `s` begins with.
pub open spec fn leading_ws(s: Seq<char>) -> nat
    decreases s.len(),
{
    if s.len() > 0 && is_white_space(s[0]) {
        1 + leading_ws(s.drop_first())
    } else {
        0
    }
}

/// How many white-space characters `s` ends with.
pub open spec fn trailing_ws(s: Seq<char>) -> nat
    decreases s.len(),
{
    if s.len() > 0 && is_white_space(s.last()) {
        1 + trailing_ws(s.drop_last())
    } else {
        0
    }
}

/// `s` without its leading and trailing white space, as `str::trim` gives it.
pub open spec fn trim_of(s: Seq<char>) -> Seq<char> {
    let t = s.subrange(leading_ws(s) as int, s.len() as int);
    t.subrange(0, t.len() - trailing_ws(t))
}

/// Whether `c` is white space.
pub fn white_space(c: char) -> (r: bool)
    ensures
        r == is_white_space(c),
{
    let u = c as u32;
    (9 <= u && u <= 13) || u == 0x20 || u == 0x85 || u == 0xa0 || u == 0x1680 || (0x2000 <= u && u
        <= 0x200a) || u == 0x2028 || u == 0x2029 || u == 0x202f || u == 0x205f || u == 0x3000
}

/// `s` without its leading and trailing white space.
pub fn trim(s: &str) -> (r: String)
    ensures
        r@ == trim_of(s@),
{
    let c = chars_of(s);
    let n = c.len();
    assert(s@.subrange(0, n as int) =~= s@);
    let mut lo: usize = 0;
    while lo < n && white_space(c[lo])
        invariant
            c@ == s@,
            n == s@.len(),
            lo <= n,
            leading_ws(s@) == lo + leading_ws(s@.subrange(lo as int, n as int)),
        decreases n - lo,
    {
        let ghost sub = s@.subrange(lo as int, n as int);
        assert(sub[0] == c@[lo as int]);
        assert(sub.drop_first() =~= s@.subrange(lo + 1, n as int));
        lo = lo + 1;
    }
    proof {
        let sub = s@.subrange(lo as int, n as int);
        if lo < n {
            assert(sub[0] == c@[lo as int]);
        }
        assert(leading_ws(sub) == 0);
    }
    let ghost t = s@.subrange(lo as int, n as int);
    let mut hi: usize = n;
    while hi > lo && white_space(c[hi - 1])
        invariant
            c@ == s@,
            n == s@.len(),
            lo <= hi <= n,
            t == s@.subrange(lo as int, n as int),
            trailing_ws(t) == (n - hi) + trailing_ws(s@.subrange(lo as int, hi as int)),
        decreases hi - lo,
    {
        let ghost sub = s@.subrange(lo as int, hi as int);
        assert(sub.last() == c@[hi - 1]);
        assert(sub.drop_last() =~= s@.subrange(lo as int, hi - 1));
        hi = hi - 1;
    }
    proof {
        let sub = s@.subrange(lo as int, hi as int);
        if hi > lo {
            assert(sub.last() == c@[hi - 1]);
        }
        assert(trailing_ws(sub) == 0);
        assert(t.subrange(0, t.len() - trailing_ws(t)) =~= sub);
    }
    String::from_str(s.substring_char(lo, hi))
}

} // verus!
