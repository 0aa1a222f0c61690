//! Character-level text helpers shared by the checkers and the report.
//!
//! Text is modelled as `Seq<char>`, the view of `String` and `str`.

use vstd::prelude::*;

verus! {

/// `String::push` appends one character to the end of the string.
pub assume_specification[ String::push ](s: &mut String, ch: char)
    ensures
        final(s)@ == old(s)@.push(ch),
;

// ---------------------------------------------------------------------------
// Conversions between strings and character vectors
// ---------------------------------------------------------------------------

/// The characters of `s`, in order.
pub fn chars_of(s: &str) -> (v: Vec<char>)
    ensures
        v@ == s@,
{
    let mut v: Vec<char> = Vec::new();
    for c in it: s.chars()
        invariant
            v@ == it.history(),
    {
        v.push(c);
    }
    v
}

/// Appends the characters of `v` to `s`.
pub fn push_chars(s: &mut String, v: &[char])
    ensures
        final(s)@ == old(s)@ + v@,
{
    let mut i: usize = 0;
    while i < v.len()
        invariant
            i <= v@.len(),
            s@ == old(s)@ + v@.take(i as int),
        decreases v@.len() - i,
    {
        s.push(v[i]);
        assert(v@.take(i + 1) == v@.take(i as int).push(v@[i as int]));
        i = i + 1;
    }
    assert(v@.take(v@.len() as int) == v@);
}

/// A string holding exactly the characters of `v`.
pub fn string_of(v: &[char]) -> (s: String)
    ensures
        s@ == v@,
{
    let mut s = String::new();
    push_chars(&mut s, v);
    s
}

/// A string holding the characters of `v` from `from` up to, not
/// including, `to`.
pub fn string_of_range(v: &[char], from: usize, to: usize) -> (s: String)
    requires
        from <= to <= v@.len(),
    ensures
        s@ == v@.subrange(from as int, to as int),
{
    let mut s = String::new();
    let mut i: usize = from;
    while i < to
        invariant
            from <= i <= to <= v@.len(),
            s@ == v@.subrange(from as int, i as int),
        decreases to - i,
    {
        s.push(v[i]);
        assert(v@.subrange(from as int, i + 1) =~= v@.subrange(from as int, i as int).push(v@[i as int]));
        i = i + 1;
    }
    s
}

/// The part of `t` between `head` at its start and `tail` at its end, when
/// `t` begins with `head` and ends with `tail` and the two do not overlap.
pub open spec fn between(t: Seq<char>, head: Seq<char>, tail: Seq<char>) -> Option<Seq<char>> {
    if head.len() + tail.len() <= t.len() && t.take(head.len() as int) == head && t.skip(
        t.len() - tail.len(),
    ) == tail {
        Some(t.subrange(head.len() as int, t.len() - tail.len()))
    } else {
        None
    }
}

/// The part of `t` between `head` and `tail`, as `between` describes it.
pub fn part_between(t: &[char], head: &[char], tail: &[char]) -> (r: Option<String>)
    ensures
        r matches Some(x) ==> between(t@, head@, tail@) == Some(x@),
        r is None ==> between(t@, head@, tail@) is None,
{
    if head.len() > t.len() || tail.len() > t.len() - head.len() {
        return None;
    }
    let end = t.len() - tail.len();
    let starts = matches_at(t, head, 0);
    let ends = matches_at(t, tail, end);
    proof {
        assert(t@.take(head@.len() as int) =~= t@.subrange(0, head@.len() as int));
        assert(t@.skip(end as int) =~= t@.subrange(end as int, end + tail@.len()));
    }
    if starts && ends {
        Some(string_of_range(t, head.len(), end))
    } else {
        None
    }
}

/// Appends `t` to `s`.
pub fn push_str(s: &mut String, t: &str)
    ensures
        final(s)@ == old(s)@ + t@,
{
    let v = chars_of(t);
    push_chars(s, v.as_slice());
}

/// A fresh string with the characters of `t`.
pub fn owned(t: &str) -> (s: String)
    ensures
        s@ == t@,
{
    let mut s = String::new();
    push_str(&mut s, t);
    s
}

/// Whether two texts hold the same characters.
pub fn same_text(a: &str, b: &str) -> (r: bool)
    ensures
        r == (a@ == b@),
{
    let x = chars_of(a);
    let y = chars_of(b);
    if x.len() != y.len() {
        return false;
    }
    let mut i: usize = 0;
    while i < x.len()
        invariant
            x@ == a@,
            y@ == b@,
            x@.len() == y@.len(),
            i <= x@.len(),
            forall|j: int| 0 <= j < i ==> x@[j] == y@[j],
        decreases x@.len() - i,
    {
        if x[i] != y[i] {
            return false;
        }
        i = i + 1;
    }
    assert(x@ =~= y@);
    true
}

// ---------------------------------------------------------------------------
// Lines
// ---------------------------------------------------------------------------

/// `l` without one trailing carriage return, if it has one.
pub open spec fn strip_cr(l: Seq<char>) -> Seq<char> {
    if l.len() > 0 && l.last() == '\r' {
        l.drop_last()
    } else {
        l
    }
}

/// Position of the first line feed in `s`, or `s.len()` when it has none.
pub open spec fn line_end(s: Seq<char>) -> nat
    decreases s.len(),
{
    if s.len() == 0 {
        0
    } else if s[0] == '\n' {
        0
    } else {
        1 + line_end(s.drop_first())
    }
}

/// The lines of `s`: the pieces between line feeds, each without a
/// carriage return that ends it before its line feed; the final line
/// feed is optional and text without any character has no line.
pub open spec fn lines(s: Seq<char>) -> Seq<Seq<char>>
    decreases s.len(),
{
    if s.len() == 0 {
        seq![]
    } else {
        let k = line_end(s);
        if k >= s.len() {
            seq![s]
        } else {
            seq![strip_cr(s.take(k as int))] + lines(s.skip(k + 1int))
        }
    }
}

/// No line feed occurs in `s`.
pub open spec fn newline_free(s: Seq<char>) -> bool {
    forall|i: int| 0 <= i < s.len() ==> s[i] != '\n'
}

proof fn lemma_line_end(s: Seq<char>, j: int)
    requires
        0 <= j <= s.len(),
        newline_free(s.take(j)),
        j == s.len() || s[j] == '\n',
    ensures
        line_end(s) == j,
    decreases j,
{
    if j > 0 {
        assert(s.take(j)[0] == s[0]);
        let t = s.drop_first();
        assert forall|i: int| 0 <= i < j - 1 implies #[trigger] t.take(j - 1)[i] != '\n' by {
            assert(t.take(j - 1)[i] == s.take(j)[i + 1]);
        }
        if j < s.len() {
            assert(t[j - 1] == s[j]);
        }
        lemma_line_end(t, j - 1);
    }
}

/// The element-wise views of a vector of character vectors.
pub open spec fn char_rows(v: Seq<Vec<char>>) -> Seq<Seq<char>> {
    v.map_values(|r: Vec<char>| r@)
}

/// Splits `v` into its lines.
pub fn split_lines(v: &[char]) -> (r: Vec<Vec<char>>)
    ensures
        char_rows(r@) == lines(v@),
{
    let ghost s = v@;
    let mut out: Vec<Vec<char>> = Vec::new();
    let mut cur: Vec<char> = Vec::new();
    let mut start: usize = 0;
    let mut i: usize = 0;
    assert(s.skip(0) == s);
    assert(char_rows(out@) + lines(s) == lines(s));
    while i < v.len()
        invariant
            s == v@,
            start <= i <= v@.len(),
            cur@ == s.subrange(start as int, i as int),
            newline_free(cur@),
            char_rows(out@) + lines(s.skip(start as int)) == lines(s),
        decreases v@.len() - i,
    {
        if v[i] == '\n' {
            let ghost rest = s.skip(start as int);
            proof {
                assert(rest.take(i - start) == cur@);
                assert(i - start < rest.len());
                assert(rest[i - start] == s[i as int]);
                lemma_line_end(rest, i - start);
                assert(rest.skip(i - start + 1) == s.skip(i + 1));
                assert(lines(rest) == seq![strip_cr(cur@)] + lines(s.skip(i + 1)));
            }
            let mut line = cur;
            let n = line.len();
            if n > 0 && line[n - 1] == '\r' {
                line.pop();
            }
            assert(line@ == strip_cr(cur@));
            proof {
                assert(char_rows(out@.push(line)) == char_rows(out@).push(line@));
                assert(char_rows(out@).push(line@) + lines(s.skip(i + 1)) == char_rows(out@) + (
                seq![line@] + lines(s.skip(i + 1))));
            }
            out.push(line);
            cur = Vec::new();
            start = i + 1;
        } else {
            cur.push(v[i]);
            assert(cur@ == s.subrange(start as int, i + 1));
        }
        i = i + 1;
    }
    let ghost rest = s.skip(start as int);
    assert(rest == cur@);
    if cur.len() > 0 {
        proof {
            assert(rest.take(rest.len() as int) == rest);
            lemma_line_end(rest, rest.len() as int);
            assert(lines(rest) == seq![rest]);
            assert(char_rows(out@.push(cur)) == char_rows(out@).push(cur@));
        }
        out.push(cur);
    } else {
        assert(lines(rest) == Seq::<Seq<char>>::empty());
        assert(char_rows(out@) + lines(rest) == char_rows(out@));
    }
    out
}

// ---------------------------------------------------------------------------
// Searching
// ---------------------------------------------------------------------------

/// `p` occurs in `s` as a contiguous part.
pub open spec fn has_infix(s: Seq<char>, p: Seq<char>) -> bool {
    exists|i: int| 0 <= i && i + p.len() <= s.len() && #[trigger] s.subrange(i, i + p.len()) == p
}

/// Whether `p` occurs at position `at` of `s`.
pub fn matches_at(s: &[char], p: &[char], at: usize) -> (r: bool)
    requires
        at + p@.len() <= s@.len(),
    ensures
        r == (s@.subrange(at as int, at + p@.len()) == p@),
{
    let lim = s.len();
    let mut j: usize = 0;
    while j < p.len()
        invariant
            lim == s@.len(),
            at + p@.len() <= s@.len(),
            j <= p@.len(),
            forall|k: int| 0 <= k < j ==> s@[at + k] == p@[k],
        decreases p@.len() - j,
    {
        if s[at + j] != p[j] {
            assert(s@.subrange(at as int, at + p@.len())[j as int] != p@[j as int]);
            return false;
        }
        j = j + 1;
    }
    assert(s@.subrange(at as int, at + p@.len()) =~= p@);
    true
}

/// Whether `p` occurs in `s`.
pub fn contains_chars(s: &[char], p: &[char]) -> (r: bool)
    ensures
        r == has_infix(s@, p@),
{
    if p.len() > s.len() {
        return false;
    }
    let last = s.len() - p.len();
    let mut i: usize = 0;
    while i < last
        invariant
            last + p@.len() == s@.len(),
            i <= last,
            forall|k: int| 0 <= k < i ==> #[trigger] s@.subrange(k, k + p@.len()) != p@,
        decreases last - i,
    {
        if matches_at(s, p, i) {
            return true;
        }
        i = i + 1;
    }
    if matches_at(s, p, last) {
        return true;
    }
    assert forall|k: int| 0 <= k && k + p@.len() <= s@.len() implies #[trigger] s@.subrange(
        k,
        k + p@.len(),
    ) != p@ by {}
    false
}

// ---------------------------------------------------------------------------
// Trimming
// ---------------------------------------------------------------------------

/// The characters that `char::is_whitespace` accepts: those with the
/// Unicode `White_Space` property.
pub open spec fn is_white(c: char) -> bool {
    let x = c as u32;
    ||| 0x09 <= x <= 0x0d
    ||| x == 0x20
    ||| x == 0x85
    ||| x == 0xa0
    ||| x == 0x1680
    ||| 0x2000 <= x <= 0x200a
    ||| x == 0x2028
    ||| x == 0x2029
    ||| x == 0x202f
    ||| x == 0x205f
    ||| x == 0x3000
}

/// Whether `c` is white space.
pub fn white(c: char) -> (r: bool)
    ensures
        r == is_white(c),
{
    let x = c as u32;
    (0x09 <= x && x <= 0x0d) || x == 0x20 || x == 0x85 || x == 0xa0 || x == 0x1680 || (0x2000 <= x
        && x <= 0x200a) || x == 0x2028 || x == 0x2029 || x == 0x202f || x == 0x205f || x == 0x3000
}

/// `s` without its leading white space.
pub open spec fn trim_start(s: Seq<char>) -> Seq<char>
    decreases s.len(),
{
    if s.len() > 0 && is_white(s[0]) {
        trim_start(s.drop_first())
    } else {
        s
    }
}

/// `s` without its trailing white space.
pub open spec fn trim_end(s: Seq<char>) -> Seq<char>
    decreases s.len(),
{
    if s.len() > 0 && is_white(s.last()) {
        trim_end(s.drop_last())
    } else {
        s
    }
}

/// `s` without leading and trailing white space, as `str::trim` gives it.
pub open spec fn trim(s: Seq<char>) -> Seq<char> {
    trim_end(trim_start(s))
}

/// `v` without leading and trailing white space.
pub fn trimmed(v: &[char]) -> (r: Vec<char>)
    ensures
        r@ == trim(v@),
{
    let ghost s = v@;
    let n = v.len();
    let mut a: usize = 0;
    assert(s.skip(0) == s);
    while a < n && white(v[a])
        invariant
            s == v@,
            n == s.len(),
            a <= n,
            trim_start(s.skip(a as int)) == trim_start(s),
        decreases n - a,
    {
        assert(s.skip(a as int).drop_first() == s.skip(a + 1));
        a = a + 1;
    }
    assert(trim_start(s.skip(a as int)) == s.skip(a as int));
    let mut b: usize = n;
    while b > a && white(v[b - 1])
        invariant
            s == v@,
            n == s.len(),
            a <= b <= n,
            trim_end(s.subrange(a as int, b as int)) == trim(s),
        decreases b - a,
    {
        assert(s.subrange(a as int, b as int).drop_last() == s.subrange(a as int, b - 1));
        b = b - 1;
    }
    assert(s.skip(a as int) == s.subrange(a as int, n as int));
    let mut r: Vec<char> = Vec::new();
    let mut k: usize = a;
    while k < b
        invariant
            s == v@,
            a <= k <= b <= n,
            n == s.len(),
            r@ == s.subrange(a as int, k as int),
            trim_end(s.subrange(a as int, b as int)) == s.subrange(a as int, b as int),
            trim_end(s.subrange(a as int, b as int)) == trim(s),
        decreases b - k,
    {
        r.push(v[k]);
        assert(r@ == s.subrange(a as int, k + 1));
        k = k + 1;
    }
    r
}

// ---------------------------------------------------------------------------
// Numbers and padding
// ---------------------------------------------------------------------------

/// The decimal digit character for `d`.
pub open spec fn digit(d: nat) -> char {
    ((d + 48) as u8) as char
}

/// The decimal notation of `n`, without leading zeros.
pub open spec fn decimal(n: nat) -> Seq<char>
    decreases n,
{
    if n < 10 {
        seq![digit(n)]
    } else {
        decimal(n / 10).push(digit(n % 10))
    }
}

/// Appends the decimal notation of `n` to `s`.
pub fn push_decimal(s: &mut String, n: u64)
    ensures
        final(s)@ == old(s)@ + decimal(n as nat),
    decreases n,
{
    if n >= 10 {
        push_decimal(s, n / 10);
    }
    let d: u8 = (n % 10) as u8;
    s.push((d + 48) as char);
    assert(((d + 48) as char) == digit((n % 10) as nat));
    if n >= 10 {
        assert(decimal(n as nat) == decimal((n / 10) as nat).push(digit((n % 10) as nat)));
    }
}

/// `count` space characters.
pub open spec fn spaces(count: nat) -> Seq<char> {
    Seq::new(count, |i: int| ' ')
}

/// `s` followed by spaces up to `width` characters, as `{:<width}` pads it.
pub open spec fn pad_right(s: Seq<char>, width: nat) -> Seq<char> {
    if s.len() >= width {
        s
    } else {
        s + spaces((width - s.len()) as nat)
    }
}

/// Appends `t` to `s`, padded with spaces on the right to `width` characters.
pub fn push_padded(s: &mut String, t: &str, width: usize)
    ensures
        final(s)@ == old(s)@ + pad_right(t@, width as nat),
{
    let v = chars_of(t);
    push_chars(s, v.as_slice());
    if v.len() < width {
        let mut k: usize = v.len();
        while k < width
            invariant
                v@ == t@,
                v@.len() <= k <= width,
                s@ == old(s)@ + t@ + spaces((k - v@.len()) as nat),
            decreases width - k,
        {
            s.push(' ');
            assert(spaces((k + 1 - v@.len()) as nat) == spaces((k - v@.len()) as nat).push(' '));
            k = k + 1;
        }
    }
    assert(old(s)@ + pad_right(t@, width as nat) == old(s)@ + t@ + spaces(
        (width - t@.len()) as nat,
    ) || t@.len() >= width);
}

// ---------------------------------------------------------------------------
// Lists of strings
// ---------------------------------------------------------------------------

/// The texts of a sequence of strings.
pub open spec fn texts(v: Seq<String>) -> Seq<Seq<char>> {
    v.map_values(|s: String| s@)
}

/// A copy of a list of strings.
pub fn copy_strings(v: &Vec<String>) -> (r: Vec<String>)
    ensures
        texts(r@) == texts(v@),
{
    let mut r: Vec<String> = Vec::new();
    let mut i: usize = 0;
    while i < v.len()
        invariant
            i <= v@.len(),
            texts(r@) == texts(v@).take(i as int),
        decreases v@.len() - i,
    {
        let s = owned(v[i].as_str());
        proof {
            assert(texts(r@.push(s)) =~= texts(r@).push(s@));
            assert(texts(v@).take(i + 1) =~= texts(v@).take(i as int).push(v@[i as int]@));
        }
        r.push(s);
        i = i + 1;
    }
    assert(texts(v@).take(v@.len() as int) =~= texts(v@));
    r
}

} // verus!
