//! Character-level helpers over `&str`, specified on `Seq<char>`.
//!
//! Text is scanned as a `Vec<char>`; every function here states its result
//! over the sequence of characters that the vector holds.

use vstd::prelude::*;

verus! {

broadcast use vstd::string::group_string_axioms;

/// `String::push` appends one character.
pub assume_specification[ String::push ](s: &mut String, ch: char)
    ensures
        final(s)@ == old(s)@.push(ch),
;

/// Index of the first `c` in `s`, or `s.len()` where `s` holds none.
pub open spec fn position(s: Seq<char>, c: char) -> int
    decreases s.len(),
{
    if s.len() == 0 {
        0
    } else if s[0] == c {
        0
    } else {
        1 + position(s.drop_first(), c)
    }
}

/// The pieces of `s` between occurrences of `sep`; never empty.
pub open spec fn split(s: Seq<char>, sep: char) -> Seq<Seq<char>>
    decreases s.len(),
{
    let i = position(s, sep);
    if 0 <= i < s.len() {
        seq![s.take(i)] + split(s.skip(i + 1), sep)
    } else {
        seq![s]
    }
}

/// Number of leading characters of `s` that satisfy `p`.
pub open spec fn leading(s: Seq<char>, p: spec_fn(char) -> bool) -> nat
    decreases s.len(),
{
    if s.len() > 0 && p(s[0]) {
        1 + leading(s.drop_first(), p)
    } else {
        0
    }
}

/// Number of trailing characters of `s` that satisfy `p`.
pub open spec fn trailing(s: Seq<char>, p: spec_fn(char) -> bool) -> nat
    decreases s.len(),
{
    if s.len() > 0 && p(s.last()) {
        1 + trailing(s.drop_last(), p)
    } else {
        0
    }
}

/// `s` without its leading characters that satisfy `p`.
pub open spec fn trim_start(s: Seq<char>, p: spec_fn(char) -> bool) -> Seq<char> {
    s.skip(leading(s, p) as int)
}

/// `s` without its trailing characters that satisfy `p`.
pub open spec fn trim_end(s: Seq<char>, p: spec_fn(char) -> bool) -> Seq<char> {
    s.take(s.len() - trailing(s, p))
}

/// The Unicode `White_Space` code points.
pub open spec fn is_space(c: char) -> bool {
    let n = c as u32;
    ||| 0x09 <= n <= 0x0D
    ||| n == 0x20
    ||| n == 0x85
    ||| n == 0xA0
    ||| n == 0x1680
    ||| 0x2000 <= n <= 0x200A
    ||| n == 0x2028
    ||| n == 0x2029
    ||| n == 0x202F
    ||| n == 0x205F
    ||| n == 0x3000
}

/// The predicate that holds of white space.
pub open spec fn space() -> spec_fn(char) -> bool {
    |c: char| is_space(c)
}

/// The predicate that holds of `c` alone.
pub open spec fn only(c: char) -> spec_fn(char) -> bool {
    |x: char| x == c
}

/// `s` without white space at either end.
pub open spec fn trim(s: Seq<char>) -> Seq<char> {
    trim_end(trim_start(s, space()), space())
}

/// Whether `pat` occurs in `s` as a contiguous run.
pub open spec fn contains(s: Seq<char>, pat: Seq<char>) -> bool {
    exists|i: int| 0 <= i <= s.len() - pat.len() && #[trigger] s.subrange(i, i + pat.len()) == pat
}

/// Whether `s` ends with `pat`.
pub open spec fn ends_with(s: Seq<char>, pat: Seq<char>) -> bool {
    pat.len() <= s.len() && s.skip(s.len() - pat.len()) == pat
}

/// `s` with every trailing repetition of `pat` removed; `s` itself where
/// `pat` is empty.
pub open spec fn strip_suffixes(s: Seq<char>, pat: Seq<char>) -> Seq<char>
    decreases s.len(),
{
    if pat.len() > 0 && ends_with(s, pat) {
        strip_suffixes(s.take(s.len() - pat.len()), pat)
    } else {
        s
    }
}

/// The views of a vector of character vectors, in order.
pub open spec fn views(parts: Seq<Vec<char>>) -> Seq<Seq<char>> {
    Seq::new(parts.len(), |i: int| parts[i]@)
}

/// The position lies within `s` or at its end, no `c` stands before it,
/// and where it lies within `s` a `c` stands at it.
pub proof fn lemma_position_bounds(s: Seq<char>, c: char)
    ensures
        0 <= position(s, c) <= s.len(),
        forall|j: int| 0 <= j < position(s, c) ==> s[j] != c,
        position(s, c) < s.len() ==> s[position(s, c)] == c,
    decreases s.len(),
{
    if s.len() > 0 && s[0] != c {
        let rest = s.drop_first();
        lemma_position_bounds(rest, c);
        assert forall|j: int| 0 <= j < position(s, c) implies s[j] != c by {
            if j > 0 {
                assert(s[j] == rest[j - 1]);
            }
        }
    }
}

/// An index with no `c` before it that holds a `c`, or is the end of `s`,
/// is the position of `c`.
pub proof fn lemma_position_is(s: Seq<char>, c: char, k: int)
    requires
        0 <= k <= s.len(),
        forall|j: int| 0 <= j < k ==> s[j] != c,
        k < s.len() ==> s[k] == c,
    ensures
        position(s, c) == k,
    decreases s.len(),
{
    if s.len() > 0 && k > 0 {
        let rest = s.drop_first();
        assert forall|j: int| 0 <= j < k - 1 implies rest[j] != c by {
            assert(rest[j] == s[j + 1]);
        }
        lemma_position_is(rest, c, k - 1);
    }
}

/// A text that holds no `c` has its position of `c` at its end.
pub proof fn lemma_position_absent(s: Seq<char>, c: char)
    requires
        !s.contains(c),
    ensures
        position(s, c) == s.len(),
{
    lemma_position_is(s, c, s.len() as int);
}

/// The first `c` of `before + c + after` follows `before`, where `before`
/// holds none.
pub proof fn lemma_position_after(before: Seq<char>, c: char, after: Seq<char>)
    requires
        !before.contains(c),
    ensures
        position(before + seq![c] + after, c) == before.len(),
{
    let s = before + seq![c] + after;
    assert forall|j: int| 0 <= j < before.len() implies s[j] != c by {
        assert(s[j] == before[j]);
        assert(before.contains(before[j]));
    }
    assert(s[before.len() as int] == c);
    lemma_position_is(s, c, before.len() as int);
}

/// A text without separator is its own single piece.
pub proof fn lemma_split_whole(s: Seq<char>, sep: char)
    requires
        !s.contains(sep),
    ensures
        split(s, sep) == seq![s],
{
    lemma_position_absent(s, sep);
}

/// The first piece of `before + sep + after` is `before`, where `before`
/// holds no separator; the other pieces are those of `after`.
pub proof fn lemma_split_first(before: Seq<char>, sep: char, after: Seq<char>)
    requires
        !before.contains(sep),
    ensures
        split(before + seq![sep] + after, sep) == seq![before] + split(after, sep),
{
    let s = before + seq![sep] + after;
    lemma_position_after(before, sep, after);
    assert(s.take(before.len() as int) =~= before);
    assert(s.skip(before.len() as int + 1) =~= after);
}

/// Trimming takes a run of white space off the front of a text that
/// neither starts nor ends with white space, and changes nothing else.
pub proof fn lemma_trim_padded(pad: Seq<char>, s: Seq<char>)
    requires
        forall|j: int| 0 <= j < pad.len() ==> is_space(#[trigger] pad[j]),
        s.len() > 0,
        !is_space(s[0]),
        !is_space(s.last()),
    ensures
        trim(pad + s) == s,
{
    let whole = pad + s;
    assert forall|j: int| 0 <= j < pad.len() implies space()(whole[j]) by {
        assert(whole[j] == pad[j]);
    }
    assert(whole[pad.len() as int] == s[0]);
    lemma_leading_is(whole, space(), pad.len() as int);
    assert(whole.skip(pad.len() as int) =~= s);
    lemma_trailing_is(s, space(), 0);
    assert(s.take(s.len() as int) =~= s);
}

/// Splitting gives at least one piece.
pub proof fn lemma_split_nonempty(s: Seq<char>, sep: char)
    ensures
        split(s, sep).len() > 0,
    decreases s.len(),
{
    let i = position(s, sep);
    if 0 <= i < s.len() {
        lemma_split_nonempty(s.skip(i + 1), sep);
    }
}

/// A run of `k` characters that satisfy `p` at the start of `s`, followed
/// by one that does not or by the end, is the leading run.
pub proof fn lemma_leading_is(s: Seq<char>, p: spec_fn(char) -> bool, k: int)
    requires
        0 <= k <= s.len(),
        forall|j: int| 0 <= j < k ==> p(s[j]),
        k < s.len() ==> !p(s[k]),
    ensures
        leading(s, p) == k,
    decreases s.len(),
{
    if k > 0 {
        let rest = s.drop_first();
        assert forall|j: int| 0 <= j < k - 1 implies p(rest[j]) by {
            assert(rest[j] == s[j + 1]);
        }
        lemma_leading_is(rest, p, k - 1);
    }
}

/// A run of `k` characters that satisfy `p` at the end of `s`, preceded by
/// one that does not or by the start, is the trailing run.
pub proof fn lemma_trailing_is(s: Seq<char>, p: spec_fn(char) -> bool, k: int)
    requires
        0 <= k <= s.len(),
        forall|j: int| s.len() - k <= j < s.len() ==> p(s[j]),
        k < s.len() ==> !p(s[s.len() - k - 1]),
    ensures
        trailing(s, p) == k,
    decreases s.len(),
{
    if k > 0 {
        let rest = s.drop_last();
        assert forall|j: int| rest.len() - (k - 1) <= j < rest.len() implies p(rest[j]) by {
            assert(rest[j] == s[j]);
        }
        lemma_trailing_is(rest, p, k - 1);
    }
}

/// The characters of `s`, in order.
pub fn to_chars(s: &str) -> (v: Vec<char>)
    ensures
        v@ == s@,
{
    let mut v: Vec<char> = Vec::new();
    for c in it: s.chars()
        invariant
            it.seq() == s@,
            v@ == s@.take(it.index()),
    {
        assert(c == it.seq()[it.index()]);
        assert(s@.take(it.index() + 1) =~= s@.take(it.index()).push(c));
        v.push(c);
    }
    assert(s@.take(s@.len() as int) =~= s@);
    v
}

/// The string that holds the characters of `v`.
pub fn to_string(v: &Vec<char>) -> (s: String)
    ensures
        s@ == v@,
{
    let mut s = String::new();
    let mut i: usize = 0;
    while i < v.len()
        invariant
            i <= v.len(),
            s@ == v@.take(i as int),
        decreases v.len() - i,
    {
        assert(v@.take(i + 1) =~= v@.take(i as int).push(v@[i as int]));
        s.push(v[i]);
        i = i + 1;
    }
    assert(v@.take(v@.len() as int) =~= v@);
    s
}

/// A copy of `v[from..to]`.
pub(crate) fn copy_range(v: &Vec<char>, from: usize, to: usize) -> (r: Vec<char>)
    requires
        from <= to <= v.len(),
    ensures
        r@ == v@.subrange(from as int, to as int),
{
    let mut r: Vec<char> = Vec::new();
    let mut i: usize = from;
    while i < to
        invariant
            from <= i <= to <= v.len(),
            r@ == v@.subrange(from as int, i as int),
        decreases to - i,
    {
        assert(v@.subrange(from as int, i + 1) =~= v@.subrange(from as int, i as int).push(
            v@[i as int],
        ));
        r.push(v[i]);
        i = i + 1;
    }
    r
}

/// Index of the first `c` at or after `start`, or `v.len()`.
pub(crate) fn find_from(v: &Vec<char>, start: usize, c: char) -> (k: usize)
    requires
        start <= v.len(),
    ensures
        start <= k <= v.len(),
        k == start + position(v@.skip(start as int), c),
{
    let mut k: usize = start;
    while k < v.len() && v[k] != c
        invariant
            start <= k <= v.len(),
            forall|j: int| start <= j < k ==> v@[j] != c,
        decreases v.len() - k,
    {
        k = k + 1;
    }
    proof {
        lemma_position_is(v@.skip(start as int), c, k - start);
    }
    k
}

/// Whether `v` holds `c`.
pub fn has_char(v: &Vec<char>, c: char) -> (b: bool)
    ensures
        b == v@.contains(c),
{
    let k = find_from(v, 0, c);
    proof {
        assert(v@.skip(0) =~= v@);
        lemma_position_bounds(v@, c);
    }
    k < v.len()
}

/// The pieces of `v` between occurrences of `sep`.
pub fn split_on(v: &Vec<char>, sep: char) -> (parts: Vec<Vec<char>>)
    ensures
        views(parts@) == split(v@, sep),
{
    let mut parts: Vec<Vec<char>> = Vec::new();
    let mut start: usize = 0;
    assert(v@.skip(0) =~= v@);
    assert(views(parts@) =~= Seq::<Seq<char>>::empty());
    loop
        invariant_except_break
            start <= v.len(),
            split(v@, sep) == views(parts@) + split(v@.skip(start as int), sep),
        ensures
            views(parts@) == split(v@, sep),
        decreases v.len() - start,
    {
        let k = find_from(v, start, sep);
        let piece = copy_range(v, start, k);
        let ghost rest = v@.skip(start as int);
        let ghost before = views(parts@);
        parts.push(piece);
        assert(views(parts@) =~= before.push(piece@));
        if k >= v.len() {
            proof {
                assert(rest =~= piece@);
                assert(split(rest, sep) == seq![rest]);
                assert(before + seq![rest] =~= before.push(rest));
            }
            break ;
        }
        proof {
            assert(rest.take(k - start) =~= piece@);
            assert(rest.skip(k - start + 1) =~= v@.skip(k + 1));
            assert(split(rest, sep) == seq![piece@] + split(v@.skip(k + 1), sep));
            assert(before + (seq![piece@] + split(v@.skip(k + 1), sep)) =~= before.push(piece@)
                + split(v@.skip(k + 1), sep));
        }
        start = k + 1;
    }
    parts
}

/// Whether `c` is white space.
pub fn is_whitespace(c: char) -> (b: bool)
    ensures
        b == is_space(c),
{
    let n: u32 = c as u32;
    (0x09 <= n && n <= 0x0D) || n == 0x20 || n == 0x85 || n == 0xA0 || n == 0x1680 || (0x2000 <= n
        && n <= 0x200A) || n == 0x2028 || n == 0x2029 || n == 0x202F || n == 0x205F || n == 0x3000
}

/// `v` without white space at either end.
pub fn trim_chars(v: &Vec<char>) -> (r: Vec<char>)
    ensures
        r@ == trim(v@),
{
    let ghost p = space();
    let mut a: usize = 0;
    while a < v.len() && is_whitespace(v[a])
        invariant
            a <= v.len(),
            forall|j: int| 0 <= j < a ==> is_space(v@[j]),
        decreases v.len() - a,
    {
        a = a + 1;
    }
    let mut b: usize = v.len();
    while b > a && is_whitespace(v[b - 1])
        invariant
            a <= b <= v.len(),
            forall|j: int| b <= j < v.len() ==> is_space(v@[j]),
        decreases b,
    {
        b = b - 1;
    }
    proof {
        lemma_leading_is(v@, p, a as int);
        let t = v@.skip(a as int);
        assert(t == trim_start(v@, p));
        assert forall|j: int| t.len() - (v.len() - b) <= j < t.len() implies p(t[j]) by {
            assert(t[j] == v@[j + a]);
        }
        lemma_trailing_is(t, p, v.len() - b);
        assert(t.take(t.len() - (v.len() - b)) =~= v@.subrange(a as int, b as int));
    }
    copy_range(v, a, b)
}

/// `v` without its leading run of `c`.
pub fn trim_start_char(v: &Vec<char>, c: char) -> (r: Vec<char>)
    ensures
        r@ == trim_start(v@, only(c)),
{
    let ghost p = only(c);
    let mut a: usize = 0;
    while a < v.len() && v[a] == c
        invariant
            a <= v.len(),
            forall|j: int| 0 <= j < a ==> v@[j] == c,
        decreases v.len() - a,
    {
        a = a + 1;
    }
    proof {
        lemma_leading_is(v@, p, a as int);
        assert(v@.skip(a as int) =~= v@.subrange(a as int, v.len() as int));
    }
    copy_range(v, a, v.len())
}

/// `v` without its trailing run of `c`.
pub fn trim_end_char(v: &Vec<char>, c: char) -> (r: Vec<char>)
    ensures
        r@ == trim_end(v@, only(c)),
{
    let ghost p = only(c);
    let mut b: usize = v.len();
    while b > 0 && v[b - 1] == c
        invariant
            b <= v.len(),
            forall|j: int| b <= j < v.len() ==> v@[j] == c,
        decreases b,
    {
        b = b - 1;
    }
    proof {
        lemma_trailing_is(v@, p, v.len() - b);
        assert(v@.take(b as int) =~= v@.subrange(0, b as int));
    }
    copy_range(v, 0, b)
}

/// Whether `v[at..]` starts with `pat`.
pub(crate) fn matches_at(v: &Vec<char>, at: usize, pat: &Vec<char>) -> (b: bool)
    requires
        at + pat.len() <= v.len(),
    ensures
        b == (v@.subrange(at as int, at + pat.len()) == pat@),
{
    let mut j: usize = 0;
    while j < pat.len()
        invariant
            j <= pat.len(),
            at + pat.len() <= v.len(),
            forall|t: int| 0 <= t < j ==> v@[at + t] == pat@[t],
        decreases pat.len() - j,
    {
        if v[at + j] != pat[j] {
            assert(v@.subrange(at as int, at + pat.len())[j as int] != pat@[j as int]);
            return false;
        }
        j = j + 1;
    }
    assert(v@.subrange(at as int, at + pat.len()) =~= pat@);
    true
}

/// Whether `pat` occurs in `v`.
pub fn contains_chars(v: &Vec<char>, pat: &Vec<char>) -> (b: bool)
    ensures
        b == contains(v@, pat@),
{
    if pat.len() > v.len() {
        return false;
    }
    let last: usize = v.len() - pat.len();
    let mut i: usize = 0;
    loop
        invariant
            last == v.len() - pat.len(),
            i <= last,
            forall|t: int| 0 <= t < i ==> #[trigger] v@.subrange(t, t + pat.len()) != pat@,
        decreases last - i,
    {
        if matches_at(v, i, pat) {
            return true;
        }
        if i == last {
            return false;
        }
        i = i + 1;
    }
}

/// Whether `v` and `w` hold the same characters.
pub fn same_chars(v: &Vec<char>, w: &Vec<char>) -> (b: bool)
    ensures
        b == (v@ == w@),
{
    if v.len() != w.len() {
        return false;
    }
    let b = matches_at(v, 0, w);
    assert(v@.subrange(0, w.len() as int) =~= v@);
    b
}

/// `v` with every trailing repetition of `pat` removed; `v` itself where
/// `pat` is empty.
pub fn strip_suffixes_chars(v: &Vec<char>, pat: &Vec<char>) -> (r: Vec<char>)
    ensures
        r@ == strip_suffixes(v@, pat@),
{
    if pat.len() == 0 {
        assert(v@.subrange(0, v.len() as int) =~= v@);
        return copy_range(v, 0, v.len());
    }
    let mut b: usize = v.len();
    assert(v@.take(v.len() as int) =~= v@);
    while b >= pat.len() && matches_at(v, b - pat.len(), pat)
        invariant
            b <= v.len(),
            pat.len() > 0,
            strip_suffixes(v@, pat@) == strip_suffixes(v@.take(b as int), pat@),
        decreases b,
    {
        proof {
            let s = v@.take(b as int);
            assert(s.skip(s.len() - pat.len()) =~= v@.subrange(b - pat.len(), b as int));
            assert(s.take(s.len() - pat.len()) =~= v@.take(b - pat.len()));
        }
        b = b - pat.len();
    }
    proof {
        let s = v@.take(b as int);
        if b >= pat.len() {
            assert(s.skip(s.len() - pat.len()) =~= v@.subrange(b - pat.len(), b as int));
        }
        assert(s =~= v@.subrange(0, b as int));
    }
    copy_range(v, 0, b)
}

/// The character of one decimal digit.
pub open spec fn digit(d: nat) -> char {
    if d == 0 {
        '0'
    } else if d == 1 {
        '1'
    } else if d == 2 {
        '2'
    } else if d == 3 {
        '3'
    } else if d == 4 {
        '4'
    } else if d == 5 {
        '5'
    } else if d == 6 {
        '6'
    } else if d == 7 {
        '7'
    } else if d == 8 {
        '8'
    } else {
        '9'
    }
}

/// The decimal numeral of `n`, without leading zeros.
pub open spec fn decimal(n: nat) -> Seq<char>
    decreases n,
{
    if n < 10 {
        seq![digit(n)]
    } else {
        decimal(n / 10).push(digit(n % 10))
    }
}

/// The character of the decimal digit `d`.
pub(crate) fn digit_char(d: u64) -> (c: char)
    requires
        d < 10,
    ensures
        c == digit(d as nat),
{
    if d == 0 {
        '0'
    } else if d == 1 {
        '1'
    } else if d == 2 {
        '2'
    } else if d == 3 {
        '3'
    } else if d == 4 {
        '4'
    } else if d == 5 {
        '5'
    } else if d == 6 {
        '6'
    } else if d == 7 {
        '7'
    } else if d == 8 {
        '8'
    } else {
        '9'
    }
}

/// Appends the decimal numeral of `n` to `out`.
pub(crate) fn push_decimal(out: &mut Vec<char>, n: u64)
    ensures
        final(out)@ == old(out)@ + decimal(n as nat),
    decreases n,
{
    if n < 10 {
        out.push(digit_char(n));
        assert(out@ =~= old(out)@ + decimal(n as nat));
    } else {
        push_decimal(out, n / 10);
        out.push(digit_char(n % 10));
        assert(out@ =~= old(out)@ + decimal(n as nat));
    }
}

/// The decimal numeral of `n`.
pub fn decimal_string(n: u64) -> (s: String)
    ensures
        s@ == decimal(n as nat),
{
    let mut digits: Vec<char> = Vec::new();
    push_decimal(&mut digits, n);
    assert(digits@ =~= decimal(n as nat));
    to_string(&digits)
}

} // verus!
