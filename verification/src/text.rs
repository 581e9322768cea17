//! Character-level text model shared by every parser and formatter.
//!
//! Text is modelled as `Seq<char>`. The spec functions here state what the
//! standard string operations the tool relies on compute (`trim`, `lines`,
//! `split`, decimal `parse`/`to_string`, ...); the executable functions compute
//! them on `Vec<char>` and are proved against those statements.

use vstd::prelude::*;

verus! {

// ---------------------------------------------------------------------------
// Specifications
// ---------------------------------------------------------------------------

/// Unicode `White_Space`, the set that `char::is_whitespace` and `str::trim` use.
pub open spec fn is_ws(c: char) -> bool {
    ||| ('\u{9}' <= c && c <= '\u{d}')
    ||| c == ' '
    ||| c == '\u{85}'
    ||| c == '\u{a0}'
    ||| c == '\u{1680}'
    ||| ('\u{2000}' <= c && c <= '\u{200a}')
    ||| c == '\u{2028}'
    ||| c == '\u{2029}'
    ||| c == '\u{202f}'
    ||| c == '\u{205f}'
    ||| c == '\u{3000}'
}

/// `s` without its leading whitespace.
pub open spec fn trim_start(s: Seq<char>) -> Seq<char>
    decreases s.len(),
{
    if s.len() > 0 && is_ws(s[0]) {
        trim_start(s.drop_first())
    } else {
        s
    }
}

/// `s` without its trailing whitespace.
pub open spec fn trim_end(s: Seq<char>) -> Seq<char>
    decreases s.len(),
{
    if s.len() > 0 && is_ws(s.last()) {
        trim_end(s.drop_last())
    } else {
        s
    }
}

/// `str::trim`: `s` without leading and trailing whitespace.
pub open spec fn trim(s: Seq<char>) -> Seq<char> {
    trim_end(trim_start(s))
}

/// `str::split(sep)`: the pieces of `s` between occurrences of `sep`. There is
/// always at least one piece; the empty text has the single piece `""`.
pub open spec fn split(s: Seq<char>, sep: char) -> Seq<Seq<char>>
    decreases s.len(),
{
    if s.len() == 0 {
        seq![Seq::<char>::empty()]
    } else {
        let p = split(s.drop_last(), sep);
        if s.last() == sep {
            p.push(Seq::<char>::empty())
        } else {
            p.update(p.len() - 1, p.last().push(s.last()))
        }
    }
}

/// A line followed by `\n` loses one trailing `\r`.
pub open spec fn strip_cr(l: Seq<char>) -> Seq<char> {
    if l.len() > 0 && l.last() == '\r' {
        l.drop_last()
    } else {
        l
    }
}

/// `str::lines`: lines end at `\n` or `\r\n`; the final line ending is
/// optional, and a bare `\r` at the very end is kept.
pub open spec fn lines(s: Seq<char>) -> Seq<Seq<char>> {
    let p = split(s, '\n');
    let body = Seq::new((p.len() - 1) as nat, |k: int| strip_cr(p[k]));
    if p.last().len() == 0 {
        body
    } else {
        body.push(p.last())
    }
}

/// `s` begins with `p`.
pub open spec fn starts_with(s: Seq<char>, p: Seq<char>) -> bool {
    p.len() <= s.len() && s.take(p.len() as int) == p
}

/// `p` occurs in `s` at position `i`.
pub open spec fn occurs_at(s: Seq<char>, p: Seq<char>, i: int) -> bool {
    0 <= i && i + p.len() <= s.len() && s.subrange(i, i + p.len()) == p
}

/// `p` occurs somewhere in `s`.
pub open spec fn contains(s: Seq<char>, p: Seq<char>) -> bool {
    exists|i: int| occurs_at(s, p, i)
}

/// ASCII lower-casing of one character (other characters are unchanged).
pub open spec fn ascii_lower(c: char) -> char {
    if 'A' <= c && c <= 'Z' {
        ((c as u32) + 32) as char
    } else {
        c
    }
}

/// ASCII lower-casing of a text (`to_ascii_lowercase`).
pub open spec fn lower(s: Seq<char>) -> Seq<char> {
    s.map_values(|c: char| ascii_lower(c))
}

/// An ASCII decimal digit.
pub open spec fn is_digit(c: char) -> bool {
    '0' <= c && c <= '9'
}

/// The value of an ASCII decimal digit.
pub open spec fn digit_value(c: char) -> nat {
    ((c as u32) - ('0' as u32)) as nat
}

/// Every character of `s` is a decimal digit.
pub open spec fn all_digits(s: Seq<char>) -> bool {
    forall|i: int| 0 <= i < s.len() ==> is_digit(#[trigger] s[i])
}

/// The number that a run of decimal digits denotes.
pub open spec fn digits_value(s: Seq<char>) -> nat
    decreases s.len(),
{
    if s.len() == 0 {
        0
    } else {
        digits_value(s.drop_last()) * 10 + digit_value(s.last())
    }
}

/// The digits of an unsigned integer literal: `s` without one leading `+`.
pub open spec fn unsigned_body(s: Seq<char>) -> Seq<char> {
    if s.len() > 0 && s[0] == '+' {
        s.drop_first()
    } else {
        s
    }
}

/// `str::parse` for an unsigned integer type whose largest value is `max`:
/// an optional `+`, then at least one decimal digit, and no overflow.
pub open spec fn parse_unsigned(s: Seq<char>, max: nat) -> Option<nat> {
    let d = unsigned_body(s);
    if d.len() > 0 && all_digits(d) && digits_value(d) <= max {
        Some(digits_value(d))
    } else {
        None
    }
}

/// `str::parse::<u32>`.
pub open spec fn parse_u32(s: Seq<char>) -> Option<u32> {
    match parse_unsigned(s, u32::MAX as nat) {
        Some(v) => Some(v as u32),
        None => None,
    }
}

/// `str::parse::<u8>`.
pub open spec fn parse_u8(s: Seq<char>) -> Option<u8> {
    match parse_unsigned(s, 255) {
        Some(v) => Some(v as u8),
        None => None,
    }
}

/// `str::parse::<i32>`: an optional sign, then at least one decimal digit,
/// within `i32::MIN..=i32::MAX`.
pub open spec fn parse_i32(s: Seq<char>) -> Option<i32> {
    if s.len() > 0 && s[0] == '-' {
        let d = s.drop_first();
        if d.len() > 0 && all_digits(d) && digits_value(d) <= 2147483648 {
            Some((-(digits_value(d) as int)) as i32)
        } else {
            None
        }
    } else {
        match parse_unsigned(s, 2147483647) {
            Some(v) => Some(v as i32),
            None => None,
        }
    }
}

/// The character of a decimal digit value.
pub open spec fn digit_char(d: nat) -> char {
    (('0' as u32) + d) as char
}

/// `to_string` of an unsigned integer: its decimal digits, no leading zeros.
pub open spec fn decimal(n: nat) -> Seq<char>
    decreases n,
{
    if n < 10 {
        seq![digit_char(n)]
    } else {
        decimal(n / 10).push(digit_char(n % 10))
    }
}

/// `join(sep)` of a list of texts.
pub open spec fn join(parts: Seq<Seq<char>>, sep: Seq<char>) -> Seq<char>
    decreases parts.len(),
{
    if parts.len() == 0 {
        Seq::<char>::empty()
    } else if parts.len() == 1 {
        parts[0]
    } else {
        join(parts.drop_last(), sep) + sep + parts.last()
    }
}

/// `c` occurs in `s`.
pub open spec fn has_char(s: Seq<char>, c: char) -> bool {
    exists|i: int| 0 <= i < s.len() && s[i] == c
}

/// `k` is the position of the first `c` in `s`.
pub open spec fn is_first(s: Seq<char>, c: char, k: int) -> bool {
    &&& 0 <= k < s.len()
    &&& s[k] == c
    &&& forall|j: int| 0 <= j < k ==> s[j] != c
}

/// `k` is the position of the last `c` in `s`.
pub open spec fn is_last(s: Seq<char>, c: char, k: int) -> bool {
    &&& 0 <= k < s.len()
    &&& s[k] == c
    &&& forall|j: int| k < j < s.len() ==> s[j] != c
}

/// `str::find(c)`: the position of the first `c` in `s`.
pub open spec fn first_index(s: Seq<char>, c: char) -> int {
    choose|k: int| is_first(s, c, k)
}

/// `str::rfind(c)`: the position of the last `c` in `s`.
pub open spec fn last_index(s: Seq<char>, c: char) -> int {
    choose|k: int| is_last(s, c, k)
}

/// `str::split_once(c)`: the text before and after the first `c`.
pub open spec fn split_once(s: Seq<char>, c: char) -> Option<(Seq<char>, Seq<char>)> {
    if has_char(s, c) {
        let k = first_index(s, c);
        Some((s.take(k), s.skip(k + 1)))
    } else {
        None
    }
}

// ---------------------------------------------------------------------------
// Conversions
// ---------------------------------------------------------------------------

/// Appends one character to a `String` (`String::push`).
#[verifier::external_body]
fn push_char(s: &mut String, c: char)
    ensures
        final(s)@ == old(s)@.push(c),
{
    s.push(c);
}

/// The characters of `s`, in order.
pub fn chars_of(s: &str) -> (v: Vec<char>)
    ensures
        v@ == s@,
{
    broadcast use vstd::string::group_string_axioms;

    let mut v: Vec<char> = Vec::new();
    for c in it: s.chars()
        invariant
            it.seq() == s@,
            v@ == it.seq().take(it.index()),
    {
        v.push(c);
    }
    v
}

/// Appends the characters of `v` to `s`.
pub fn push_chars(s: &mut String, v: &[char])
    ensures
        final(s)@ == old(s)@ + v@,
{
    let mut i: usize = 0;
    while i < v.len()
        invariant
            i <= v@.len(),
            s@ == old(s)@ + v@.subrange(0, i as int),
        decreases v@.len() - i,
    {
        push_char(s, v[i]);
        i = i + 1;
        assert(v@.subrange(0, i as int) == v@.subrange(0, i - 1).push(v@[i - 1]));
    }
    assert(v@.subrange(0, v@.len() as int) == v@);
}

/// A `String` holding exactly the characters of `v`.
pub fn string_of(v: &[char]) -> (s: String)
    ensures
        s@ == v@,
{
    let mut s = String::new();
    push_chars(&mut s, v);
    s
}

/// The characters `v[from..to]`.
pub fn slice_of(v: &[char], from: usize, to: usize) -> (r: Vec<char>)
    requires
        from <= to <= v@.len(),
    ensures
        r@ == v@.subrange(from as int, to as int),
{
    let mut r: Vec<char> = Vec::new();
    let mut i = from;
    while i < to
        invariant
            from <= i <= to <= v@.len(),
            r@ == v@.subrange(from as int, i as int),
        decreases to - i,
    {
        r.push(v[i]);
        i = i + 1;
        assert(r@ == v@.subrange(from as int, i as int));
    }
    r
}


/// The texts held by a list of character vectors.
pub open spec fn views(vv: Seq<Vec<char>>) -> Seq<Seq<char>> {
    vv.map_values(|v: Vec<char>| v@)
}

// ---------------------------------------------------------------------------
// Trimming
// ---------------------------------------------------------------------------

proof fn lemma_trim_start_step(s: Seq<char>, i: int)
    requires
        0 <= i < s.len(),
        is_ws(s[i]),
    ensures
        trim_start(s.skip(i)) == trim_start(s.skip(i + 1)),
{
    assert(s.skip(i).drop_first() =~= s.skip(i + 1));
}

proof fn lemma_trim_end_step(s: Seq<char>, j: int)
    requires
        0 < j <= s.len(),
        is_ws(s[j - 1]),
    ensures
        trim_end(s.take(j)) == trim_end(s.take(j - 1)),
{
    assert(s.take(j).drop_last() =~= s.take(j - 1));
}

/// The bounds `(a, b)` of the trimmed part of `v`: `v[a..b] == trim(v)`.
pub fn trim_bounds(v: &[char]) -> (r: (usize, usize))
    ensures
        r.0 <= r.1 <= v@.len(),
        v@.subrange(r.0 as int, r.1 as int) == trim(v@),
{
    let n = v.len();
    let mut a: usize = 0;
    assert(v@.skip(0) =~= v@);
    while a < n && is_ws_exec(v[a])
        invariant
            a <= n == v@.len(),
            trim_start(v@) == trim_start(v@.skip(a as int)),
        decreases n - a,
    {
        proof {
            lemma_trim_start_step(v@, a as int);
        }
        a = a + 1;
    }
    let ghost t = v@.skip(a as int);
    assert(trim_start(v@) == t);
    let mut b: usize = n;
    assert(t.take(t.len() as int) =~= t);
    while b > a && is_ws_exec(v[b - 1])
        invariant
            a <= b <= n == v@.len(),
            t == v@.skip(a as int),
            trim_end(t) == trim_end(t.take(b - a)),
        decreases b,
    {
        proof {
            lemma_trim_end_step(t, (b - a) as int);
            assert(t[b - a - 1] == v@[b - 1]);
        }
        b = b - 1;
    }
    assert(t.take(b - a) =~= v@.subrange(a as int, b as int));
    (a, b)
}

/// `char::is_whitespace`.
pub fn is_ws_exec(c: char) -> (b: bool)
    ensures
        b == is_ws(c),
{
    ('\u{9}' <= c && c <= '\u{d}') || c == ' ' || c == '\u{85}' || c == '\u{a0}' || c
        == '\u{1680}' || ('\u{2000}' <= c && c <= '\u{200a}') || c == '\u{2028}' || c
        == '\u{2029}' || c == '\u{202f}' || c == '\u{205f}' || c == '\u{3000}'
}

/// `trim` of `v`.
pub fn trimmed(v: &[char]) -> (r: Vec<char>)
    ensures
        r@ == trim(v@),
{
    let (a, b) = trim_bounds(v);
    slice_of(v, a, b)
}

// ---------------------------------------------------------------------------
// Splitting
// ---------------------------------------------------------------------------

/// `split(sep)` of `v`.
pub fn split_chars(v: &[char], sep: char) -> (r: Vec<Vec<char>>)
    ensures
        views(r@) == split(v@, sep),
{
    let mut pieces: Vec<Vec<char>> = Vec::new();
    let mut cur: Vec<char> = Vec::new();
    let mut i: usize = 0;
    assert(v@.take(0) =~= Seq::<char>::empty());
    assert(views(pieces@).push(cur@) =~= split(v@.take(0), sep));
    while i < v.len()
        invariant
            i <= v@.len(),
            views(pieces@).push(cur@) == split(v@.take(i as int), sep),
        decreases v@.len() - i,
    {
        let c = v[i];
        let ghost before = views(pieces@).push(cur@);
        assert(v@.take(i + 1).drop_last() =~= v@.take(i as int));
        assert(v@.take(i + 1).last() == c);
        if c == sep {
            pieces.push(cur);
            cur = Vec::new();
            assert(views(pieces@).push(cur@) =~= before.push(Seq::<char>::empty()));
        } else {
            cur.push(c);
            assert(views(pieces@).push(cur@) =~= before.update(
                before.len() - 1,
                before.last().push(c),
            ));
        }
        i = i + 1;
    }
    assert(v@.take(v@.len() as int) =~= v@);
    pieces.push(cur);
    assert(views(pieces@) =~= split(v@, sep));
    pieces
}

proof fn lemma_split_nonempty(s: Seq<char>, sep: char)
    ensures
        split(s, sep).len() >= 1,
    decreases s.len(),
{
    if s.len() > 0 {
        lemma_split_nonempty(s.drop_last(), sep);
    }
}

/// `lines()` of `v`.
pub fn lines_of(v: &[char]) -> (r: Vec<Vec<char>>)
    ensures
        views(r@) == lines(v@),
{
    let pieces = split_chars(v, '\n');
    proof {
        lemma_split_nonempty(v@, '\n');
    }
    let ghost p = split(v@, '\n');
    let n = pieces.len();
    let mut out: Vec<Vec<char>> = Vec::new();
    let mut k: usize = 0;
    while k + 1 < n
        invariant
            1 <= n == pieces@.len() == p.len(),
            views(pieces@) == p,
            k <= n - 1,
            views(out@) == Seq::new(k as nat, |j: int| strip_cr(p[j])),
        decreases n - k,
    {
        let piece = &pieces[k];
        assert(piece@ == p[k as int]);
        let m = piece.len();
        let line = if m > 0 && piece[m - 1] == '\r' {
            slice_of(piece, 0, m - 1)
        } else {
            slice_of(piece, 0, m)
        };
        assert(line@ == strip_cr(p[k as int])) by {
            if m > 0 && piece@[m - 1] == '\r' {
                assert(piece@.drop_last() =~= piece@.subrange(0, m - 1));
            } else {
                assert(piece@ =~= piece@.subrange(0, m as int));
            }
        }
        let ghost before = views(out@);
        out.push(line);
        assert(views(out@) =~= before.push(line@));
        k = k + 1;
        assert(views(out@) =~= Seq::new(k as nat, |j: int| strip_cr(p[j])));
    }
    let last = &pieces[n - 1];
    assert(last@ == p.last());
    let ghost body = views(out@);
    assert(body =~= Seq::new((p.len() - 1) as nat, |j: int| strip_cr(p[j])));
    if last.len() > 0 {
        let l = slice_of(last, 0, last.len());
        assert(l@ =~= p.last());
        out.push(l);
        assert(views(out@) =~= body.push(p.last()));
    } else {
        assert(views(out@) =~= lines(v@));
    }
    out
}

// ---------------------------------------------------------------------------
// Matching
// ---------------------------------------------------------------------------

/// Whether `p` occurs in `v` at position `i`.
pub fn occurs_at_exec(v: &[char], p: &[char], i: usize) -> (b: bool)
    ensures
        b == occurs_at(v@, p@, i as int),
{
    if i > v.len() || p.len() > v.len() - i {
        return false;
    }
    let n = v.len();
    let mut k: usize = 0;
    while k < p.len()
        invariant
            n == v@.len(),
            i <= v@.len(),
            i + p@.len() <= v@.len(),
            k <= p@.len(),
            forall|j: int| 0 <= j < k ==> v@[i + j] == p@[j],
        decreases p@.len() - k,
    {
        if v[i + k] != p[k] {
            assert(v@.subrange(i as int, i + p@.len())[k as int] != p@[k as int]);
            return false;
        }
        k = k + 1;
    }
    assert(v@.subrange(i as int, i + p@.len()) =~= p@);
    true
}

/// `starts_with`.
pub fn starts_with_exec(v: &[char], p: &[char]) -> (b: bool)
    ensures
        b == starts_with(v@, p@),
{
    let r = occurs_at_exec(v, p, 0);
    assert(v@.subrange(0, p@.len() as int) =~= v@.take(p@.len() as int));
    r
}

/// `contains`.
pub fn contains_exec(v: &[char], p: &[char]) -> (b: bool)
    ensures
        b == contains(v@, p@),
{
    if p.len() > v.len() {
        assert(!contains(v@, p@)) by {
            assert forall|i: int| !occurs_at(v@, p@, i) by {}
        }
        return false;
    }
    let last = v.len() - p.len();
    let mut i: usize = 0;
    loop
        invariant
            p@.len() <= v@.len(),
            last == v@.len() - p@.len(),
            i <= last,
            forall|j: int| 0 <= j < i ==> !occurs_at(v@, p@, j),
        ensures
            forall|j: int| 0 <= j <= last ==> !occurs_at(v@, p@, j),
        decreases last - i,
    {
        if occurs_at_exec(v, p, i) {
            return true;
        }
        if i == last {
            break;
        }
        i = i + 1;
    }
    assert forall|j: int| !occurs_at(v@, p@, j) by {
        if 0 <= j <= last {
        }
    }
    false
}

/// ASCII lower-casing of `v`.
pub fn lower_exec(v: &[char]) -> (r: Vec<char>)
    ensures
        r@ == lower(v@),
{
    let mut r: Vec<char> = Vec::new();
    let mut i: usize = 0;
    while i < v.len()
        invariant
            i <= v@.len(),
            r@ == lower(v@.take(i as int)),
        decreases v@.len() - i,
    {
        let c = v[i];
        let l = if 'A' <= c && c <= 'Z' {
            char_add_32(c)
        } else {
            c
        };
        r.push(l);
        i = i + 1;
        assert(r@ =~= lower(v@.take(i as int)));
    }
    assert(v@.take(v@.len() as int) =~= v@);
    r
}

/// The lower-case ASCII letter of an upper-case one.
fn char_add_32(c: char) -> (r: char)
    requires
        'A' <= c && c <= 'Z',
    ensures
        r == ascii_lower(c),
{
    let code: u32 = (c as u32) + 32;
    let b: u8 = code as u8;
    b as char
}


// ---------------------------------------------------------------------------
// Numbers
// ---------------------------------------------------------------------------

proof fn lemma_digits_prefix(s: Seq<char>, k: int)
    requires
        all_digits(s),
        0 <= k <= s.len(),
    ensures
        digits_value(s.take(k)) <= digits_value(s),
    decreases s.len(),
{
    if k < s.len() {
        assert(s.drop_last().take(k) =~= s.take(k));
        assert(all_digits(s.drop_last()));
        lemma_digits_prefix(s.drop_last(), k);
    } else {
        assert(s.take(k) =~= s);
    }
}

/// `str::parse` into an unsigned integer whose largest value is `max`.
pub fn parse_unsigned_exec(v: &[char], max: u64) -> (r: Option<u64>)
    requires
        max <= u32::MAX,
    ensures
        match r {
            Some(x) => parse_unsigned(v@, max as nat) == Some(x as nat),
            None => parse_unsigned(v@, max as nat) is None,
        },
{
    let n = v.len();
    let start: usize = if n > 0 && v[0] == '+' {
        1
    } else {
        0
    };
    let ghost d = unsigned_body(v@);
    assert(d =~= v@.subrange(start as int, n as int));
    if start == n {
        return None;
    }
    let mut acc: u64 = 0;
    let mut i: usize = start;
    while i < n
        invariant
            n == v@.len(),
            start <= i <= n,
            d == v@.subrange(start as int, n as int),
            d == unsigned_body(v@),
            all_digits(d.take(i - start)),
            acc == digits_value(d.take(i - start)),
            acc <= max <= u32::MAX,
        decreases n - i,
    {
        let c = v[i];
        assert(d[i - start] == c);
        if !('0' <= c && c <= '9') {
            assert(!is_digit(d[i - start]));
            assert(!all_digits(d));
            return None;
        }
        let dv: u64 = (c as u32 - '0' as u32) as u64;
        let ghost next = d.take(i + 1 - start);
        assert(next.drop_last() =~= d.take(i - start));
        assert(next.last() == c);
        assert(digits_value(next) == digits_value(d.take(i - start)) * 10 + digit_value(c));
        acc = acc * 10 + dv;
        i = i + 1;
        assert(all_digits(d.take(i - start)));
        if acc > max {
            assert(d.take(i - start) == d.take(i - start));
            proof {
                if all_digits(d) {
                    lemma_digits_prefix(d, i - start);
                }
            }
            return None;
        }
    }
    assert(d.take(n - start) =~= d);
    Some(acc)
}

/// `str::parse::<u32>`.
pub fn parse_u32_exec(v: &[char]) -> (r: Option<u32>)
    ensures
        r == parse_u32(v@),
{
    match parse_unsigned_exec(v, 0xFFFF_FFFF) {
        Some(x) => Some(x as u32),
        None => None,
    }
}

/// The character of a decimal digit value.
fn digit_char_exec(d: u64) -> (c: char)
    requires
        d < 10,
    ensures
        c == digit_char(d as nat),
{
    let b: u8 = 48u8 + (d as u8);
    b as char
}

/// Appends the decimal digits of `n` to `s`.
pub fn push_decimal(s: &mut String, n: u64)
    ensures
        final(s)@ == old(s)@ + decimal(n as nat),
    decreases n,
{
    if n >= 10 {
        push_decimal(s, n / 10);
    }
    push_char(s, digit_char_exec(n % 10));
    proof {
        if n < 10 {
            assert(decimal(n as nat) == seq![digit_char(n as nat)]);
        }
    }
}

/// `to_string` of an unsigned integer.
pub fn decimal_string(n: u64) -> (s: String)
    ensures
        s@ == decimal(n as nat),
{
    let mut s = String::new();
    push_decimal(&mut s, n);
    s
}

// ---------------------------------------------------------------------------
// Joining
// ---------------------------------------------------------------------------

/// The texts held by a list of `String`s.
pub open spec fn string_views(v: Seq<String>) -> Seq<Seq<char>> {
    v.map_values(|x: String| x@)
}

/// `parts.join(sep)`.
pub fn join_strings(parts: &Vec<String>, sep: &str) -> (r: String)
    ensures
        r@ == join(string_views(parts@), sep@),
{
    let mut r = String::new();
    let mut i: usize = 0;
    let ghost all = string_views(parts@);
    assert(all.take(0) =~= Seq::<Seq<char>>::empty());
    while i < parts.len()
        invariant
            i <= parts@.len(),
            all == string_views(parts@),
            r@ == join(all.take(i as int), sep@),
        decreases parts@.len() - i,
    {
        assert(all.take(i + 1).drop_last() =~= all.take(i as int));
        assert(all.take(i + 1).last() == parts@[i as int]@);
        if i > 0 {
            r.append(sep);
        }
        r.append(parts[i].as_str());
        i = i + 1;
    }
    assert(all.take(parts@.len() as int) =~= all);
    r
}


// ---------------------------------------------------------------------------
// Searching
// ---------------------------------------------------------------------------

/// `find(c)`: the position of the first `c` in `v`, if any.
pub fn find_char(v: &[char], c: char) -> (r: Option<usize>)
    ensures
        match r {
            Some(k) => is_first(v@, c, k as int) && first_index(v@, c) == k && has_char(v@, c),
            None => !has_char(v@, c),
        },
{
    let mut i: usize = 0;
    while i < v.len()
        invariant
            i <= v@.len(),
            forall|j: int| 0 <= j < i ==> v@[j] != c,
        decreases v@.len() - i,
    {
        if v[i] == c {
            assert(is_first(v@, c, i as int));
            let ghost k = first_index(v@, c);
            assert(is_first(v@, c, k));
            assert(k == i) by {
                if k < i {
                    assert(v@[k] != c);
                } else if k > i {
                    assert(v@[i as int] != c);
                }
            }
            return Some(i);
        }
        i = i + 1;
    }
    None
}

/// `rfind(c)`: the position of the last `c` in `v`, if any.
pub fn rfind_char(v: &[char], c: char) -> (r: Option<usize>)
    ensures
        match r {
            Some(k) => is_last(v@, c, k as int) && last_index(v@, c) == k && has_char(v@, c),
            None => !has_char(v@, c),
        },
{
    let mut i: usize = v.len();
    while i > 0
        invariant
            i <= v@.len(),
            forall|j: int| i <= j < v@.len() ==> v@[j] != c,
        decreases i,
    {
        if v[i - 1] == c {
            let ghost m = (i - 1) as int;
            assert(is_last(v@, c, m));
            let ghost k = last_index(v@, c);
            assert(is_last(v@, c, k));
            assert(k == m) by {
                if k < m {
                    assert(v@[m] != c);
                } else if k > m {
                    assert(v@[k] != c);
                }
            }
            return Some(i - 1);
        }
        i = i - 1;
    }
    None
}

/// `split_once(c)`.
pub fn split_once_exec(v: &[char], c: char) -> (r: Option<(Vec<char>, Vec<char>)>)
    ensures
        match r {
            Some((a, b)) => split_once(v@, c) == Some((a@, b@)),
            None => split_once(v@, c) is None,
        },
{
    let n = v.len();
    match find_char(v, c) {
        Some(k) => {
            assert(k < n);
            let a = slice_of(v, 0, k);
            let b = slice_of(v, k + 1, n);
            assert(a@ =~= v@.take(k as int));
            assert(b@ =~= v@.skip(k + 1));
            Some((a, b))
        },
        None => None,
    }
}


/// Whether `a` and `b` hold the same characters.
pub fn equals_exec(a: &[char], b: &[char]) -> (r: bool)
    ensures
        r == (a@ == b@),
{
    if a.len() != b.len() {
        return false;
    }
    let mut i: usize = 0;
    while i < a.len()
        invariant
            a@.len() == b@.len(),
            i <= a@.len(),
            forall|j: int| 0 <= j < i ==> a@[j] == b@[j],
        decreases a@.len() - i,
    {
        if a[i] != b[i] {
            return false;
        }
        i = i + 1;
    }
    assert(a@ =~= b@);
    true
}

/// Whether the text `v` equals the literal `lit`.
pub fn is_text(v: &[char], lit: &str) -> (r: bool)
    ensures
        r == (v@ == lit@),
{
    let l = chars_of(lit);
    equals_exec(v, &l)
}


/// The message `prefix + middle + suffix`.
pub fn wrap(prefix: &str, middle: &[char], suffix: &str) -> (s: String)
    ensures
        s@ == prefix@ + middle@ + suffix@,
{
    let mut s = String::from_str(prefix);
    push_chars(&mut s, middle);
    s.append(suffix);
    s
}


/// `str::parse::<u8>`.
pub fn parse_u8_exec(v: &[char]) -> (r: Option<u8>)
    ensures
        r == parse_u8(v@),
{
    match parse_unsigned_exec(v, 255) {
        Some(x) => Some(x as u8),
        None => None,
    }
}

/// `str::parse::<i32>`.
pub fn parse_i32_exec(v: &[char]) -> (r: Option<i32>)
    ensures
        r == parse_i32(v@),
{
    let n = v.len();
    if n > 0 && v[0] == '-' {
        let rest = slice_of(v, 1, n);
        assert(rest@ =~= v@.drop_first());
        assert(unsigned_body(rest@) == rest@ || (rest@.len() > 0 && rest@[0] == '+'));
        if rest.len() > 0 && rest[0] == '+' {
            assert(!all_digits(rest@)) by {
                assert(!is_digit(rest@[0]));
            }
            return None;
        }
        assert(unsigned_body(rest@) == rest@);
        match parse_unsigned_exec(&rest, 2147483648) {
            Some(x) => {
                let neg: i64 = 0 - (x as i64);
                Some(neg as i32)
            },
            None => None,
        }
    } else {
        match parse_unsigned_exec(v, 2147483647) {
            Some(x) => Some(x as i32),
            None => None,
        }
    }
}


// ---------------------------------------------------------------------------
// Facts about printed numbers and joined lists
// ---------------------------------------------------------------------------

/// The digits `decimal` prints read back as the same number.
pub proof fn lemma_decimal_value(n: nat)
    ensures
        decimal(n).len() > 0,
        all_digits(decimal(n)),
        digits_value(decimal(n)) == n,
    decreases n,
{
    let d = (n % 10) as nat;
    assert(digit_value(digit_char(d)) == d);
    if n < 10 {
        let s = decimal(n);
        assert(s.drop_last() =~= Seq::<char>::empty());
        assert(digits_value(s) == digits_value(s.drop_last()) * 10 + digit_value(s.last()));
    } else {
        lemma_decimal_value(n / 10);
        let s = decimal(n);
        assert(s.drop_last() =~= decimal(n / 10));
        assert(s.last() == digit_char(d));
        assert(digits_value(s) == digits_value(s.drop_last()) * 10 + digit_value(s.last()));
        assert(digits_value(s) == (n / 10) * 10 + d);
        assert forall|i: int| 0 <= i < s.len() implies is_digit(#[trigger] s[i]) by {
            if i < s.len() - 1 {
                assert(s[i] == decimal(n / 10)[i]);
            }
        }
    }
}

/// `parse::<u32>` reads back what `to_string` prints.
pub proof fn lemma_parse_decimal(n: u32)
    ensures
        parse_u32(decimal(n as nat)) == Some(n),
{
    lemma_decimal_value(n as nat);
    let s = decimal(n as nat);
    assert(is_digit(s[0]));
    assert(unsigned_body(s) == s);
}

/// Splitting text without the separator gives the text itself.
pub proof fn lemma_split_without_sep(s: Seq<char>, c: char)
    requires
        forall|i: int| 0 <= i < s.len() ==> s[i] != c,
    ensures
        split(s, c) == seq![s],
    decreases s.len(),
{
    if s.len() > 0 {
        lemma_split_without_sep(s.drop_last(), c);
        assert(s.last() != c);
        assert(s.drop_last().push(s.last()) =~= s);
        let p = split(s.drop_last(), c);
        assert(p.update(p.len() - 1, p.last().push(s.last())) =~= seq![s]);
    } else {
        assert(s =~= Seq::<char>::empty());
    }
}

/// Splitting at a separator splits both sides independently.
pub proof fn lemma_split_concat(a: Seq<char>, b: Seq<char>, c: char)
    ensures
        split(a + seq![c] + b, c) == split(a, c) + split(b, c),
    decreases b.len(),
{
    let whole = a + seq![c] + b;
    if b.len() == 0 {
        assert(whole.drop_last() =~= a);
        assert(split(b, c) =~= seq![Seq::<char>::empty()]);
        assert(split(whole, c) =~= split(a, c) + split(b, c));
    } else {
        lemma_split_concat(a, b.drop_last(), c);
        assert(whole.drop_last() =~= a + seq![c] + b.drop_last());
        lemma_split_nonempty_len(b.drop_last(), c);
        if b.last() == c {
            assert(split(whole, c) =~= split(a, c) + split(b, c));
        } else {
            let p = split(a, c);
            let q = split(b.drop_last(), c);
            assert((p + q).update((p + q).len() - 1, (p + q).last().push(b.last())) =~= p + q.update(
                q.len() - 1,
                q.last().push(b.last()),
            ));
            assert(split(whole, c) =~= split(a, c) + split(b, c));
        }
    }
}

proof fn lemma_split_nonempty_len(s: Seq<char>, sep: char)
    ensures
        split(s, sep).len() >= 1,
    decreases s.len(),
{
    if s.len() > 0 {
        lemma_split_nonempty_len(s.drop_last(), sep);
    }
}

/// No piece holds the separator character `c`.
pub open spec fn pieces_without(parts: Seq<Seq<char>>, c: char) -> bool {
    forall|k: int, i: int| 0 <= k < parts.len() && 0 <= i < parts[k].len() ==> #[trigger] parts[k][i] != c
}

/// Joining pieces with a one-character separator and splitting at it again
/// gives back the pieces, when no piece holds the separator.
pub proof fn lemma_split_join(parts: Seq<Seq<char>>, c: char)
    requires
        parts.len() >= 1,
        pieces_without(parts, c),
    ensures
        split(join(parts, seq![c]), c) == parts,
    decreases parts.len(),
{
    if parts.len() == 1 {
        lemma_split_without_sep(parts[0], c);
        assert(seq![parts[0]] =~= parts);
    } else {
        let init = parts.drop_last();
        assert(pieces_without(init, c)) by {
            assert forall|k: int, i: int| 0 <= k < init.len() && 0 <= i < init[k].len() implies #[trigger] init[k][i] != c by {
                assert(init[k] == parts[k]);
            }
        }
        lemma_split_join(init, c);
        lemma_split_concat(join(init, seq![c]), parts.last(), c);
        assert forall|i: int| 0 <= i < parts.last().len() implies parts.last()[i] != c by {
            assert(parts.last() == parts[parts.len() - 1]);
            assert(parts[parts.len() - 1][i] != c);
        }
        lemma_split_without_sep(parts.last(), c);
        assert(init + seq![parts.last()] =~= parts);
    }
}

/// Every character of a joined text comes from a piece or the separator.
pub proof fn lemma_join_chars(parts: Seq<Seq<char>>, sep: Seq<char>, ok: spec_fn(char) -> bool)
    requires
        forall|k: int, i: int| 0 <= k < parts.len() && 0 <= i < parts[k].len() ==> ok(#[trigger] parts[k][i]),
        forall|i: int| 0 <= i < sep.len() ==> ok(sep[i]),
    ensures
        forall|i: int| 0 <= i < join(parts, sep).len() ==> ok(#[trigger] join(parts, sep)[i]),
    decreases parts.len(),
{
    if parts.len() >= 2 {
        let init = parts.drop_last();
        assert forall|k: int, i: int| 0 <= k < init.len() && 0 <= i < init[k].len() implies ok(#[trigger] init[k][i]) by {
            assert(init[k] == parts[k]);
        }
        lemma_join_chars(init, sep, ok);
        let j = join(parts, sep);
        let a = join(init, sep);
        assert forall|i: int| 0 <= i < j.len() implies ok(#[trigger] j[i]) by {
            if i < a.len() {
                assert(j[i] == a[i]);
            } else if i < a.len() + sep.len() {
                assert(j[i] == sep[i - a.len()]);
            } else {
                assert(j[i] == parts[parts.len() - 1][i - a.len() - sep.len()]);
            }
        }
    } else if parts.len() == 1 {
        assert forall|i: int| 0 <= i < join(parts, sep).len() implies ok(#[trigger] join(parts, sep)[i]) by {
            assert(join(parts, sep)[i] == parts[0][i]);
        }
    }
}

/// Text without whitespace is its own trim.
pub proof fn lemma_trim_no_ws(s: Seq<char>)
    requires
        forall|i: int| 0 <= i < s.len() ==> !is_ws(#[trigger] s[i]),
    ensures
        trim(s) == s,
{
    if s.len() > 0 {
        assert(!is_ws(s[0]));
        assert(trim_start(s) == s);
        assert(!is_ws(s.last()));
    }
}

} // verus!
