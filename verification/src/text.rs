//! Character-level text operations shared by the manifest renderers and the
//! log scanners: searching, trimming, replacing, splitting into lines and
//! printing and parsing decimal numbers.
use vstd::prelude::*;
use vstd::string::*;

verus! {

// ---------------------------------------------------------------------------
// Specifications
// ---------------------------------------------------------------------------

/// `s` with every trailing `c` removed (`str::trim_end_matches` with a char).
pub open spec fn trim_end_char(s: Seq<char>, c: char) -> Seq<char>
    decreases s.len(),
{
    if s.len() > 0 && s.last() == c {
        trim_end_char(s.drop_last(), c)
    } else {
        s
    }
}

/// `p` occurs in `s` starting at index `i`.
pub open spec fn matches_at(s: Seq<char>, p: Seq<char>, i: int) -> bool {
    0 <= i && i + p.len() <= s.len() && s.subrange(i, i + p.len()) == p
}

/// The first index at or after `i` where `p` occurs in `s`.
pub open spec fn find_from(s: Seq<char>, p: Seq<char>, i: int) -> Option<int>
    decreases s.len() + 1 - i,
{
    if i < 0 || i + p.len() > s.len() {
        None
    } else if matches_at(s, p, i) {
        Some(i)
    } else {
        find_from(s, p, i + 1)
    }
}

/// The first index where `p` occurs in `s` (`str::find` with a string pattern).
pub open spec fn find(s: Seq<char>, p: Seq<char>) -> Option<int> {
    find_from(s, p, 0)
}

/// `s` with every non-overlapping occurrence of the non-empty pattern `p`,
/// taken from left to right, replaced by `r` (`str::replace`).
pub open spec fn replace_all(s: Seq<char>, p: Seq<char>, r: Seq<char>) -> Seq<char>
    decreases s.len(),
{
    if p.len() == 0 || s.len() < p.len() {
        s
    } else if s.take(p.len() as int) == p {
        r + replace_all(s.skip(p.len() as int), p, r)
    } else {
        seq![s[0]] + replace_all(s.drop_first(), p, r)
    }
}

/// `s` with every `c` replaced by `r` (`str::replace` with a char pattern).
pub open spec fn replace_char(s: Seq<char>, c: char, r: Seq<char>) -> Seq<char>
    decreases s.len(),
{
    if s.len() == 0 {
        s
    } else if s[0] == c {
        r + replace_char(s.drop_first(), c, r)
    } else {
        seq![s[0]] + replace_char(s.drop_first(), c, r)
    }
}

/// A line with one trailing carriage return removed.
pub open spec fn strip_cr(line: Seq<char>) -> Seq<char> {
    if line.len() > 0 && line.last() == '\r' {
        line.drop_last()
    } else {
        line
    }
}

/// Reading `s` from the left: the lines already ended by a newline, and the
/// characters of the line that is still open.
pub open spec fn lines_acc(s: Seq<char>) -> (Seq<Seq<char>>, Seq<char>)
    decreases s.len(),
{
    if s.len() == 0 {
        (seq![], seq![])
    } else {
        let (done, cur) = lines_acc(s.drop_last());
        if s.last() == '\n' {
            (done.push(strip_cr(cur)), seq![])
        } else {
            (done, cur.push(s.last()))
        }
    }
}

/// The lines of `s` (`str::lines`): split at each `\n`, a `\r` right before
/// the `\n` removed, and no empty line after a final `\n`.
pub open spec fn lines(s: Seq<char>) -> Seq<Seq<char>> {
    let (done, cur) = lines_acc(s);
    if cur.len() == 0 {
        done
    } else {
        done.push(cur)
    }
}

/// The characters with the Unicode `White_Space` property
/// (`char::is_whitespace`).
pub open spec fn is_whitespace(c: char) -> bool {
    let u = c as u32;
    (0x09 <= u && u <= 0x0d) || u == 0x20 || u == 0x85 || u == 0xa0 || u == 0x1680 || (0x2000
        <= u && u <= 0x200a) || u == 0x2028 || u == 0x2029 || u == 0x202f || u == 0x205f || u
        == 0x3000
}

/// The longest prefix of `s` without whitespace.
pub open spec fn take_until_whitespace(s: Seq<char>) -> Seq<char>
    decreases s.len(),
{
    if s.len() == 0 || is_whitespace(s[0]) {
        seq![]
    } else {
        seq![s[0]] + take_until_whitespace(s.drop_first())
    }
}

/// The ASCII digit for `d < 10`.
pub open spec fn digit_char(d: nat) -> char {
    ((d + 48) as u8) as char
}

/// The decimal representation of `n`, without sign or leading zeros.
pub open spec fn decimal(n: nat) -> Seq<char>
    decreases n,
{
    if n < 10 {
        seq![digit_char(n)]
    } else {
        decimal(n / 10).push(digit_char(n % 10))
    }
}

pub open spec fn is_ascii_digit(c: char) -> bool {
    '0' <= c && c <= '9'
}

pub open spec fn all_ascii_digits(s: Seq<char>) -> bool {
    forall|i: int| 0 <= i < s.len() ==> is_ascii_digit(#[trigger] s[i])
}

/// The number written by the digits `s`.
pub open spec fn digits_value(s: Seq<char>) -> nat
    decreases s.len(),
{
    if s.len() == 0 {
        0
    } else {
        digits_value(s.drop_last()) * 10 + (s.last() as int - 48) as nat
    }
}

/// `u32::from_str`: an optional `+`, then at least one ASCII digit, and a value
/// that fits in a `u32`.
pub open spec fn parse_u32(s: Seq<char>) -> Option<u32> {
    let digits = if s.len() > 0 && s[0] == '+' {
        s.drop_first()
    } else {
        s
    };
    if digits.len() > 0 && all_ascii_digits(digits) && digits_value(digits) <= u32::MAX {
        Some(digits_value(digits) as u32)
    } else {
        None
    }
}

// ---------------------------------------------------------------------------
// Lemmas
// ---------------------------------------------------------------------------

/// A match that `find_from` reports lies inside `s`.
pub proof fn lemma_find_from_bounds(s: Seq<char>, p: Seq<char>, i: int)
    ensures
        find_from(s, p, i) matches Some(k) ==> i <= k && matches_at(s, p, k),
    decreases s.len() + 1 - i,
{
    if i < 0 || i + p.len() > s.len() {
    } else if matches_at(s, p, i) {
    } else {
        lemma_find_from_bounds(s, p, i + 1);
    }
}

/// `take_until_whitespace` stops exactly at the first whitespace character.
pub proof fn lemma_take_until_whitespace(s: Seq<char>, j: int)
    requires
        0 <= j <= s.len(),
        forall|k: int| 0 <= k < j ==> !is_whitespace(#[trigger] s[k]),
        j == s.len() || is_whitespace(s[j]),
    ensures
        take_until_whitespace(s) == s.take(j),
    decreases j,
{
    if j == 0 {
        assert(s.take(0) =~= seq![]);
    } else {
        let t = s.drop_first();
        assert forall|k: int| 0 <= k < j - 1 implies !is_whitespace(#[trigger] t[k]) by {
            assert(t[k] == s[k + 1]);
        }
        lemma_take_until_whitespace(t, j - 1);
        assert(s.take(j) =~= seq![s[0]] + t.take(j - 1));
    }
}

/// A prefix of `s` without whitespace stays a prefix of
/// `take_until_whitespace(s)`.
pub proof fn lemma_take_until_whitespace_prefix(s: Seq<char>, j: int)
    requires
        0 <= j <= s.len(),
        forall|k: int| 0 <= k < j ==> !is_whitespace(#[trigger] s[k]),
    ensures
        take_until_whitespace(s).len() >= j,
        take_until_whitespace(s).take(j) == s.take(j),
        forall|k: int|
            0 <= k < take_until_whitespace(s).len() ==> !is_whitespace(
                #[trigger] take_until_whitespace(s)[k],
            ),
    decreases s.len(),
{
    if s.len() == 0 || is_whitespace(s[0]) {
        assert(s.take(0) =~= seq![]);
        assert(take_until_whitespace(s).take(0) =~= seq![]);
    } else {
        let t = s.drop_first();
        let jj = if j > 0 {
            j - 1
        } else {
            0
        };
        assert forall|k: int| 0 <= k < jj implies !is_whitespace(#[trigger] t[k]) by {
            assert(t[k] == s[k + 1]);
        }
        lemma_take_until_whitespace_prefix(t, jj);
        let r = take_until_whitespace(s);
        assert(r == seq![s[0]] + take_until_whitespace(t));
        if j > 0 {
            assert(r.take(j) =~= seq![s[0]] + take_until_whitespace(t).take(j - 1));
            assert(s.take(j) =~= seq![s[0]] + t.take(j - 1));
        } else {
            assert(r.take(0) =~= seq![]);
            assert(s.take(0) =~= seq![]);
        }
        assert forall|k: int| 0 <= k < r.len() implies !is_whitespace(#[trigger] r[k]) by {
            if k > 0 {
                assert(r[k] == take_until_whitespace(t)[k - 1]);
            }
        }
    }
}

/// Removing trailing `c` keeps every prefix that does not end in `c`.
pub proof fn lemma_trim_end_char_keeps_prefix(s: Seq<char>, c: char, j: int)
    requires
        0 < j <= s.len(),
        s[j - 1] != c,
    ensures
        trim_end_char(s, c).len() >= j,
        trim_end_char(s, c).take(j) == s.take(j),
        trim_end_char(s, c).len() <= s.len(),
        forall|k: int|
            0 <= k < trim_end_char(s, c).len() ==> #[trigger] trim_end_char(s, c)[k] == s[k],
    decreases s.len(),
{
    if s.len() > 0 && s.last() == c {
        assert(s.len() - 1 != j - 1);
        let t = s.drop_last();
        lemma_trim_end_char_keeps_prefix(t, c, j);
        assert(t.take(j) =~= s.take(j));
    }
}

/// Reading `b` after text that ended its last line continues with the lines
/// of `b` alone.
pub proof fn lemma_lines_acc_concat(a: Seq<char>, b: Seq<char>)
    requires
        lines_acc(a).1.len() == 0,
    ensures
        lines_acc(a + b) == (lines_acc(a).0 + lines_acc(b).0, lines_acc(b).1),
    decreases b.len(),
{
    if b.len() == 0 {
        assert(a + b =~= a);
        assert(lines_acc(a).0 + lines_acc(b).0 =~= lines_acc(a).0);
    } else {
        let bd = b.drop_last();
        assert((a + b).drop_last() =~= a + bd);
        assert((a + b).last() == b.last());
        lemma_lines_acc_concat(a, bd);
        let (db, cb) = lines_acc(bd);
        if b.last() == '\n' {
            assert(lines_acc(a).0 + db.push(strip_cr(cb)) =~= (lines_acc(a).0 + db).push(
                strip_cr(cb),
            ));
        }
    }
}

/// Text without a newline is one open line.
pub proof fn lemma_lines_acc_single_line(s: Seq<char>)
    requires
        forall|k: int| 0 <= k < s.len() ==> s[k] != '\n',
    ensures
        lines_acc(s) == (Seq::<Seq<char>>::empty(), s),
    decreases s.len(),
{
    if s.len() > 0 {
        lemma_lines_acc_single_line(s.drop_last());
        assert(s.drop_last().push(s.last()) =~= s);
    }
}

/// The lines of text whose first part ends its last line: the lines of the
/// first part, then those of the rest.
pub proof fn lemma_lines_concat(a: Seq<char>, b: Seq<char>)
    requires
        lines_acc(a).1.len() == 0,
    ensures
        lines(a + b) == lines_acc(a).0 + lines(b),
{
    lemma_lines_acc_concat(a, b);
    let (db, cb) = lines_acc(b);
    if cb.len() > 0 {
        assert((lines_acc(a).0 + db).push(cb) =~= lines_acc(a).0 + db.push(cb));
    }
}

/// Dropping a last character that does not occur in the pattern does not
/// change where the pattern is found.
pub proof fn lemma_find_from_drop_last(s: Seq<char>, p: Seq<char>, i: int)
    requires
        s.len() > 0,
        p.len() > 0,
        !p.contains(s.last()),
    ensures
        find_from(s.drop_last(), p, i) == find_from(s, p, i),
    decreases s.len() + 1 - i,
{
    let d = s.drop_last();
    if i < 0 || i + p.len() > s.len() {
    } else if i + p.len() == s.len() {
        if matches_at(s, p, i) {
            assert(s.subrange(i, i + p.len())[p.len() - 1] == s.last());
            assert(p[p.len() - 1] == s.last());
            assert(p.contains(s.last()));
        }
        assert(find_from(s, p, i + 1) is None);
        assert(find_from(d, p, i) is None);
    } else {
        assert(d.subrange(i, i + p.len()) =~= s.subrange(i, i + p.len()));
        lemma_find_from_drop_last(s, p, i + 1);
    }
}

/// A last character that is whitespace does not change the longest prefix
/// without whitespace.
pub proof fn lemma_take_until_whitespace_drop_last(t: Seq<char>)
    requires
        t.len() > 0,
        is_whitespace(t.last()),
    ensures
        take_until_whitespace(t.drop_last()) == take_until_whitespace(t),
    decreases t.len(),
{
    if t.len() == 1 {
    } else if is_whitespace(t[0]) {
        assert(t.drop_last()[0] == t[0]);
    } else {
        let f = t.drop_first();
        assert(t.drop_last().drop_first() =~= f.drop_last());
        assert(t.drop_last()[0] == t[0]);
        lemma_take_until_whitespace_drop_last(f);
    }
}

/// `find_from` misses no occurrence at or after where it starts looking.
pub proof fn lemma_find_from_complete(s: Seq<char>, p: Seq<char>, i: int, j: int)
    requires
        0 <= i <= j,
        matches_at(s, p, j),
    ensures
        find_from(s, p, i) is Some,
    decreases j - i,
{
    if !matches_at(s, p, i) {
        lemma_find_from_complete(s, p, i + 1, j);
    }
}

/// The open line of `s` is what follows its last newline, and holds none.
pub proof fn lemma_lines_acc_open_line(s: Seq<char>)
    ensures
        lines_acc(s).1.len() <= s.len(),
        lines_acc(s).1 == s.subrange(s.len() - lines_acc(s).1.len(), s.len() as int),
        lines_acc(s).1.len() < s.len() ==> s[s.len() - lines_acc(s).1.len() - 1] == '\n',
    decreases s.len(),
{
    if s.len() > 0 {
        let d = s.drop_last();
        lemma_lines_acc_open_line(d);
        let cur = lines_acc(d).1;
        if s.last() == '\n' {
            assert(s.subrange(s.len() as int, s.len() as int) =~= Seq::<char>::empty());
        } else {
            assert(s.subrange(s.len() - cur.len() - 1, s.len() as int) =~= d.subrange(
                d.len() - cur.len(),
                d.len() as int,
            ).push(s.last()));
        }
    }
}

/// An occurrence in `s` of a pattern without line breaks lies inside one
/// line: a finished one or the open one.
pub proof fn lemma_match_in_some_line(s: Seq<char>, p: Seq<char>, k: int)
    requires
        matches_at(s, p, k),
        p.len() > 0,
        !p.contains('\n'),
        !p.contains('\r'),
    ensures
        (exists|i: int|
            0 <= i < lines_acc(s).0.len() && #[trigger] find(lines_acc(s).0[i], p) is Some)
            || find(lines_acc(s).1, p) is Some,
    decreases s.len(),
{
    let (done, cur) = lines_acc(s);
    if k + p.len() == s.len() {
        lemma_lines_acc_open_line(s);
        let start = s.len() - cur.len();
        if start > k {
            assert(s.subrange(k, k + p.len())[start - 1 - k] == s[start - 1]);
            assert(p[start - 1 - k] == '\n');
            assert(p.contains('\n'));
        }
        assert(cur.subrange(k - start, k - start + p.len()) =~= s.subrange(k, k + p.len()));
        assert(matches_at(cur, p, k - start));
        lemma_find_from_complete(cur, p, 0, k - start);
    } else {
        let d = s.drop_last();
        assert(d.subrange(k, k + p.len()) =~= s.subrange(k, k + p.len()));
        lemma_match_in_some_line(d, p, k);
        let (done0, cur0) = lines_acc(d);
        if s.last() == '\n' {
            if find(cur0, p) is Some {
                if cur0.len() > 0 && cur0.last() == '\r' {
                    lemma_find_from_drop_last(cur0, p, 0);
                }
                assert(done[done0.len() as int] == strip_cr(cur0));
                assert(find(done[done0.len() as int], p) is Some);
            } else {
                let i = choose|i: int|
                    0 <= i < done0.len() && #[trigger] find(done0[i], p) is Some;
                assert(done[i] == done0[i]);
                assert(find(done[i], p) is Some);
            }
        } else {
            assert(done == done0);
            if find(cur0, p) is Some {
                lemma_find_from_bounds(cur0, p, 0);
                let j = find(cur0, p)->0;
                assert(cur == cur0.push(s.last()));
                assert(cur.subrange(j, j + p.len()) =~= cur0.subrange(j, j + p.len()));
                lemma_find_from_complete(cur, p, 0, j);
            }
        }
    }
}

/// An occurrence in `s` of a pattern without line breaks lies inside one of
/// its lines.
pub proof fn lemma_match_in_lines(s: Seq<char>, p: Seq<char>)
    requires
        find(s, p) is Some,
        p.len() > 0,
        !p.contains('\n'),
        !p.contains('\r'),
    ensures
        exists|i: int| 0 <= i < lines(s).len() && #[trigger] find(lines(s)[i], p) is Some,
{
    lemma_find_from_bounds(s, p, 0);
    lemma_match_in_some_line(s, p, find(s, p)->0);
    let (done, cur) = lines_acc(s);
    if find(cur, p) is Some {
        lemma_find_from_bounds(cur, p, 0);
        assert(lines(s) == done.push(cur));
        assert(lines(s)[done.len() as int] == cur);
        assert(find(lines(s)[done.len() as int], p) is Some);
    } else {
        let i = choose|i: int| 0 <= i < done.len() && #[trigger] find(done[i], p) is Some;
        if cur.len() > 0 {
            assert(lines(s) == done.push(cur));
        } else {
            assert(lines(s) == done);
        }
        assert(lines(s)[i] == done[i]);
        assert(find(lines(s)[i], p) is Some);
    }
}

// ---------------------------------------------------------------------------
// Executable operations
// ---------------------------------------------------------------------------

/// `String::push`: appends one character.
#[verifier::external_body]
pub(crate) fn push_char(s: &mut String, c: char)
    ensures
        final(s)@ == old(s)@.push(c),
{
    s.push(c);
}

/// The characters of a string slice, in order.
pub fn chars_of(s: &str) -> (v: Vec<char>)
    ensures
        v@ == s@,
{
    let mut v: Vec<char> = Vec::new();
    for c in it: s.chars()
        invariant
            v@ == it.seq().take(it.index() as int),
            it.seq() == s@,
    {
        v.push(c);
    }
    v
}

/// The string made of the given characters.
pub fn string_of(v: &Vec<char>) -> (s: String)
    ensures
        s@ == v@,
{
    let mut s = String::new();
    for i in 0..v.len()
        invariant
            s@ == v@.take(i as int),
    {
        push_char(&mut s, v[i]);
        assert(v@.take(i as int).push(v@[i as int]) =~= v@.take(i + 1));
    }
    assert(v@.take(v.len() as int) =~= v@);
    s
}

/// Appends the characters of `add` to `out`.
pub fn extend_chars(out: &mut Vec<char>, add: &Vec<char>)
    ensures
        final(out)@ == old(out)@ + add@,
{
    let ghost start = out@;
    for i in 0..add.len()
        invariant
            out@ == start + add@.take(i as int),
    {
        out.push(add[i]);
        assert(start + add@.take(i + 1) =~= (start + add@.take(i as int)).push(add@[i as int]));
    }
    assert(add@.take(add.len() as int) =~= add@);
}

/// Whether `p` occurs in `s` at index `i`.
pub fn matches_at_exec(s: &Vec<char>, p: &Vec<char>, i: usize) -> (b: bool)
    ensures
        b == matches_at(s@, p@, i as int),
{
    if i > s.len() || s.len() - i < p.len() {
        return false;
    }
    for j in 0..p.len()
        invariant
            i + p.len() <= s.len(),
            forall|k: int| 0 <= k < j ==> s@[i + k] == p@[k],
    {
        if s[i + j] != p[j] {
            assert(s@.subrange(i as int, i + p.len())[j as int] != p@[j as int]);
            return false;
        }
    }
    assert(s@.subrange(i as int, i + p.len()) =~= p@);
    true
}

/// The first index where `p` occurs in `s`.
pub fn find_exec(s: &Vec<char>, p: &Vec<char>) -> (r: Option<usize>)
    ensures
        r matches Some(k) ==> find(s@, p@) == Some(k as int),
        r is None ==> find(s@, p@) is None,
{
    let mut i: usize = 0;
    while i <= s.len()
        invariant
            find(s@, p@) == find_from(s@, p@, i as int),
        decreases s.len() + 1 - i,
    {
        if s.len() - i < p.len() {
            return None;
        }
        if p.len() == 0 {
            assert(s@.subrange(i as int, i as int) =~= p@);
        }
        if matches_at_exec(s, p, i) {
            return Some(i);
        }
        i = i + 1;
    }
    None
}

/// Replaces every occurrence of the non-empty pattern `p` in `s` by `r`.
pub fn replace_all_exec(s: &str, p: &str, r: &str) -> (out: String)
    requires
        p@.len() > 0,
    ensures
        out@ == replace_all(s@, p@, r@),
{
    let sv = chars_of(s);
    let pv = chars_of(p);
    let rv = chars_of(r);
    let n = sv.len();
    let m = pv.len();
    let mut out: Vec<char> = Vec::new();
    let mut i: usize = 0;
    assert(sv@.skip(0) =~= sv@);
    assert(out@ + sv@ =~= sv@);
    while i < n
        invariant
            n == sv@.len(),
            m == pv@.len(),
            m > 0,
            i <= n,
            replace_all(sv@, pv@, rv@) == out@ + replace_all(sv@.skip(i as int), pv@, rv@),
        decreases n - i,
    {
        let ghost rest = sv@.skip(i as int);
        if n - i >= m && matches_at_exec(&sv, &pv, i) {
            assert(rest.take(m as int) =~= sv@.subrange(i as int, i + m));
            assert(rest.skip(m as int) =~= sv@.skip(i + m));
            extend_chars(&mut out, &rv);
            i = i + m;
        } else {
            if n - i >= m {
                assert(rest.take(m as int) =~= sv@.subrange(i as int, i + m));
            } else {
                assert(rest =~= seq![rest[0]] + rest.drop_first());
                assert(rest.drop_first().len() < m);
            }
            assert(rest.drop_first() =~= sv@.skip(i + 1));
            out.push(sv[i]);
            i = i + 1;
        }
    }
    assert(sv@.skip(n as int) =~= Seq::<char>::empty());
    string_of(&out)
}

/// Replaces every `c` in `s` by `r`.
pub fn replace_char_exec(s: &str, c: char, r: &str) -> (out: String)
    ensures
        out@ == replace_char(s@, c, r@),
{
    let sv = chars_of(s);
    let rv = chars_of(r);
    let mut out: Vec<char> = Vec::new();
    assert(sv@.skip(0) =~= sv@);
    assert(out@ + sv@ =~= sv@);
    for i in 0..sv.len()
        invariant
            replace_char(sv@, c, rv@) == out@ + replace_char(sv@.skip(i as int), c, rv@),
    {
        let ghost rest = sv@.skip(i as int);
        assert(rest.drop_first() =~= sv@.skip(i + 1));
        if sv[i] == c {
            extend_chars(&mut out, &rv);
        } else {
            out.push(sv[i]);
        }
    }
    assert(sv@.skip(sv.len() as int) =~= Seq::<char>::empty());
    string_of(&out)
}

/// Removes every trailing `c` from `v`.
pub fn trim_end_char_exec(v: &mut Vec<char>, c: char)
    ensures
        final(v)@ == trim_end_char(old(v)@, c),
{
    while v.len() > 0 && v[v.len() - 1] == c
        invariant
            trim_end_char(v@, c) == trim_end_char(old(v)@, c),
        decreases v.len(),
    {
        let _ = v.pop();
    }
}

/// Whether a character has the Unicode `White_Space` property, as
/// `char::is_whitespace` decides it.
pub(crate) fn char_is_whitespace(c: char) -> (b: bool)
    ensures
        b == is_whitespace(c),
{
    let u = c as u32;
    (0x09 <= u && u <= 0x0d) || u == 0x20 || u == 0x85 || u == 0xa0 || u == 0x1680 || (0x2000
        <= u && u <= 0x200a) || u == 0x2028 || u == 0x2029 || u == 0x202f || u == 0x205f || u
        == 0x3000
}

/// The lines of `s`, as `str::lines` splits them.
pub fn lines_exec(s: &Vec<char>) -> (ls: Vec<Vec<char>>)
    ensures
        ls@.map_values(|l: Vec<char>| l@) == lines(s@),
{
    let mut done: Vec<Vec<char>> = Vec::new();
    let mut cur: Vec<char> = Vec::new();
    for i in 0..s.len()
        invariant
            (done@.map_values(|l: Vec<char>| l@), cur@) == lines_acc(s@.take(i as int)),
    {
        assert(s@.take(i + 1).drop_last() =~= s@.take(i as int));
        if s[i] == '\n' {
            let ghost old_done = done@.map_values(|l: Vec<char>| l@);
            if cur.len() > 0 && cur[cur.len() - 1] == '\r' {
                let _ = cur.pop();
            }
            let line = cur;
            cur = Vec::new();
            done.push(line);
            assert(done@.map_values(|l: Vec<char>| l@) =~= old_done.push(line@));
        } else {
            cur.push(s[i]);
        }
    }
    assert(s@.take(s.len() as int) =~= s@);
    if cur.len() > 0 {
        let ghost old_done = done@.map_values(|l: Vec<char>| l@);
        done.push(cur);
        assert(done@.map_values(|l: Vec<char>| l@) =~= old_done.push(cur@));
    }
    done
}

/// The ASCII digit for `d < 10`.
fn digit_exec(d: u64) -> (c: char)
    requires
        d < 10,
    ensures
        c == digit_char(d as nat),
{
    ((d as u8) + 48u8) as char
}

/// The decimal digits of `n`.
pub fn decimal_chars(n: u64) -> (v: Vec<char>)
    ensures
        v@ == decimal(n as nat),
    decreases n,
{
    if n < 10 {
        let mut v = Vec::new();
        v.push(digit_exec(n));
        assert(v@ =~= seq![digit_char(n as nat)]);
        v
    } else {
        let mut v = decimal_chars(n / 10);
        v.push(digit_exec(n % 10));
        v
    }
}

/// The decimal representation of `n` (`u64::to_string`).
pub fn decimal_string(n: u64) -> (s: String)
    ensures
        s@ == decimal(n as nat),
{
    let v = decimal_chars(n);
    string_of(&v)
}

/// `u32::from_str` on the characters `s`.
pub fn parse_u32_exec(s: &str) -> (r: Option<u32>)
    ensures
        r == parse_u32(s@),
{
    let sv = chars_of(s);
    let start: usize = if sv.len() > 0 && sv[0] == '+' {
        1
    } else {
        0
    };
    let ghost digits = if sv@.len() > 0 && sv@[0] == '+' {
        sv@.drop_first()
    } else {
        sv@
    };
    assert(digits =~= sv@.skip(start as int));
    if start >= sv.len() {
        return None;
    }
    let mut acc: u64 = 0;
    let mut over = false;
    let mut i = start;
    while i < sv.len()
        invariant
            start <= i <= sv.len(),
            sv@ == s@,
            digits == sv@.skip(start as int),
            digits == (if sv@.len() > 0 && sv@[0] == '+' {
                sv@.drop_first()
            } else {
                sv@
            }),
            forall|k: int| start <= k < i ==> is_ascii_digit(#[trigger] sv@[k]),
            !over ==> acc == digits_value(sv@.subrange(start as int, i as int)),
            !over ==> acc <= u32::MAX,
            over ==> digits_value(sv@.subrange(start as int, i as int)) > u32::MAX,
        decreases sv.len() - i,
    {
        let c = sv[i];
        if c < '0' || c > '9' {
            assert(!is_ascii_digit(digits[i - start]));
            assert(!all_ascii_digits(digits));
            return None;
        }
        let ghost prefix = sv@.subrange(start as int, i as int);
        let ghost next = sv@.subrange(start as int, i + 1);
        assert(next.drop_last() =~= prefix);
        let d = (c as u32) - 48;
        assert(digits_value(next) == digits_value(prefix) * 10 + d);
        if !over {
            let next_acc = acc * 10 + (d as u64);
            if next_acc > 0xffff_ffffu64 {
                over = true;
            } else {
                acc = next_acc;
            }
        } else {
            let ghost v = digits_value(prefix);
            assert(v * 10 >= v) by (nonlinear_arith);
        }
        i = i + 1;
    }
    assert(sv@.subrange(start as int, sv.len() as int) =~= digits);
    assert(all_ascii_digits(digits)) by {
        assert forall|k: int| 0 <= k < digits.len() implies is_ascii_digit(#[trigger] digits[k]) by {
            assert(digits[k] == sv@[k + start]);
        }
    }
    if over {
        None
    } else {
        Some(acc as u32)
    }
}

} // verus!
