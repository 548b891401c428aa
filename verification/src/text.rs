//! Character-level text utilities with exact specifications over `Seq<char>`.
//!
//! The executable functions mirror the `str` methods that the helper uses
//! (`lines`, `split_whitespace`, `trim`, `contains`, ...) and are specified
//! by spec functions (`lines`, `words`, `trim`, `contains`, ...) in terms of
//! which the library's parsers and formatters are stated.

use vstd::prelude::*;

verus! {

/// `String::push` appends one character.
pub assume_specification[ String::push ](s: &mut String, ch: char)
    ensures
        final(s)@ == old(s)@.push(ch),
;

/// The name of what `str::to_lowercase` returns for a text: its Unicode
/// lower-case form (which may change the length of the text, and maps a
/// final sigma by its context).
pub uninterp spec fn lowercase(s: Seq<char>) -> Seq<char>;

/// Calls `str::to_lowercase`. Claimed: the result is the named lower-case
/// form of the argument, and nothing more.
#[verifier::external_body]
pub fn to_lowercase(s: &str) -> (r: String)
    ensures
        r@ == lowercase(s@),
{
    s.to_lowercase()
}

/// The name of what `str::to_uppercase` returns for a text: its Unicode
/// upper-case form (which may change the length of the text).
pub uninterp spec fn uppercase(s: Seq<char>) -> Seq<char>;

/// Calls `str::to_uppercase`. Claimed: the result is the named upper-case
/// form of the argument, and nothing more.
#[verifier::external_body]
pub fn to_uppercase(s: &str) -> (r: String)
    ensures
        r@ == uppercase(s@),
{
    s.to_uppercase()
}

// ---------------------------------------------------------------------------
// Characters
// ---------------------------------------------------------------------------

/// Unicode `White_Space`, the property that `char::is_whitespace` tests.
pub open spec fn is_ws(c: char) -> bool {
    let u = c as u32;
    ||| 0x09 <= u <= 0x0d
    ||| u == 0x20
    ||| u == 0x85
    ||| u == 0xa0
    ||| u == 0x1680
    ||| 0x2000 <= u <= 0x200a
    ||| u == 0x2028
    ||| u == 0x2029
    ||| u == 0x202f
    ||| u == 0x205f
    ||| u == 0x3000
}

pub fn is_whitespace(c: char) -> (b: bool)
    ensures
        b == is_ws(c),
{
    let u = c as u32;
    (0x09 <= u && u <= 0x0d) || u == 0x20 || u == 0x85 || u == 0xa0 || u == 0x1680 || (0x2000
        <= u && u <= 0x200a) || u == 0x2028 || u == 0x2029 || u == 0x202f || u == 0x205f || u
        == 0x3000
}

/// The characters of `s`, in order.
pub fn chars_of(s: &str) -> (v: Vec<char>)
    ensures
        v@ == s@,
{
    broadcast use vstd::string::group_string_axioms;

    let mut v: Vec<char> = Vec::new();
    for c in it: s.chars()
        invariant
            v@ == it.seq().take(it.index()),
    {
        v.push(c);
    }
    v
}

/// A string holding the characters `v[from..to]`.
pub fn string_of_range(v: &Vec<char>, from: usize, to: usize) -> (s: String)
    requires
        from <= to <= v.len(),
    ensures
        s@ == v@.subrange(from as int, to as int),
{
    let mut s = String::new();
    let mut i: usize = from;
    while i < to
        invariant
            from <= i <= to <= v.len(),
            s@ == v@.subrange(from as int, i as int),
        decreases to - i,
    {
        s.push(v[i]);
        i += 1;
        assert(s@ =~= v@.subrange(from as int, i as int));
    }
    s
}

/// A string holding the characters of `v`.
pub fn string_of(v: &Vec<char>) -> (s: String)
    ensures
        s@ == v@,
{
    let s = string_of_range(v, 0, v.len());
    assert(v@.subrange(0, v@.len() as int) =~= v@);
    s
}

/// `a` followed by `b`.
pub fn cat(a: &str, b: &str) -> (s: String)
    ensures
        s@ == a@ + b@,
{
    let mut s = String::from_str(a);
    s.append(b);
    s
}

/// `a`, `b` and `c` in a row.
pub fn cat3(a: &str, b: &str, c: &str) -> (s: String)
    ensures
        s@ == a@ + b@ + c@,
{
    let mut s = String::from_str(a);
    s.append(b);
    s.append(c);
    s
}

/// Whether two strings hold the same characters.
pub fn str_eq(a: &str, b: &str) -> (r: bool)
    ensures
        r == (a@ == b@),
{
    let x = String::from_str(a);
    let y = String::from_str(b);
    x == y
}

// ---------------------------------------------------------------------------
// Prefixes and substrings
// ---------------------------------------------------------------------------

pub open spec fn starts_with(s: Seq<char>, p: Seq<char>) -> bool {
    p.len() <= s.len() && s.take(p.len() as int) == p
}

pub fn has_prefix(s: &str, p: &str) -> (r: bool)
    ensures
        r == starts_with(s@, p@),
{
    let sv = chars_of(s);
    let pv = chars_of(p);
    if pv.len() > sv.len() {
        return false;
    }
    let mut i: usize = 0;
    while i < pv.len()
        invariant
            pv.len() <= sv.len(),
            sv@ == s@,
            pv@ == p@,
            i <= pv.len(),
            forall|k: int| 0 <= k < i ==> sv@[k] == pv@[k],
        decreases pv.len() - i,
    {
        if sv[i] != pv[i] {
            assert(s@.take(p@.len() as int)[i as int] != p@[i as int]);
            return false;
        }
        i += 1;
    }
    assert(s@.take(p@.len() as int) =~= p@);
    true
}

/// `p` occurs in `s` at position `i`.
pub open spec fn occurs_at(s: Seq<char>, p: Seq<char>, i: int) -> bool {
    0 <= i && i + p.len() <= s.len() && s.subrange(i, i + p.len()) == p
}

pub open spec fn contains(s: Seq<char>, p: Seq<char>) -> bool {
    exists|i: int| #[trigger] occurs_at(s, p, i)
}

fn matches_at(sv: &Vec<char>, pv: &Vec<char>, i: usize) -> (r: bool)
    requires
        i + pv.len() <= sv.len(),
    ensures
        r == occurs_at(sv@, pv@, i as int),
{
    let mut k: usize = 0;
    while k < pv.len()
        invariant
            i + pv.len() <= sv.len(),
            k <= pv.len(),
            forall|j: int| 0 <= j < k ==> sv@[i + j] == pv@[j],
        decreases pv.len() - k,
    {
        if sv[i + k] != pv[k] {
            assert(sv@.subrange(i as int, i + pv@.len())[k as int] != pv@[k as int]);
            return false;
        }
        k += 1;
    }
    assert(sv@.subrange(i as int, i + pv@.len()) =~= pv@);
    true
}

/// Whether `p` occurs in `s` (the empty text occurs everywhere).
pub fn has_substring(s: &str, p: &str) -> (r: bool)
    ensures
        r == contains(s@, p@),
{
    let sv = chars_of(s);
    let pv = chars_of(p);
    if pv.len() > sv.len() {
        assert(forall|i: int| !#[trigger] occurs_at(s@, p@, i));
        return false;
    }
    let last: usize = sv.len() - pv.len();
    let mut i: usize = 0;
    while i < last
        invariant
            sv@ == s@,
            pv@ == p@,
            last + pv.len() == sv.len(),
            i <= last,
            forall|j: int| 0 <= j < i ==> !#[trigger] occurs_at(s@, p@, j),
        decreases last - i,
    {
        if matches_at(&sv, &pv, i) {
            return true;
        }
        i += 1;
    }
    if matches_at(&sv, &pv, last) {
        return true;
    }
    assert forall|j: int| !#[trigger] occurs_at(s@, p@, j) by {
        if 0 <= j && j + p@.len() <= s@.len() {
            assert(j <= last);
        }
    }
    false
}

// ---------------------------------------------------------------------------
// Trimming
// ---------------------------------------------------------------------------

pub open spec fn trim_start_by(s: Seq<char>, p: spec_fn(char) -> bool) -> Seq<char>
    decreases s.len(),
{
    if s.len() > 0 && p(s[0]) {
        trim_start_by(s.drop_first(), p)
    } else {
        s
    }
}

pub open spec fn trim_end_by(s: Seq<char>, p: spec_fn(char) -> bool) -> Seq<char>
    decreases s.len(),
{
    if s.len() > 0 && p(s.last()) {
        trim_end_by(s.drop_last(), p)
    } else {
        s
    }
}

/// Removes every leading and trailing character that satisfies `p`.
pub open spec fn trim_by(s: Seq<char>, p: spec_fn(char) -> bool) -> Seq<char> {
    trim_end_by(trim_start_by(s, p), p)
}

pub open spec fn ws() -> spec_fn(char) -> bool {
    |c: char| is_ws(c)
}

pub open spec fn is_char(x: char) -> spec_fn(char) -> bool {
    |c: char| c == x
}

/// What `str::trim` gives: `s` without leading and trailing white space.
pub open spec fn trim(s: Seq<char>) -> Seq<char> {
    trim_by(s, ws())
}

/// Trims by white space (`by_ws`) or by the character `x`.
fn trim_impl(s: &str, by_ws: bool, x: char) -> (r: String)
    ensures
        r@ == trim_by(s@, if by_ws { ws() } else { is_char(x) }),
{
    let ghost p = if by_ws { ws() } else { is_char(x) };
    let v = chars_of(s);
    let n: usize = v.len();
    let mut i: usize = 0;
    assert(s@.skip(0) =~= s@);
    while i < n
        invariant
            v@ == s@,
            n == v.len(),
            i <= n,
            trim_start_by(s@, p) == trim_start_by(s@.skip(i as int), p),
            p == (if by_ws { ws() } else { is_char(x) }),
        ensures
            i < n ==> !p(s@[i as int]),
        decreases n - i,
    {
        let c = v[i];
        let hit = if by_ws { is_whitespace(c) } else { c == x };
        if !hit {
            break;
        }
        assert(s@.skip(i as int).drop_first() =~= s@.skip(i + 1));
        i += 1;
    }
    let ghost start = s@.skip(i as int);
    assert(trim_start_by(s@, p) == start) by {
        if i < n {
            assert(start[0] == v@[i as int]);
        } else {
            assert(start.len() == 0);
        }
    }
    let mut j: usize = n;
    while j > i
        invariant
            v@ == s@,
            n == v.len(),
            i <= j <= n,
            start == s@.subrange(i as int, n as int),
            trim_end_by(start, p) == trim_end_by(s@.subrange(i as int, j as int), p),
            p == (if by_ws { ws() } else { is_char(x) }),
        ensures
            j > i ==> !p(s@[j - 1]),
        decreases j - i,
    {
        let c = v[j - 1];
        let hit = if by_ws { is_whitespace(c) } else { c == x };
        if !hit {
            break;
        }
        assert(s@.subrange(i as int, j as int).drop_last() =~= s@.subrange(i as int, j - 1));
        j -= 1;
    }
    assert(start =~= s@.skip(i as int));
    let ghost mid = s@.subrange(i as int, j as int);
    assert(trim_end_by(mid, p) == mid) by {
        if j > i {
            assert(mid.last() == v@[j - 1]);
        }
    }
    string_of_range(&v, i, j)
}

/// `str::trim`: `s` without leading and trailing white space.
pub fn trim_ws(s: &str) -> (r: String)
    ensures
        r@ == trim(s@),
{
    trim_impl(s, true, ' ')
}

/// `str::trim_matches(x)`: `s` without leading and trailing copies of `x`.
pub fn trim_char(s: &str, x: char) -> (r: String)
    ensures
        r@ == trim_by(s@, is_char(x)),
{
    trim_impl(s, false, x)
}

/// `str::trim_start_matches(x)`: `s` without leading copies of `x`.
pub fn trim_start_char(s: &str, x: char) -> (r: String)
    ensures
        r@ == trim_start_by(s@, is_char(x)),
{
    let v = chars_of(s);
    let n: usize = v.len();
    let mut i: usize = 0;
    assert(s@.skip(0) =~= s@);
    while i < n && v[i] == x
        invariant
            v@ == s@,
            n == v.len(),
            i <= n,
            trim_start_by(s@, is_char(x)) == trim_start_by(s@.skip(i as int), is_char(x)),
        decreases n - i,
    {
        assert(s@.skip(i as int).drop_first() =~= s@.skip(i + 1));
        i += 1;
    }
    assert(s@.skip(i as int) =~= s@.subrange(i as int, n as int));
    string_of_range(&v, i, n)
}


// ---------------------------------------------------------------------------
// Lines and words
// ---------------------------------------------------------------------------

/// The character views of a sequence of strings.
pub open spec fn views(v: Seq<String>) -> Seq<Seq<char>> {
    v.map_values(|x: String| x@)
}

pub open spec fn strip_cr(l: Seq<char>) -> Seq<char> {
    if l.len() > 0 && l.last() == '\r' {
        l.drop_last()
    } else {
        l
    }
}

/// Reading `s` left to right: the lines completed so far (each without its
/// `\n`, and without a `\r` just before it) and the line under way.
pub open spec fn lines_fold(s: Seq<char>) -> (Seq<Seq<char>>, Seq<char>)
    decreases s.len(),
{
    if s.len() == 0 {
        (seq![], seq![])
    } else {
        let (done, cur) = lines_fold(s.drop_last());
        if s.last() == '\n' {
            (done.push(strip_cr(cur)), seq![])
        } else {
            (done, cur.push(s.last()))
        }
    }
}

/// What `str::lines` yields: the text split at `\n`, a `\r` before the `\n`
/// removed, and no empty line after a final `\n`.
pub open spec fn lines(s: Seq<char>) -> Seq<Seq<char>> {
    let (done, cur) = lines_fold(s);
    if cur.len() == 0 {
        done
    } else {
        done.push(cur)
    }
}

pub proof fn lemma_views_push(v: Seq<String>, x: String)
    ensures
        views(v.push(x)) == views(v).push(x@),
{
    assert(views(v.push(x)) =~= views(v).push(x@));
}

/// `str::lines`, collected.
pub fn split_lines(s: &str) -> (r: Vec<String>)
    ensures
        views(r@) == lines(s@),
{
    let v = chars_of(s);
    let n: usize = v.len();
    let mut done: Vec<String> = Vec::new();
    let mut cur: Vec<char> = Vec::new();
    let mut i: usize = 0;
    assert(views(done@) =~= seq![]);
    assert(s@.take(0) =~= seq![]);
    while i < n
        invariant
            v@ == s@,
            n == v.len(),
            i <= n,
            views(done@) == lines_fold(s@.take(i as int)).0,
            cur@ == lines_fold(s@.take(i as int)).1,
        decreases n - i,
    {
        let c = v[i];
        assert(s@.take(i + 1).drop_last() =~= s@.take(i as int));
        assert(s@.take(i + 1).last() == c);
        if c == '\n' {
            let k = cur.len();
            let line = if k > 0 && cur[k - 1] == '\r' {
                let l = string_of_range(&cur, 0, k - 1);
                assert(cur@.subrange(0, k - 1) =~= cur@.drop_last());
                l
            } else {
                string_of(&cur)
            };
            proof {
                lemma_views_push(done@, line);
            }
            done.push(line);
            cur = Vec::new();
            assert(cur@ =~= seq![]);
        } else {
            cur.push(c);
        }
        i += 1;
    }
    assert(s@.take(n as int) =~= s@);
    if cur.len() > 0 {
        let line = string_of(&cur);
        proof {
            lemma_views_push(done@, line);
        }
        done.push(line);
    }
    done
}

/// Reading `s` left to right: the words completed so far and the word under
/// way, words being the maximal runs of characters that are not white space.
pub open spec fn words_fold(s: Seq<char>) -> (Seq<Seq<char>>, Seq<char>)
    decreases s.len(),
{
    if s.len() == 0 {
        (seq![], seq![])
    } else {
        let (done, cur) = words_fold(s.drop_last());
        if is_ws(s.last()) {
            if cur.len() > 0 {
                (done.push(cur), seq![])
            } else {
                (done, seq![])
            }
        } else {
            (done, cur.push(s.last()))
        }
    }
}

/// What `str::split_whitespace` yields.
pub open spec fn words(s: Seq<char>) -> Seq<Seq<char>> {
    let (done, cur) = words_fold(s);
    if cur.len() == 0 {
        done
    } else {
        done.push(cur)
    }
}

/// `str::split_whitespace`, collected.
pub fn split_words(s: &str) -> (r: Vec<String>)
    ensures
        views(r@) == words(s@),
{
    let v = chars_of(s);
    let n: usize = v.len();
    let mut done: Vec<String> = Vec::new();
    let mut cur: Vec<char> = Vec::new();
    let mut i: usize = 0;
    assert(views(done@) =~= seq![]);
    assert(s@.take(0) =~= seq![]);
    while i < n
        invariant
            v@ == s@,
            n == v.len(),
            i <= n,
            views(done@) == words_fold(s@.take(i as int)).0,
            cur@ == words_fold(s@.take(i as int)).1,
        decreases n - i,
    {
        let c = v[i];
        assert(s@.take(i + 1).drop_last() =~= s@.take(i as int));
        assert(s@.take(i + 1).last() == c);
        if is_whitespace(c) {
            if cur.len() > 0 {
                let w = string_of(&cur);
                proof {
                    lemma_views_push(done@, w);
                }
                done.push(w);
            }
            cur = Vec::new();
            assert(cur@ =~= seq![]);
        } else {
            cur.push(c);
        }
        i += 1;
    }
    assert(s@.take(n as int) =~= s@);
    if cur.len() > 0 {
        let w = string_of(&cur);
        proof {
            lemma_views_push(done@, w);
        }
        done.push(w);
    }
    done
}

// ---------------------------------------------------------------------------
// Joining and numbers
// ---------------------------------------------------------------------------

/// `parts` with `sep` between each two neighbours.
pub open spec fn join(parts: Seq<Seq<char>>, sep: Seq<char>) -> Seq<char>
    decreases parts.len(),
{
    if parts.len() == 0 {
        seq![]
    } else if parts.len() == 1 {
        parts[0]
    } else {
        join(parts.drop_last(), sep) + sep + parts.last()
    }
}

/// `parts[from..].join(sep)`.
pub fn join_from(parts: &Vec<String>, from: usize, sep: &str) -> (r: String)
    requires
        from <= parts.len(),
    ensures
        r@ == join(views(parts@).skip(from as int), sep@),
{
    let mut r = String::new();
    let mut i: usize = from;
    assert(views(parts@).subrange(from as int, from as int) =~= seq![]);
    while i < parts.len()
        invariant
            from <= i <= parts.len(),
            r@ == join(views(parts@).subrange(from as int, i as int), sep@),
        decreases parts.len() - i,
    {
        let ghost sub = views(parts@).subrange(from as int, i + 1);
        assert(sub.drop_last() =~= views(parts@).subrange(from as int, i as int));
        assert(sub.last() == parts@[i as int]@);
        if i > from {
            r.append(sep);
        } else {
            assert(sub.len() == 1);
        }
        r.append(parts[i].as_str());
        i += 1;
    }
    assert(views(parts@).subrange(from as int, parts.len() as int) =~= views(parts@).skip(
        from as int,
    ));
    r
}

pub open spec fn digit(d: nat) -> char {
    ((d + 48) as u8) as char
}

/// The decimal digits of `n`, most significant first, without leading zeros.
pub open spec fn decimal(n: nat) -> Seq<char>
    decreases n,
{
    if n < 10 {
        seq![digit(n)]
    } else {
        decimal(n / 10).push(digit(n % 10))
    }
}

fn push_decimal(out: &mut String, n: u64)
    ensures
        final(out)@ == old(out)@ + decimal(n as nat),
    decreases n,
{
    if n >= 10 {
        push_decimal(out, n / 10);
    }
    let d: u8 = (n % 10) as u8;
    out.push((d + 48) as char);
    assert(out@ =~= old(out)@ + decimal(n as nat));
}

/// `n.to_string()`.
pub fn decimal_string(n: u64) -> (r: String)
    ensures
        r@ == decimal(n as nat),
{
    let mut r = String::new();
    push_decimal(&mut r, n);
    assert(r@ =~= decimal(n as nat));
    r
}


// ---------------------------------------------------------------------------
// Labelled rows and fallbacks
// ---------------------------------------------------------------------------

/// The character views of a sequence of (label, value) rows.
pub open spec fn row_views(v: Seq<(String, String)>) -> Seq<(Seq<char>, Seq<char>)> {
    v.map_values(|p: (String, String)| (p.0@, p.1@))
}

pub proof fn lemma_row_views_push(v: Seq<(String, String)>, x: (String, String))
    ensures
        row_views(v.push(x)) == row_views(v).push((x.0@, x.1@)),
{
    assert(row_views(v.push(x)) =~= row_views(v).push((x.0@, x.1@)));
}

/// The text of `r` when it is `Ok`, else `d`.
pub open spec fn ok_or(r: Result<String, String>, d: Seq<char>) -> Seq<char> {
    match r {
        Ok(s) => s@,
        Err(_) => d,
    }
}

/// The text of `r` when it is `Ok`, else `d`.
pub fn result_or(r: &Result<String, String>, d: &str) -> (s: String)
    ensures
        s@ == ok_or(*r, d@),
{
    match r {
        Ok(s) => s.clone(),
        Err(_) => String::from_str(d),
    }
}

/// The text of `o` when present, else `d`.
pub open spec fn some_or(o: Option<String>, d: Seq<char>) -> Seq<char> {
    match o {
        Some(s) => s@,
        None => d,
    }
}

/// The text of `o` when present, else `d`.
pub fn option_or(o: &Option<String>, d: &str) -> (s: String)
    ensures
        s@ == some_or(*o, d@),
{
    match o {
        Some(s) => s.clone(),
        None => String::from_str(d),
    }
}

/// Appends the row (`label`, `value`) to `rows`.
pub fn push_row(rows: &mut Vec<(String, String)>, label: &str, value: String)
    ensures
        row_views(final(rows)@) == row_views(old(rows)@).push((label@, value@)),
{
    let row = (String::from_str(label), value);
    proof {
        lemma_row_views_push(rows@, row);
    }
    rows.push(row);
}


/// `s` without its last character (unchanged when empty), as `String::pop`
/// leaves it.
pub fn without_last(s: &str) -> (r: String)
    ensures
        r@ == (if s@.len() > 0 {
            s@.drop_last()
        } else {
            s@
        }),
{
    let v = chars_of(s);
    if v.len() > 0 {
        let r = string_of_range(&v, 0, v.len() - 1);
        assert(s@.subrange(0, v.len() - 1) =~= s@.drop_last());
        r
    } else {
        string_of(&v)
    }
}

/// `s` followed by `c`.
pub fn with_char(s: &str, c: char) -> (r: String)
    ensures
        r@ == s@.push(c),
{
    let mut r = String::from_str(s);
    r.push(c);
    r
}

} // verus!
