//! Quoting typed text for `sh -c`, and the part of the shell's reading of a
//! word that such quoting relies on.

use vstd::prelude::*;

verus! {

/// How one character of the text stands between single quotes: itself, or,
/// for a single quote, close the quote, an escaped quote, and reopen.
pub open spec fn quote_piece(c: char) -> Seq<char> {
    if c == '\'' {
        seq!['\'', '\\', '\'', '\'']
    } else {
        seq![c]
    }
}

/// The quoted form of every character, in order.
pub open spec fn quote_body(s: Seq<char>) -> Seq<char>
    decreases s.len(),
{
    if s.len() == 0 {
        seq![]
    } else {
        quote_piece(s[0]) + quote_body(s.drop_first())
    }
}

/// `s` as one shell word: in single quotes, each single quote of `s`
/// written as `'\''`.
pub open spec fn shell_quote(s: Seq<char>) -> Seq<char> {
    seq!['\''] + quote_body(s) + seq!['\'']
}

/// A blank that ends a word for `sh`.
pub open spec fn is_blank(c: char) -> bool {
    c == ' ' || c == '\t' || c == '\n'
}

/// How `sh` reads a word from the start of `t`, as far as single quotes and
/// backslashes go: the characters of the word and how many characters of
/// `t` it takes. `quoted` tells whether a single quote is open. Inside
/// single quotes every character stands for itself up to the next single
/// quote; outside, a single quote opens a quote, a backslash takes the next
/// character as it is, and a blank ends the word. Any other character
/// outside quotes, and an unclosed quote, are not described here (`None`).
pub open spec fn sh_word(t: Seq<char>, quoted: bool) -> Option<(Seq<char>, nat)>
    decreases t.len(),
{
    if t.len() == 0 {
        if quoted {
            None
        } else {
            Some((seq![], 0))
        }
    } else if quoted {
        if t[0] == '\'' {
            match sh_word(t.drop_first(), false) {
                Some(r) => Some((r.0, r.1 + 1)),
                None => None,
            }
        } else {
            match sh_word(t.drop_first(), true) {
                Some(r) => Some((seq![t[0]] + r.0, r.1 + 1)),
                None => None,
            }
        }
    } else if t[0] == '\'' {
        match sh_word(t.drop_first(), true) {
            Some(r) => Some((r.0, r.1 + 1)),
            None => None,
        }
    } else if t[0] == '\\' && t.len() >= 2 {
        match sh_word(t.skip(2), false) {
            Some(r) => Some((seq![t[1]] + r.0, r.1 + 2)),
            None => None,
        }
    } else if is_blank(t[0]) {
        Some((seq![], 0))
    } else {
        None
    }
}

/// Quoting a text one character longer adds that character's piece.
pub proof fn lemma_quote_body_push(s: Seq<char>, c: char)
    ensures
        quote_body(s.push(c)) == quote_body(s) + quote_piece(c),
    decreases s.len(),
{
    if s.len() == 0 {
        let e = Seq::<char>::empty();
        assert(s.push(c).drop_first() =~= e);
        assert(s.push(c)[0] == c);
        assert(quote_body(e) == e);
        assert(s =~= e);
        assert(quote_body(s.push(c)) == quote_piece(c) + quote_body(e));
        assert(quote_body(s.push(c)) =~= quote_body(s) + quote_piece(c));
    } else {
        assert(s.push(c).drop_first() =~= s.drop_first().push(c));
        lemma_quote_body_push(s.drop_first(), c);
        assert(quote_body(s.push(c)) =~= quote_piece(s[0]) + (quote_body(s.drop_first())
            + quote_piece(c)));
    }
}

/// Inside an open quote, the quoted body of `s`, the closing quote and a
/// blank read back as exactly `s`.
proof fn lemma_body_reads_back(s: Seq<char>, rest: Seq<char>)
    requires
        rest.len() > 0,
        is_blank(rest[0]),
    ensures
        sh_word(quote_body(s) + seq!['\''] + rest, true) == Some(
            (s, (quote_body(s).len() + 1) as nat),
        ),
    decreases s.len(),
{
    let t = quote_body(s) + seq!['\''] + rest;
    if s.len() == 0 {
        assert(t =~= seq!['\''] + rest);
        assert(t.drop_first() =~= rest);
        assert(sh_word(rest, false) == Some((Seq::<char>::empty(), 0nat)));
        assert(s =~= Seq::<char>::empty());
    } else {
        let tail = quote_body(s.drop_first()) + seq!['\''] + rest;
        lemma_body_reads_back(s.drop_first(), rest);
        let r = sh_word(tail, true);
        assert(r == Some((s.drop_first(), (quote_body(s.drop_first()).len() + 1) as nat)));
        assert(seq![s[0]] + s.drop_first() =~= s);
        if s[0] == '\'' {
            assert(t =~= seq!['\'', '\\', '\'', '\''] + tail);
            let t1 = t.drop_first();
            assert(t1 =~= seq!['\\', '\'', '\''] + tail);
            assert(t1.skip(2) =~= seq!['\''] + tail);
            assert((seq!['\''] + tail).drop_first() =~= tail);
            assert(sh_word(seq!['\''] + tail, false) == Some(
                (s.drop_first(), (quote_body(s.drop_first()).len() + 2) as nat),
            ));
            assert(sh_word(t1, false) == Some(
                (seq!['\''] + s.drop_first(), (quote_body(s.drop_first()).len() + 4) as nat),
            ));
        } else {
            assert(t =~= seq![s[0]] + tail);
            assert(t.drop_first() =~= tail);
        }
    }
}

/// Whatever `s` holds, `sh` reads its quoted form, followed by a blank, as
/// one word that is exactly `s`, ending where the quoted form ends: what
/// follows is read as it stands.
pub proof fn lemma_quoted_is_one_word(s: Seq<char>, rest: Seq<char>)
    requires
        rest.len() > 0,
        is_blank(rest[0]),
    ensures
        sh_word(shell_quote(s) + rest, false) == Some((s, shell_quote(s).len())),
{
    let t = shell_quote(s) + rest;
    lemma_body_reads_back(s, rest);
    assert(t.drop_first() =~= quote_body(s) + seq!['\''] + rest);
}

/// `s` quoted as one shell word (see `shell_quote`).
pub fn shell_quoted(s: &str) -> (r: String)
    ensures
        r@ == shell_quote(s@),
{
    let v = crate::text::chars_of(s);
    let mut r = String::new();
    r.push('\'');
    let mut i: usize = 0;
    while i < v.len()
        invariant
            v@ == s@,
            i <= v.len(),
            r@ == seq!['\''] + quote_body(s@.take(i as int)),
        decreases v.len() - i,
    {
        let c = v[i];
        proof {
            assert(s@.take(i + 1) =~= s@.take(i as int).push(c));
            lemma_quote_body_push(s@.take(i as int), c);
        }
        if c == '\'' {
            r.push('\'');
            r.push('\\');
            r.push('\'');
            r.push('\'');
        } else {
            r.push(c);
        }
        assert(r@ =~= seq!['\''] + quote_body(s@.take(i + 1)));
        i += 1;
    }
    r.push('\'');
    assert(s@.take(v.len() as int) =~= s@);
    r
}

} // verus!
