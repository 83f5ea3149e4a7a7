//! Escaping of text for the messaging platform's HTML-like parse mode.
//!
//! Every piece of user or domain data (titles, descriptions, usernames,
//! message bodies) passes through [`escape_html`] before it is interpolated
//! into a reply, so that the three reserved markup characters `&`, `<` and
//! `>` never reach the platform unescaped.

use vstd::prelude::*;
use crate::text::{chars_to_string, str_to_chars};

verus! {

/// The escaping of one character: a reserved markup character becomes its
/// entity, every other character stands for itself.
pub open spec fn escape_char(c: char) -> Seq<char> {
    if c == '&' {
        seq!['&', 'a', 'm', 'p', ';']
    } else if c == '<' {
        seq!['&', 'l', 't', ';']
    } else if c == '>' {
        seq!['&', 'g', 't', ';']
    } else {
        seq![c]
    }
}

/// The escaping of a text: each character replaced by its escaping, in order.
pub open spec fn escape_seq(s: Seq<char>) -> Seq<char>
    decreases s.len(),
{
    if s.len() == 0 {
        Seq::empty()
    } else {
        escape_char(s[0]) + escape_seq(s.drop_first())
    }
}

/// Escaping works character by character, so it distributes over
/// extending a text by one character at its end.
pub proof fn lemma_escape_seq_push(s: Seq<char>, c: char)
    ensures
        escape_seq(s.push(c)) == escape_seq(s) + escape_char(c),
    decreases s.len(),
{
    if s.len() == 0 {
        assert(s.push(c) =~= seq![c]);
        assert(s.push(c)[0] == c);
        assert(s.push(c).drop_first() =~= Seq::<char>::empty());
        assert(escape_seq(s.push(c)) == escape_char(c) + escape_seq(Seq::<char>::empty()));
        assert(escape_char(c) + escape_seq(Seq::<char>::empty()) =~= escape_char(c));
        assert(escape_seq(s) + escape_char(c) =~= escape_char(c));
    } else {
        assert(s.push(c).drop_first() =~= s.drop_first().push(c));
        lemma_escape_seq_push(s.drop_first(), c);
        assert(escape_seq(s.push(c)) =~= escape_seq(s) + escape_char(c));
    }
}

/// A text is plain when it holds none of the three reserved markup characters.
pub open spec fn is_plain(s: Seq<char>) -> bool {
    forall|i: int| 0 <= i < s.len() ==> s[i] != '&' && s[i] != '<' && s[i] != '>'
}

/// Escaping leaves a plain text exactly as it was; in particular, escaping
/// an already-escaped text's non-entity characters introduces no change,
/// so escaping is idempotent on plain text.
pub proof fn lemma_escape_plain_identity(s: Seq<char>)
    requires
        is_plain(s),
    ensures
        escape_seq(s) == s,
    decreases s.len(),
{
    if s.len() == 0 {
        assert(escape_seq(s) =~= s);
    } else {
        assert(is_plain(s.drop_first())) by {
            assert(forall|i: int|
                0 <= i < s.drop_first().len() ==> s.drop_first()[i] == s[i + 1]);
        }
        lemma_escape_plain_identity(s.drop_first());
        assert(escape_seq(s) =~= s);
    }
}

/// The characters of `s`, escaped.
pub fn escape_chars(s: &Vec<char>) -> (out: Vec<char>)
    ensures
        out@ == escape_seq(s@),
{
    let mut out: Vec<char> = Vec::new();
    let mut i: usize = 0;
    while i < s.len()
        invariant
            i <= s@.len(),
            out@ == escape_seq(s@.take(i as int)),
        decreases s@.len() - i,
    {
        let c = s[i];
        if c == '&' {
            out.push('&');
            out.push('a');
            out.push('m');
            out.push('p');
            out.push(';');
        } else if c == '<' {
            out.push('&');
            out.push('l');
            out.push('t');
            out.push(';');
        } else if c == '>' {
            out.push('&');
            out.push('g');
            out.push('t');
            out.push(';');
        } else {
            out.push(c);
        }
        proof {
            lemma_escape_seq_push(s@.take(i as int), s@[i as int]);
            assert(s@.take(i as int).push(s@[i as int]) =~= s@.take(i as int + 1));
            assert(out@ =~= escape_seq(s@.take(i as int)) + escape_char(s@[i as int]));
        }
        i = i + 1;
    }
    assert(s@.take(s@.len() as int) =~= s@);
    out
}

/// Escape the three reserved markup characters of the platform's HTML-like
/// parse mode: `&` to `&amp;`, `<` to `&lt;`, `>` to `&gt;`.
pub fn escape_html(text: &str) -> (out: String)
    ensures
        out@ == escape_seq(text@),
{
    let chars = str_to_chars(text);
    let escaped = escape_chars(&chars);
    chars_to_string(&escaped)
}

} // verus!
