//! Parsing of a webhook message's text into a command token and its
//! arguments.
//!
//! A text that does not open with the command prefix `/` is no command. The
//! token is everything up to the first space, with its leading slashes
//! removed, cut at the first `@` (the platform appends the bot's handle
//! there), and lower-cased; the arguments are the trimmed remainder.

use vstd::prelude::*;
use vstd::string::StringExecFns;
use crate::ids::{spec_trimmed, str_trim};
use crate::text::{chars_to_string, str_to_chars};

verus! {

/// How many characters of `s` come before the first `c`, all of them
/// where `c` does not occur.
pub open spec fn spec_prefix_until(s: Seq<char>, c: char) -> int
    decreases s.len(),
{
    if s.len() == 0 {
        0
    } else if s[0] == c {
        0
    } else {
        1 + spec_prefix_until(s.drop_first(), c)
    }
}

/// A scan that saw no `c` before `i` and stands at `c` (or at the end)
/// has found [`spec_prefix_until`].
pub proof fn lemma_prefix_until_from_scan(s: Seq<char>, c: char, i: int)
    requires
        0 <= i <= s.len(),
        forall|j: int| 0 <= j < i ==> s[j] != c,
        i == s.len() || s[i] == c,
    ensures
        spec_prefix_until(s, c) == i,
    decreases i,
{
    if s.len() == 0 {
    } else if i == 0 {
    } else {
        assert(s[0] != c);
        assert(forall|j: int| 0 <= j < i - 1 ==> s.drop_first()[j] == s[j + 1] && s[j + 1] != c);
        assert(i - 1 == s.drop_first().len() || s.drop_first()[i - 1] == s[i]);
        lemma_prefix_until_from_scan(s.drop_first(), c, i - 1);
    }
}

/// The index of the first `c` in `v`, or `v`'s length where it has none.
pub fn find_char(v: &Vec<char>, c: char) -> (i: usize)
    ensures
        i <= v@.len(),
        i == spec_prefix_until(v@, c),
{
    let mut i: usize = 0;
    while i < v.len() && v[i] != c
        invariant
            i <= v@.len(),
            forall|j: int| 0 <= j < i ==> v@[j] != c,
        decreases v@.len() - i,
    {
        i = i + 1;
    }
    proof {
        lemma_prefix_until_from_scan(v@, c, i as int);
    }
    i
}

/// The characters of `v` from `from` (inclusive) to `to` (exclusive).
pub fn vec_subrange(v: &Vec<char>, from: usize, to: usize) -> (out: Vec<char>)
    requires
        from <= to <= v@.len(),
    ensures
        out@ == v@.subrange(from as int, to as int),
{
    let mut out: Vec<char> = Vec::new();
    let mut i: usize = from;
    while i < to
        invariant
            from <= i <= to <= v@.len(),
            out@ == v@.subrange(from as int, i as int),
        decreases to - i,
    {
        out.push(v[i]);
        assert(out@ =~= v@.subrange(from as int, i as int + 1));
        i = i + 1;
    }
    out
}

/// `s` with its leading slashes removed.
pub open spec fn spec_strip_slashes(s: Seq<char>) -> Seq<char>
    decreases s.len(),
{
    if s.len() > 0 && s[0] == '/' {
        spec_strip_slashes(s.drop_first())
    } else {
        s
    }
}

/// A scan that saw only slashes before `k` and stands at something else
/// (or at the end) has found where [`spec_strip_slashes`] begins.
pub proof fn lemma_strip_slashes_from_scan(s: Seq<char>, k: int)
    requires
        0 <= k <= s.len(),
        forall|j: int| 0 <= j < k ==> s[j] == '/',
        k == s.len() || s[k] != '/',
    ensures
        spec_strip_slashes(s) == s.skip(k),
    decreases k,
{
    if k == 0 {
        assert(s.skip(0) =~= s);
    } else {
        assert(s[0] == '/');
        assert(forall|j: int| 0 <= j < k - 1 ==> s.drop_first()[j] == s[j + 1] && s[j + 1] == '/');
        assert(k - 1 == s.drop_first().len() || s.drop_first()[k - 1] == s[k]);
        lemma_strip_slashes_from_scan(s.drop_first(), k - 1);
        assert(s.drop_first().skip(k - 1) =~= s.skip(k));
    }
}

/// The lower-cased form of a character: an ASCII capital letter moves to
/// its small form, everything else stands.
pub open spec fn spec_lower_char(c: char) -> char {
    if 65 <= c as u32 && c as u32 <= 90 {
        (((c as u32) + 32) as u8) as char
    } else {
        c
    }
}

/// The character-wise lower-cased form of a text.
pub open spec fn spec_lower(s: Seq<char>) -> Seq<char> {
    Seq::new(s.len(), |i: int| spec_lower_char(s[i]))
}

/// The lower-cased form of one character.
fn lower_char(c: char) -> (r: char)
    ensures
        r == spec_lower_char(c),
{
    let u = c as u32;
    if 65 <= u && u <= 90 {
        ((u + 32) as u8) as char
    } else {
        c
    }
}

/// The character-wise lower-cased form of `v`.
pub fn lower_vec(v: &Vec<char>) -> (out: Vec<char>)
    ensures
        out@ == spec_lower(v@),
{
    let mut out: Vec<char> = Vec::new();
    let mut i: usize = 0;
    while i < v.len()
        invariant
            i <= v@.len(),
            out@.len() == i,
            forall|j: int| 0 <= j < i ==> out@[j] == spec_lower_char(v@[j]),
        decreases v@.len() - i,
    {
        out.push(lower_char(v[i]));
        i = i + 1;
    }
    assert(out@ =~= spec_lower(v@));
    out
}

/// The text up to the first space: the command part, prefix included.
pub open spec fn spec_head(s: Seq<char>) -> Seq<char> {
    s.take(spec_prefix_until(s, ' '))
}

/// The text after the first space, empty where there is none.
pub open spec fn spec_tail(s: Seq<char>) -> Seq<char> {
    if spec_prefix_until(s, ' ') == s.len() {
        Seq::empty()
    } else {
        s.skip(spec_prefix_until(s, ' ') + 1)
    }
}

/// The command token of a text: the head without its leading slashes, cut
/// at the first `@`, lower-cased.
pub open spec fn spec_command_token(text: Seq<char>) -> Seq<char> {
    let stripped = spec_strip_slashes(spec_head(text));
    spec_lower(stripped.take(spec_prefix_until(stripped, '@')))
}

/// The arguments of a text: the trimmed remainder after the first space.
pub open spec fn spec_args(text: Seq<char>) -> Seq<char> {
    spec_trimmed(spec_tail(text))
}

/// A parsed command: the token that routes it, and its arguments.
#[derive(Debug)]
pub struct ParsedCommand {
    pub command: String,
    pub args: String,
}

/// Split a message text into command token and arguments. A text that does
/// not open with `/` is no command.
pub fn parse_command(text: &str) -> (r: Option<ParsedCommand>)
    ensures
        (text@.len() == 0 || text@[0] != '/') ==> r is None,
        (text@.len() > 0 && text@[0] == '/') ==> (r matches Some(p) && p.command@
            == spec_command_token(text@) && p.args@ == spec_args(text@)),
{
    let chars = str_to_chars(text);
    if chars.len() == 0 {
        return None;
    }
    if chars[0] != '/' {
        return None;
    }
    let sp = find_char(&chars, ' ');
    let head = vec_subrange(&chars, 0, sp);
    proof {
        assert(head@ =~= spec_head(text@));
    }
    let tail: Vec<char> = if sp == chars.len() {
        Vec::new()
    } else {
        vec_subrange(&chars, sp + 1, chars.len())
    };
    proof {
        assert(tail@ =~= spec_tail(text@));
    }
    let mut k: usize = 0;
    while k < head.len() && head[k] == '/'
        invariant
            k <= head@.len(),
            forall|j: int| 0 <= j < k ==> head@[j] == '/',
        decreases head@.len() - k,
    {
        k = k + 1;
    }
    proof {
        lemma_strip_slashes_from_scan(head@, k as int);
    }
    let stripped = vec_subrange(&head, k, head.len());
    proof {
        assert(stripped@ =~= spec_strip_slashes(spec_head(text@)));
    }
    let at = find_char(&stripped, '@');
    let before = vec_subrange(&stripped, 0, at);
    proof {
        assert(before@ =~= stripped@.take(at as int));
    }
    let lowered = lower_vec(&before);
    let command = chars_to_string(&lowered);
    let tail_text = chars_to_string(&tail);
    let trimmed = str_trim(tail_text.as_str());
    let args = String::from_str(trimmed);
    Some(ParsedCommand { command, args })
}

} // verus!
