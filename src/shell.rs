use vstd::prelude::*;
use vstd::string::*;
use crate::strings::{push_char, text, push_text};

verus! {

/// The characters that force the ANSI-C quoted form `$'...'`.
pub open spec fn is_special(c: char) -> bool {
    c == '\n' || c == '\t' || c == '\''
}

/// Whether `s` holds a newline, a tab or a single quote.
pub open spec fn needs_ansi(s: Seq<char>) -> bool {
    exists|i: int| 0 <= i < s.len() && is_special(s[i])
}

/// The escape sequence that stands for `c` inside `$'...'`.
pub open spec fn escape_seq(c: char) -> Seq<char> {
    if c == '\n' {
        seq!['\\', 'n']
    } else if c == '\t' {
        seq!['\\', 't']
    } else if c == '\'' {
        seq!['\\', '\'']
    } else if c == '\\' {
        seq!['\\', '\\']
    } else {
        seq![c]
    }
}

/// `s` with every character replaced by its escape sequence.
pub open spec fn escaped(s: Seq<char>) -> Seq<char>
    decreases s.len(),
{
    if s.len() == 0 {
        Seq::empty()
    } else {
        escape_seq(s[0]) + escaped(s.drop_first())
    }
}

/// Reads escape sequences back: `\n` and `\t` give newline and tab, a
/// backslash before any other character gives that character.
pub open spec fn unescaped(e: Seq<char>) -> Seq<char>
    decreases e.len(),
{
    if e.len() == 0 {
        Seq::empty()
    } else if e[0] == '\\' && e.len() >= 2 {
        let c = if e[1] == 'n' {
            '\n'
        } else if e[1] == 't' {
            '\t'
        } else {
            e[1]
        };
        seq![c] + unescaped(e.subrange(2, e.len() as int))
    } else {
        seq![e[0]] + unescaped(e.drop_first())
    }
}

/// The shell token that stands for `s`: plain single quotes when `s` holds
/// no special character, the ANSI-C form otherwise.
pub open spec fn shell_quoted(s: Seq<char>) -> Seq<char> {
    if needs_ansi(s) {
        seq!['$', '\''] + escaped(s) + seq!['\'']
    } else {
        seq!['\''] + s + seq!['\'']
    }
}

/// Escaping distributes over appending one character.
pub proof fn lemma_escaped_push(s: Seq<char>, c: char)
    ensures
        escaped(s.push(c)) == escaped(s) + escape_seq(c),
    decreases s.len(),
{
    if s.len() == 0 {
        assert(s.push(c).drop_first() =~= Seq::<char>::empty());
        assert(escaped(Seq::<char>::empty()) =~= Seq::<char>::empty());
        assert(escaped(s.push(c)) =~= escape_seq(c));
    } else {
        assert(s.push(c).drop_first() =~= s.drop_first().push(c));
        lemma_escaped_push(s.drop_first(), c);
        assert(escaped(s.push(c)) =~= escaped(s) + escape_seq(c));
    }
}

/// Reading back an escaped prefix gives the original characters.
pub proof fn lemma_unescaped_prefix(s: Seq<char>, t: Seq<char>)
    ensures
        unescaped(escaped(s) + t) == s + unescaped(t),
    decreases s.len(),
{
    if s.len() == 0 {
        assert(escaped(s) + t =~= t);
        assert(s + unescaped(t) =~= unescaped(t));
    } else {
        let rest = escaped(s.drop_first()) + t;
        let e = escaped(s) + t;
        assert(e =~= escape_seq(s[0]) + rest);
        lemma_unescaped_prefix(s.drop_first(), t);
        if escape_seq(s[0]).len() == 2 {
            assert(e.subrange(2, e.len() as int) =~= rest);
        } else {
            assert(e.drop_first() =~= rest);
        }
        assert(s =~= seq![s[0]] + s.drop_first());
        assert(unescaped(e) =~= s + unescaped(t));
    }
}

/// Every string in the ANSI-C form starts with `$'`, ends with `'`, and
/// reading its escape sequences back between those gives the string again.
pub proof fn lemma_shell_quoted_round_trip(s: Seq<char>)
    requires
        needs_ansi(s),
    ensures
        shell_quoted(s).len() >= 3,
        shell_quoted(s).subrange(0, 2) == seq!['$', '\''],
        shell_quoted(s).last() == '\'',
        unescaped(shell_quoted(s).subrange(2, shell_quoted(s).len() - 1)) == s,
{
    let q = shell_quoted(s);
    assert(q.subrange(0, 2) =~= seq!['$', '\'']);
    assert(q.subrange(2, q.len() - 1) =~= escaped(s));
    lemma_unescaped_prefix(s, Seq::empty());
    assert(escaped(s) + Seq::<char>::empty() =~= escaped(s));
    assert(s + Seq::<char>::empty() =~= s);
}

/// Whether the string holds a newline, a tab or a single quote, which the
/// plain single-quoted form cannot carry.
pub fn escape_mode(s: &str) -> (r: bool)
    ensures
        r == needs_ansi(s@),
{
    let n = s.unicode_len();
    let mut i: usize = 0;
    while i < n
        invariant
            n == s@.len(),
            i <= n,
            forall|j: int| 0 <= j < i ==> !is_special(#[trigger] s@[j]),
        decreases n - i,
    {
        let c = s.get_char(i);
        if c == '\n' || c == '\t' || c == '\'' {
            return true;
        }
        i = i + 1;
    }
    false
}

/// Replaces newline, tab, single quote and backslash by their escape
/// sequences.
pub fn escape_string(s: &str) -> (r: String)
    ensures
        r@ == escaped(s@),
{
    let n = s.unicode_len();
    let mut out = String::new();
    let mut i: usize = 0;
    while i < n
        invariant
            n == s@.len(),
            i <= n,
            out@ == escaped(s@.subrange(0, i as int)),
        decreases n - i,
    {
        let c = s.get_char(i);
        proof {
            assert(s@.subrange(0, i + 1) =~= s@.subrange(0, i as int).push(c));
            lemma_escaped_push(s@.subrange(0, i as int), c);
        }
        if c == '\n' {
            push_char(&mut out, '\\');
            push_char(&mut out, 'n');
        } else if c == '\t' {
            push_char(&mut out, '\\');
            push_char(&mut out, 't');
        } else if c == '\'' {
            push_char(&mut out, '\\');
            push_char(&mut out, '\'');
        } else if c == '\\' {
            push_char(&mut out, '\\');
            push_char(&mut out, '\\');
        } else {
            push_char(&mut out, c);
        }
        i = i + 1;
    }
    assert(s@.subrange(0, n as int) =~= s@);
    out
}

/// Quotes `s` as one shell word.
pub fn encode_shell_string(s: &str) -> (r: String)
    ensures
        r@ == shell_quoted(s@),
        !needs_ansi(s@) ==> r@ == seq!['\''] + s@ + seq!['\''],
{
    let mut out = String::new();
    if escape_mode(s) {
        let escaped = escape_string(s);
        push_char(&mut out, '$');
        push_char(&mut out, '\'');
        push_text(&mut out, escaped.as_str());
        push_char(&mut out, '\'');
    } else {
        push_char(&mut out, '\'');
        push_text(&mut out, s);
        push_char(&mut out, '\'');
    }
    out
}

} // verus!
