//! Master database text queries: a query that was registered as localizable answers
//! with its localized text when it has one, and the text is logged on one line.
use vstd::prelude::*;
use crate::text::{chars_of, escape_chars, escaped, escaped_char, string_from_chars};

verus! {

/// The text a query answers with, by address (0 for null): for a registered query,
/// its localized text if it has one and the original otherwise; for any other
/// query, the original.
pub fn resolve_query_text(registered: bool, localized: Option<usize>, original: usize) -> (r: usize)
    ensures
        r == if registered {
            match localized {
                Some(l) => l,
                None => original,
            }
        } else {
            original
        },
{
    if registered {
        match localized {
            Some(l) => l,
            None => original,
        }
    } else {
        original
    }
}

/// `s` with each line feed written as `\n`, so that it fits on one log line.
pub fn escape_newlines(s: &str) -> (r: String)
    ensures
        r@ == escaped(s@, false),
{
    let c = chars_of(s);
    let e = escape_chars(&c, false);
    string_from_chars(&e)
}

/// The text as the query log shows it: on one line when text debugging is on, as
/// it is otherwise.
pub fn query_log_text(s: &str, text_debug: bool) -> (r: String)
    ensures
        r@ == if text_debug {
            escaped(s@, false)
        } else {
            s@
        },
{
    if text_debug {
        escape_newlines(s)
    } else {
        s.to_owned()
    }
}

/// An escaped text holds no line feed.
pub proof fn lemma_escaped_is_one_line(s: Seq<char>, escape_cr: bool)
    ensures
        !escaped(s, escape_cr).contains('\n'),
        escape_cr ==> !escaped(s, escape_cr).contains('\r'),
    decreases s.len(),
{
    if s.len() > 0 {
        lemma_escaped_is_one_line(s.drop_last(), escape_cr);
        let rest = escaped(s.drop_last(), escape_cr);
        let tail = crate::text::escaped_char(s.last(), escape_cr);
        assert(escaped(s, escape_cr) == rest + tail);
        assert forall|i: int| 0 <= i < (rest + tail).len() implies (rest + tail)[i] != '\n' && (escape_cr ==> (rest + tail)[i] != '\r') by {
            if i < rest.len() {
                assert((rest + tail)[i] == rest[i]);
                assert(!rest.contains('\n'));
                if rest[i] == '\n' {
                    assert(rest.contains('\n'));
                }
                if escape_cr && rest[i] == '\r' {
                    assert(rest.contains('\r'));
                }
            }
        }
    }
}


/// Escaping works character by character: escaping two texts one after the other
/// gives the two escaped texts one after the other; a line feed becomes `\` `n`,
/// a carriage return `\` `r` when asked, and any other character stays as it is.
pub proof fn lemma_escaped_char_by_char(a: Seq<char>, b: Seq<char>, c: char, escape_cr: bool)
    ensures
        escaped(a + b, escape_cr) == escaped(a, escape_cr) + escaped(b, escape_cr),
        escaped(seq!['\n'], escape_cr) == seq!['\\', 'n'],
        escaped(seq!['\r'], escape_cr) == if escape_cr { seq!['\\', 'r'] } else { seq!['\r'] },
        c != '\n' && c != '\r' ==> escaped(seq![c], escape_cr) == seq![c],
    decreases b.len(),
{
    assert(escaped(Seq::<char>::empty(), escape_cr) == Seq::<char>::empty());
    assert(seq!['\n'].len() == 1 && seq!['\n'].last() == '\n');
    assert(seq!['\r'].len() == 1 && seq!['\r'].last() == '\r');
    assert(seq![c].len() == 1 && seq![c].last() == c);
    assert(seq!['\n'].drop_last() =~= Seq::<char>::empty());
    assert(seq!['\r'].drop_last() =~= Seq::<char>::empty());
    assert(seq![c].drop_last() =~= Seq::<char>::empty());
    assert(Seq::<char>::empty() + seq!['\\', 'n'] =~= seq!['\\', 'n']);
    assert(Seq::<char>::empty() + seq!['\\', 'r'] =~= seq!['\\', 'r']);
    assert(Seq::<char>::empty() + seq!['\r'] =~= seq!['\r']);
    assert(Seq::<char>::empty() + seq![c] =~= seq![c]);
    assert(escaped(seq!['\n'], escape_cr) == escaped(Seq::<char>::empty(), escape_cr) + escaped_char('\n', escape_cr));
    assert(escaped(seq!['\r'], escape_cr) == escaped(Seq::<char>::empty(), escape_cr) + escaped_char('\r', escape_cr));
    assert(escaped(seq![c], escape_cr) == escaped(Seq::<char>::empty(), escape_cr) + escaped_char(c, escape_cr));
    if b.len() == 0 {
        assert(a + b =~= a);
        assert(escaped(a, escape_cr) + Seq::<char>::empty() =~= escaped(a, escape_cr));
    } else {
        lemma_escaped_char_by_char(a, b.drop_last(), c, escape_cr);
        assert((a + b).drop_last() =~= a + b.drop_last());
        assert((a + b).last() == b.last());
        assert(escaped(a, escape_cr) + escaped(b.drop_last(), escape_cr) + escaped_char(b.last(), escape_cr)
            =~= escaped(a, escape_cr) + (escaped(b.drop_last(), escape_cr) + escaped_char(b.last(), escape_cr)));
    }
}

} // verus!
