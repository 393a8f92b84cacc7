//! The search texts handed to SQLite: the full-text query and the `LIKE`
//! pattern built from what the user typed.
use vstd::prelude::*;
use crate::text::{chars_of, owned, push_char};

verus! {

/// `s` with each double quote doubled.
pub open spec fn escape_quotes(s: Seq<char>) -> Seq<char>
    decreases s.len(),
{
    if s.len() == 0 {
        s
    } else {
        let r = escape_quotes(s.drop_last());
        if s.last() == '"' {
            r + seq!['"', '"']
        } else {
            r.push(s.last())
        }
    }
}

/// The full-text query for the search text `q`: `q` with its double quotes
/// doubled, between two asterisks.
pub open spec fn fts_query_text(q: Seq<char>) -> Seq<char> {
    seq!['*'] + escape_quotes(q) + seq!['*']
}

/// The `LIKE` pattern for the search text `q`: `q` between two percent signs.
pub open spec fn like_pattern(q: Seq<char>) -> Seq<char> {
    seq!['%'] + q + seq!['%']
}

/// The full-text query for the search text `q`.
pub fn fts_query(q: &str) -> (r: String)
    ensures
        r@ == fts_query_text(q@),
{
    let cs = chars_of(q);
    let mut out = String::new();
    push_char(&mut out, '*');
    let n = cs.len();
    for i in 0..n
        invariant
            n == cs.len(),
            cs@ == q@,
            out@ == seq!['*'] + escape_quotes(q@.take(i as int)),
    {
        let c = cs[i];
        assert(q@.take(i + 1).drop_last() == q@.take(i as int));
        if c == '"' {
            push_char(&mut out, '"');
            push_char(&mut out, '"');
            assert(out@ =~= seq!['*'] + escape_quotes(q@.take(i + 1)));
        } else {
            push_char(&mut out, c);
            assert(out@ =~= seq!['*'] + escape_quotes(q@.take(i + 1)));
        }
    }
    assert(q@.take(n as int) == q@);
    push_char(&mut out, '*');
    assert(out@ =~= fts_query_text(q@));
    out
}

/// The `LIKE` pattern for the search text `q`.
pub fn like_query(q: &str) -> (r: String)
    ensures
        r@ == like_pattern(q@),
{
    let mut out = owned("%");
    proof {
        reveal_strlit("%");
    }
    out.append(q);
    push_char(&mut out, '%');
    assert(out@ =~= like_pattern(q@));
    out
}

} // verus!
