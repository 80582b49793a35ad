//! Tokenization of one command line: splitting on runs of white space.

use vstd::prelude::*;

use crate::ext::push_char;

verus! {

/// A character that separates tokens: the Unicode white-space characters,
/// as `char::is_whitespace` classifies them.
pub open spec fn is_ws(c: char) -> bool {
    c == ' ' || c == '\t' || c == '\n' || c == '\u{b}' || c == '\u{c}' || c == '\r'
        || c == '\u{85}' || c == '\u{a0}' || c == '\u{1680}'
        || c == '\u{2000}' || c == '\u{2001}' || c == '\u{2002}' || c == '\u{2003}'
        || c == '\u{2004}' || c == '\u{2005}' || c == '\u{2006}' || c == '\u{2007}'
        || c == '\u{2008}' || c == '\u{2009}' || c == '\u{200a}'
        || c == '\u{2028}' || c == '\u{2029}' || c == '\u{202f}' || c == '\u{205f}'
        || c == '\u{3000}'
}

/// Whether `c` separates tokens.
pub fn is_ws_char(c: char) -> (r: bool)
    ensures
        r == is_ws(c),
{
    c == ' ' || c == '\t' || c == '\n' || c == '\u{b}' || c == '\u{c}' || c == '\r'
        || c == '\u{85}' || c == '\u{a0}' || c == '\u{1680}'
        || c == '\u{2000}' || c == '\u{2001}' || c == '\u{2002}' || c == '\u{2003}'
        || c == '\u{2004}' || c == '\u{2005}' || c == '\u{2006}' || c == '\u{2007}'
        || c == '\u{2008}' || c == '\u{2009}' || c == '\u{200a}'
        || c == '\u{2028}' || c == '\u{2029}' || c == '\u{202f}' || c == '\u{205f}'
        || c == '\u{3000}'
}

/// One step of the splitter: feed one character into the state, a pair of
/// the tokens finished so far and the token being collected.
pub open spec fn tok_step(st: (Seq<Seq<char>>, Seq<char>), c: char) -> (Seq<Seq<char>>, Seq<char>) {
    if is_ws(c) {
        if st.1.len() == 0 {
            st
        } else {
            (st.0.push(st.1), Seq::empty())
        }
    } else {
        (st.0, st.1.push(c))
    }
}

/// The splitter state after consuming all of `s`, one character at a time
/// from the left.
pub open spec fn tok_state(s: Seq<char>) -> (Seq<Seq<char>>, Seq<char>)
    decreases s.len(),
{
    if s.len() == 0 {
        (Seq::empty(), Seq::empty())
    } else {
        tok_step(tok_state(s.drop_last()), s.last())
    }
}

/// The whitespace-delimited tokens of `s`, in order. No token is empty and
/// an empty or all-whitespace `s` has none.
pub open spec fn spec_tokens(s: Seq<char>) -> Seq<Seq<char>> {
    let st = tok_state(s);
    if st.1.len() == 0 {
        st.0
    } else {
        st.0.push(st.1)
    }
}

/// The view of each collected token.
pub open spec fn views_of(tokens: Seq<String>) -> Seq<Seq<char>> {
    tokens.map_values(|t: String| t@)
}

/// Split `line` on runs of white space into its tokens, in order.
pub fn tokenize(line: &str) -> (tokens: Vec<String>)
    ensures
        views_of(tokens@) == spec_tokens(line@),
{
    let n: usize = line.unicode_len();
    let mut tokens: Vec<String> = Vec::new();
    let mut cur: String = String::new();
    let mut i: usize = 0;
    while i < n
        invariant
            n == line@.len(),
            i <= n,
            (views_of(tokens@), cur@) == tok_state(line@.subrange(0, i as int)),
        decreases n - i,
    {
        proof {
            let pref = line@.subrange(0, i + 1);
            assert(pref.drop_last() =~= line@.subrange(0, i as int));
            assert(pref.last() == line@[i as int]);
        }
        let c = line.get_char(i);
        if is_ws_char(c) {
            if !cur.as_str().is_empty() {
                tokens.push(cur);
                cur = String::new();
                proof {
                    assert(views_of(tokens@) =~= tok_state(line@.subrange(0, i + 1)).0);
                }
            }
        } else {
            push_char(&mut cur, c);
        }
        i = i + 1;
    }
    proof {
        assert(line@.subrange(0, n as int) =~= line@);
    }
    if !cur.as_str().is_empty() {
        tokens.push(cur);
        proof {
            assert(views_of(tokens@) =~= spec_tokens(line@));
        }
    }
    tokens
}

/// Compare two string slices character by character.
pub fn str_eq(a: &str, b: &str) -> (r: bool)
    ensures
        r == (a@ == b@),
{
    let na: usize = a.unicode_len();
    let nb: usize = b.unicode_len();
    if na != nb {
        return false;
    }
    let mut i: usize = 0;
    while i < na
        invariant
            na == a@.len(),
            nb == b@.len(),
            na == nb,
            i <= na,
            forall|j: int| 0 <= j < i ==> a@[j] == b@[j],
        decreases na - i,
    {
        if a.get_char(i) != b.get_char(i) {
            return false;
        }
        i = i + 1;
    }
    proof {
        assert(a@ =~= b@);
    }
    true
}

/// Every finished token the splitter has collected is non-empty.
proof fn lemma_tok_state_nonempty(s: Seq<char>)
    ensures
        forall|i: int|
            0 <= i < tok_state(s).0.len() ==> #[trigger] tok_state(s).0[i].len() > 0,
    decreases s.len(),
{
    if s.len() > 0 {
        lemma_tok_state_nonempty(s.drop_last());
        let prev = tok_state(s.drop_last());
        if is_ws(s.last()) && prev.1.len() > 0 {
            assert(tok_state(s).0 == prev.0.push(prev.1));
            assert forall|i: int| 0 <= i < tok_state(s).0.len() implies #[trigger] tok_state(
                s,
            ).0[i].len() > 0 by {
                if i < prev.0.len() {
                    assert(tok_state(s).0[i] == prev.0[i]);
                } else {
                    assert(tok_state(s).0[i] == prev.1);
                }
            }
        } else {
            assert(tok_state(s).0 == prev.0);
        }
    }
}

/// Tokens are never empty: splitting on white space yields only non-empty
/// tokens, whatever the line.
pub proof fn lemma_no_token_is_empty(s: Seq<char>)
    ensures
        forall|i: int|
            0 <= i < spec_tokens(s).len() ==> #[trigger] spec_tokens(s)[i].len() > 0,
{
    lemma_tok_state_nonempty(s);
}

/// Consuming nothing but white space leaves the splitter in its initial
/// state.
proof fn lemma_blank_tok_state(s: Seq<char>)
    requires
        forall|i: int| 0 <= i < s.len() ==> is_ws(#[trigger] s[i]),
    ensures
        tok_state(s) == (Seq::<Seq<char>>::empty(), Seq::<char>::empty()),
    decreases s.len(),
{
    if s.len() > 0 {
        assert(forall|i: int| 0 <= i < s.drop_last().len() ==> is_ws(#[trigger] s.drop_last()[i]));
        lemma_blank_tok_state(s.drop_last());
        assert(is_ws(s.last()));
    }
}

/// A line of nothing but white space has no tokens at all.
pub proof fn lemma_blank_line_has_no_tokens(s: Seq<char>)
    requires
        forall|i: int| 0 <= i < s.len() ==> is_ws(#[trigger] s[i]),
    ensures
        spec_tokens(s) == Seq::<Seq<char>>::empty(),
{
    lemma_blank_tok_state(s);
}

} // verus!
