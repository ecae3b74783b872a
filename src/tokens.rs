//! The token scanner: finds the `[KEY]` and `[KEY:VALUE]` tokens of a line.
use vstd::prelude::*;

use crate::text::{chars_of, substring};

verus! {

/// A character that ends a token's key.
pub open spec fn is_key_stop(c: char) -> bool {
    c == '[' || c == ']' || c == ':'
}

/// A character that ends a token's value.
pub open spec fn is_bracket(c: char) -> bool {
    c == '[' || c == ']'
}

/// The first index at or after `i` that holds a key stop, or the length.
pub open spec fn next_key_stop(line: Seq<char>, i: int) -> int
    decreases line.len() - i,
{
    if i < 0 || i >= line.len() {
        line.len() as int
    } else if is_key_stop(line[i]) {
        i
    } else {
        next_key_stop(line, i + 1)
    }
}

/// The first index at or after `i` that holds a bracket, or the length.
pub open spec fn next_bracket(line: Seq<char>, i: int) -> int
    decreases line.len() - i,
{
    if i < 0 || i >= line.len() {
        line.len() as int
    } else if is_bracket(line[i]) {
        i
    } else {
        next_bracket(line, i + 1)
    }
}

/// Where a token lies in its line: it opens at `start`, its key runs from
/// `start + 1` to `key_end`, its value from `value_start` to `end`, and `end`
/// holds the closing bracket.
pub struct Span {
    pub start: int,
    pub key_end: int,
    pub value_start: int,
    pub end: int,
}

/// The token that opens at `s`, if one does: an opening bracket, a non-empty
/// key without brackets or colons, then either a closing bracket, or a colon,
/// a value without brackets and a closing bracket.
pub open spec fn token_at(line: Seq<char>, s: int) -> Option<Span> {
    if 0 <= s < line.len() && line[s] == '[' {
        let c = next_key_stop(line, s + 1);
        if c <= s + 1 || c >= line.len() {
            None
        } else if line[c] == ']' {
            Some(Span { start: s, key_end: c, value_start: c, end: c })
        } else if line[c] == ':' {
            let e = next_bracket(line, c + 1);
            if e < line.len() && line[e] == ']' {
                Some(Span { start: s, key_end: c, value_start: c + 1, end: e })
            } else {
                None
            }
        } else {
            None
        }
    } else {
        None
    }
}

proof fn lemma_next_key_stop(line: Seq<char>, i: int)
    requires
        0 <= i <= line.len(),
    ensures
        i <= next_key_stop(line, i) <= line.len(),
        next_key_stop(line, i) < line.len() ==> is_key_stop(line[next_key_stop(line, i)]),
        forall|k: int| i <= k < next_key_stop(line, i) ==> !is_key_stop(#[trigger] line[k]),
    decreases line.len() - i,
{
    if i < line.len() && !is_key_stop(line[i]) {
        lemma_next_key_stop(line, i + 1);
    }
}

proof fn lemma_next_bracket(line: Seq<char>, i: int)
    requires
        0 <= i <= line.len(),
    ensures
        i <= next_bracket(line, i) <= line.len(),
        next_bracket(line, i) < line.len() ==> is_bracket(line[next_bracket(line, i)]),
        forall|k: int| i <= k < next_bracket(line, i) ==> !is_bracket(#[trigger] line[k]),
    decreases line.len() - i,
{
    if i < line.len() && !is_bracket(line[i]) {
        lemma_next_bracket(line, i + 1);
    }
}

/// The shape of a token that `token_at` finds.
pub open spec fn well_formed_span(line: Seq<char>, t: Span) -> bool {
    &&& 0 <= t.start < t.key_end - 1
    &&& t.key_end <= t.value_start <= t.end < line.len()
    &&& line[t.start] == '['
    &&& line[t.end] == ']'
    &&& (t.value_start == t.key_end) == (line[t.key_end] == ']')
    &&& t.value_start == t.key_end + 1 ==> line[t.key_end] == ':'
    &&& forall|k: int| t.start < k < t.key_end ==> !is_key_stop(#[trigger] line[k])
    &&& forall|k: int| t.value_start <= k < t.end ==> !is_bracket(#[trigger] line[k])
}

/// A token found at `s` starts there and is well formed.
pub proof fn lemma_token_at_shape(line: Seq<char>, s: int)
    ensures
        token_at(line, s) matches Some(t) ==> t.start == s && well_formed_span(line, t),
{
    if 0 <= s < line.len() && line[s] == '[' {
        lemma_next_key_stop(line, s + 1);
        let c = next_key_stop(line, s + 1);
        if s + 1 < c < line.len() && line[c] == ':' {
            lemma_next_bracket(line, c + 1);
        }
    }
}

/// The spans of all tokens at or after `i`, left to right; after a token the
/// search goes on behind its closing bracket.
pub open spec fn spans_from(line: Seq<char>, i: int) -> Seq<Span>
    decreases line.len() - i,
    via spans_from_decreases
{
    if i < 0 || i >= line.len() {
        Seq::<Span>::empty()
    } else {
        match token_at(line, i) {
            Some(t) => seq![t] + spans_from(line, t.end + 1),
            None => spans_from(line, i + 1),
        }
    }
}

#[via_fn]
proof fn spans_from_decreases(line: Seq<char>, i: int) {
    lemma_token_at_shape(line, i);
}

/// The key of a token span.
pub open spec fn span_key(line: Seq<char>, t: Span) -> Seq<char> {
    line.subrange(t.start + 1, t.key_end)
}

/// The value of a token span: empty for a `[KEY]` token.
pub open spec fn span_value(line: Seq<char>, t: Span) -> Seq<char> {
    line.subrange(t.value_start, t.end)
}

/// The key and value of every token of a line, left to right.
pub open spec fn scan(line: Seq<char>) -> Seq<(Seq<char>, Seq<char>)> {
    spans_from(line, 0).map_values(|t: Span| (span_key(line, t), span_value(line, t)))
}

/// One token of a line.
pub struct Token {
    pub key: String,
    pub value: String,
}

impl View for Token {
    type V = (Seq<char>, Seq<char>);

    open spec fn view(&self) -> (Seq<char>, Seq<char>) {
        (self.key@, self.value@)
    }
}

/// The views of a sequence of tokens.
pub open spec fn token_views(v: Seq<Token>) -> Seq<(Seq<char>, Seq<char>)> {
    v.map_values(|t: Token| t@)
}

fn find_key_stop(cs: &Vec<char>, i: usize) -> (r: usize)
    requires
        i <= cs@.len(),
    ensures
        r == next_key_stop(cs@, i as int),
{
    let mut j = i;
    while j < cs.len()
        invariant
            i <= j <= cs@.len(),
            next_key_stop(cs@, i as int) == next_key_stop(cs@, j as int),
        decreases cs@.len() - j,
    {
        let c = cs[j];
        if c == '[' || c == ']' || c == ':' {
            return j;
        }
        j = j + 1;
    }
    j
}

fn find_bracket(cs: &Vec<char>, i: usize) -> (r: usize)
    requires
        i <= cs@.len(),
    ensures
        r == next_bracket(cs@, i as int),
{
    let mut j = i;
    while j < cs.len()
        invariant
            i <= j <= cs@.len(),
            next_bracket(cs@, i as int) == next_bracket(cs@, j as int),
        decreases cs@.len() - j,
    {
        let c = cs[j];
        if c == '[' || c == ']' {
            return j;
        }
        j = j + 1;
    }
    j
}

/// The token that opens at `s`, as indices: key end, value start and end.
fn token_at_index(cs: &Vec<char>, s: usize) -> (r: Option<(usize, usize, usize)>)
    requires
        s < cs@.len(),
    ensures
        r matches Some((k, v, e)) ==> token_at(cs@, s as int) == Some(
            Span { start: s as int, key_end: k as int, value_start: v as int, end: e as int },
        ),
        r is None ==> token_at(cs@, s as int) is None,
{
    let n = cs.len();
    if cs[s] != '[' {
        return None;
    }
    let c = find_key_stop(cs, s + 1);
    if c <= s + 1 || c >= n {
        return None;
    }
    if cs[c] == ']' {
        return Some((c, c, c));
    }
    if cs[c] != ':' {
        return None;
    }
    let e = find_bracket(cs, c + 1);
    if e < cs.len() && cs[e] == ']' {
        Some((c, c + 1, e))
    } else {
        None
    }
}

/// The tokens of one line, left to right.
pub fn scan_line(line: &str) -> (r: Vec<Token>)
    ensures
        token_views(r@) == scan(line@),
{
    let cs = chars_of(line);
    let n = cs.len();
    let ghost f = |t: Span| (span_key(line@, t), span_value(line@, t));
    let ghost done: Seq<Span> = Seq::empty();
    let mut out: Vec<Token> = Vec::new();
    let mut i: usize = 0;
    while i < n
        invariant
            cs@ == line@,
            n == cs@.len(),
            i <= n,
            f == (|t: Span| (span_key(line@, t), span_value(line@, t))),
            spans_from(line@, 0) == done + spans_from(line@, i as int),
            token_views(out@) == done.map_values(f),
        decreases n - i,
    {
        match token_at_index(&cs, i) {
            Some((k, v, e)) => {
                proof {
                    lemma_token_at_shape(line@, i as int);
                }
                let key = substring(line, i + 1, k);
                let value = substring(line, v, e);
                let ghost t = Span {
                    start: i as int,
                    key_end: k as int,
                    value_start: v as int,
                    end: e as int,
                };
                let ghost old_out = out@;
                let ghost ft = f(t);
                out.push(Token { key, value });
                proof {
                    assert(token_views(out@) =~= token_views(old_out).push(ft));
                    assert(done.push(t).map_values(f) =~= done.map_values(f).push(ft));
                    assert(spans_from(line@, i as int) == seq![t] + spans_from(line@, e + 1));
                    assert(done + spans_from(line@, i as int) =~= done.push(t) + spans_from(
                        line@,
                        e + 1,
                    ));
                    done = done.push(t);
                    assert(token_views(out@) =~= done.map_values(f));
                }
                i = e + 1;
            },
            None => {
                i = i + 1;
            },
        }
    }
    assert(done + spans_from(line@, i as int) =~= done);
    out
}

proof fn lemma_spans_from(line: Seq<char>, i: int)
    requires
        0 <= i,
    ensures
        forall|k: int|
            0 <= k < spans_from(line, i).len() ==> {
                let t = #[trigger] spans_from(line, i)[k];
                &&& i <= t.start
                &&& token_at(line, t.start) == Some(t)
                &&& well_formed_span(line, t)
            },
        forall|k: int|
            0 <= k < spans_from(line, i).len() - 1 ==> (#[trigger] spans_from(line, i)[k]).end
                < spans_from(line, i)[k + 1].start,
        forall|p: int|
            i <= p && (#[trigger] token_at(line, p)) is Some ==> exists|k: int|
                0 <= k < spans_from(line, i).len() && (#[trigger] spans_from(line, i)[k]).start
                    == p,
    decreases line.len() - i,
{
    if i < line.len() {
        lemma_token_at_shape(line, i);
        match token_at(line, i) {
            Some(t) => {
                let rest = spans_from(line, t.end + 1);
                lemma_spans_from(line, t.end + 1);
                let all = spans_from(line, i);
                assert(all == seq![t] + rest);
                assert forall|k: int| 0 <= k < all.len() - 1 implies (#[trigger] all[k]).end
                    < all[k + 1].start by {
                    if k > 0 {
                        assert(all[k] == rest[k - 1]);
                        assert(all[k + 1] == rest[k]);
                    } else {
                        assert(all[1] == rest[0]);
                    }
                }
                assert forall|p: int| i <= p && (#[trigger] token_at(line, p)) is Some implies exists|
                    k: int,
                | 0 <= k < all.len() && (#[trigger] all[k]).start == p by {
                    lemma_token_at_shape(line, p);
                    if p == i {
                        assert(all[0].start == p);
                    } else if p <= t.end {
                        assert(line[p] == '[');
                        assert(false);
                    } else {
                        let k0 = choose|k: int| 0 <= k < rest.len() && (#[trigger] rest[k]).start == p;
                        assert(all[k0 + 1] == rest[k0]);
                    }
                }
                assert forall|k: int| 0 <= k < all.len() implies {
                    let u = #[trigger] all[k];
                    &&& i <= u.start
                    &&& token_at(line, u.start) == Some(u)
                    &&& well_formed_span(line, u)
                } by {
                    if k > 0 {
                        assert(all[k] == rest[k - 1]);
                    }
                }
            },
            None => {
                lemma_spans_from(line, i + 1);
            },
        }
    }
}

/// Every token that the scanner reports opens where `token_at` finds a
/// well-formed token, the reported tokens come left to right without
/// overlapping, and every position where a well-formed token opens is
/// reported: an unbalanced bracket yields no token.
pub proof fn lemma_scan_finds_every_token(line: Seq<char>)
    ensures
        forall|k: int|
            0 <= k < spans_from(line, 0).len() ==> {
                let t = #[trigger] spans_from(line, 0)[k];
                &&& token_at(line, t.start) == Some(t)
                &&& well_formed_span(line, t)
            },
        forall|k: int|
            0 <= k < spans_from(line, 0).len() - 1 ==> (#[trigger] spans_from(line, 0)[k]).end
                < spans_from(line, 0)[k + 1].start,
        forall|p: int|
            (#[trigger] token_at(line, p)) is Some ==> exists|k: int|
                0 <= k < spans_from(line, 0).len() && (#[trigger] spans_from(line, 0)[k]).start
                    == p,
{
    lemma_spans_from(line, 0);
    assert forall|p: int| (#[trigger] token_at(line, p)) is Some implies exists|k: int|
        0 <= k < spans_from(line, 0).len() && (#[trigger] spans_from(line, 0)[k]).start == p by {
        lemma_token_at_shape(line, p);
    }
}

} // verus!
