//! Whitespace tokenization of input lines.
//!
//! An input line is split on runs of whitespace into tokens; leading and
//! trailing whitespace is ignored. A line that holds only whitespace yields
//! no tokens at all.

use vstd::prelude::*;

verus! {

/// The characters treated as whitespace when splitting an input line:
/// the ASCII whitespace set.
pub open spec fn is_shell_ws(c: char) -> bool {
    c == ' ' || c == '\t' || c == '\n' || c == '\u{c}' || c == '\r'
}

/// Executable test for [`is_shell_ws`].
pub fn is_shell_ws_char(c: char) -> (r: bool)
    ensures
        r == is_shell_ws(c),
{
    c == ' ' || c == '\t' || c == '\n' || c == '\u{c}' || c == '\r'
}

/// The given character sequence with its maximal whitespace prefix removed.
pub open spec fn skip_ws(s: Seq<char>) -> Seq<char>
    decreases s.len(),
{
    if s.len() == 0 {
        s
    } else if is_shell_ws(s[0]) {
        skip_ws(s.drop_first())
    } else {
        s
    }
}

/// The maximal non-whitespace prefix of the given character sequence.
pub open spec fn head_token(s: Seq<char>) -> Seq<char>
    decreases s.len(),
{
    if s.len() == 0 || is_shell_ws(s[0]) {
        Seq::empty()
    } else {
        seq![s[0]] + head_token(s.drop_first())
    }
}

/// The tokens of a line: the maximal non-whitespace runs, in order.
pub open spec fn tokens_of(s: Seq<char>) -> Seq<Seq<char>>
    decreases s.len(),
    via tokens_of_decreases
{
    let rest = skip_ws(s);
    if rest.len() == 0 {
        Seq::empty()
    } else {
        seq![head_token(rest)] + tokens_of(rest.skip(head_token(rest).len() as int))
    }
}

#[via_fn]
proof fn tokens_of_decreases(s: Seq<char>) {
    lemma_skip_ws_shape(s);
    let rest = skip_ws(s);
    if rest.len() > 0 {
        lemma_head_token_shape(rest);
    }
}

/// `skip_ws` never lengthens a sequence, and what it returns starts with a
/// non-whitespace character unless it is empty.
pub proof fn lemma_skip_ws_shape(s: Seq<char>)
    ensures
        skip_ws(s).len() <= s.len(),
        skip_ws(s).len() > 0 ==> !is_shell_ws(skip_ws(s)[0]),
    decreases s.len(),
{
    if s.len() > 0 && is_shell_ws(s[0]) {
        lemma_skip_ws_shape(s.drop_first());
    }
}

/// `head_token` never lengthens a sequence, and is non-empty exactly when
/// the sequence starts with a non-whitespace character.
pub proof fn lemma_head_token_shape(s: Seq<char>)
    ensures
        head_token(s).len() <= s.len(),
        s.len() > 0 && !is_shell_ws(s[0]) ==> head_token(s).len() >= 1,
    decreases s.len(),
{
    if s.len() > 0 && !is_shell_ws(s[0]) {
        lemma_head_token_shape(s.drop_first());
    }
}

/// The views of a sequence of string slices.
pub open spec fn token_views(ts: Seq<&str>) -> Seq<Seq<char>> {
    ts.map_values(|t: &str| t@)
}

/// Whether two string slices hold the same characters.
pub fn str_equal(a: &str, b: &str) -> (r: bool)
    ensures
        r == (a@ == b@),
{
    let n = a.unicode_len();
    if n != b.unicode_len() {
        return false;
    }
    let mut i: usize = 0;
    while i < n
        invariant
            i <= n,
            n == a@.len(),
            n == b@.len(),
            forall|k: int| 0 <= k < i ==> a@[k] == b@[k],
        decreases n - i,
    {
        if a.get_char(i) != b.get_char(i) {
            return false;
        }
        i += 1;
    }
    proof {
        assert(a@ =~= b@);
    }
    true
}

/// The given sequences joined with a single space between neighbours.
pub open spec fn join_spaced(ts: Seq<Seq<char>>) -> Seq<char>
    decreases ts.len(),
{
    if ts.len() == 0 {
        Seq::empty()
    } else if ts.len() == 1 {
        ts[0]
    } else {
        ts[0] + " "@ + join_spaced(ts.drop_first())
    }
}

/// Appending one more piece extends the joined text by a space and the piece.
proof fn lemma_join_spaced_push(p: Seq<Seq<char>>, x: Seq<char>)
    requires
        p.len() >= 1,
    ensures
        join_spaced(p.push(x)) == join_spaced(p) + " "@ + x,
    decreases p.len(),
{
    if p.len() == 1 {
        assert(p.push(x).drop_first() =~= seq![x]);
        assert(p.push(x)[0] == p[0]);
        assert(join_spaced(seq![x]) == seq![x][0]);
        assert(seq![x][0] == x);
        assert(join_spaced(p) == p[0]);
    } else {
        assert(p.push(x).drop_first() =~= p.drop_first().push(x));
        lemma_join_spaced_push(p.drop_first(), x);
        assert(p.push(x)[0] == p[0]);
        assert(p[0] + " "@ + (join_spaced(p.drop_first()) + " "@ + x) =~= (p[0] + " "@
            + join_spaced(p.drop_first())) + " "@ + x);
    }
}

/// Joins the given string slices with a single space between neighbours;
/// empty input gives the empty string.
pub fn join_with_spaces(args: &[&str]) -> (r: String)
    ensures
        r@ == join_spaced(token_views(args@)),
{
    let n = args.len();
    if n == 0 {
        return String::new();
    }
    let first: &str = *vstd::slice::slice_index_get(args, 0);
    let mut r: String = first.to_owned();
    let mut i: usize = 1;
    proof {
        assert(token_views(args@).take(1) =~= seq![args@[0]@]);
    }
    while i < n
        invariant
            1 <= i <= n,
            n == args@.len(),
            r@ == join_spaced(token_views(args@).take(i as int)),
        decreases n - i,
    {
        let t: &str = *vstd::slice::slice_index_get(args, i);
        proof {
            lemma_join_spaced_push(token_views(args@).take(i as int), t@);
            assert(token_views(args@).take(i as int).push(t@) =~= token_views(args@).take(
                i as int + 1,
            ));
        }
        r.append(" ");
        r.append(t);
        proof {
            assert(r@ =~= join_spaced(token_views(args@).take(i as int + 1)));
        }
        i += 1;
    }
    proof {
        assert(token_views(args@).take(n as int) =~= token_views(args@));
    }
    r
}

/// Dropping one leading whitespace character leaves the tokens unchanged.
proof fn lemma_ws_step(s: Seq<char>, i: int)
    requires
        0 <= i < s.len(),
        is_shell_ws(s[i]),
    ensures
        tokens_of(s.skip(i)) == tokens_of(s.skip(i + 1)),
{
    assert(s.skip(i).drop_first() =~= s.skip(i + 1));
    assert(skip_ws(s.skip(i)) == skip_ws(s.skip(i + 1)));
}

/// On a sequence whose first `m` characters are non-whitespace and whose
/// character at `m` (if any) is whitespace, `head_token` returns exactly
/// those first `m` characters.
proof fn lemma_head_token_exact(t: Seq<char>, m: int)
    requires
        0 <= m <= t.len(),
        forall|k: int| 0 <= k < m ==> !is_shell_ws(t[k]),
        m == t.len() || is_shell_ws(t[m]),
    ensures
        head_token(t) == t.subrange(0, m),
    decreases m,
{
    if m == 0 {
        assert(head_token(t) =~= t.subrange(0, 0));
    } else {
        lemma_head_token_exact(t.drop_first(), m - 1);
        assert(seq![t[0]] + t.drop_first().subrange(0, m - 1) =~= t.subrange(0, m));
    }
}

/// Unfolds `tokens_of` across one complete token: positions `start` up to
/// `end` are non-whitespace, and the token ends at `end` (end of line or a
/// whitespace character).
proof fn lemma_token_at(s: Seq<char>, start: int, end: int)
    requires
        0 <= start < end <= s.len(),
        forall|k: int| start <= k < end ==> !is_shell_ws(s[k]),
        end == s.len() || is_shell_ws(s[end]),
    ensures
        tokens_of(s.skip(start)) == seq![s.subrange(start, end)] + tokens_of(s.skip(end)),
{
    let t = s.skip(start);
    let m = end - start;
    assert(forall|k: int| 0 <= k < m ==> !is_shell_ws(t[k]));
    assert(m == t.len() || is_shell_ws(t[m]));
    lemma_head_token_exact(t, m);
    assert(skip_ws(t) == t);
    assert(t.subrange(0, m) =~= s.subrange(start, end));
    assert(t.skip(m) =~= s.skip(end));
}

/// Splits an input line on runs of whitespace into its tokens.
pub fn tokenize<'a>(input: &'a str) -> (tokens: Vec<&'a str>)
    ensures
        token_views(tokens@) == tokens_of(input@),
{
    let n = input.unicode_len();
    let mut tokens: Vec<&'a str> = Vec::new();
    let mut i: usize = 0;
    proof {
        assert(input@.skip(0) =~= input@);
        assert(token_views(tokens@) + tokens_of(input@.skip(0)) =~= tokens_of(input@));
    }
    while i < n
        invariant
            i <= n,
            n == input@.len(),
            tokens_of(input@) == token_views(tokens@) + tokens_of(input@.skip(i as int)),
        decreases n - i,
    {
        if is_shell_ws_char(input.get_char(i)) {
            proof {
                lemma_ws_step(input@, i as int);
            }
            i += 1;
        } else {
            let start = i;
            i += 1;
            while i < n && !is_shell_ws_char(input.get_char(i))
                invariant
                    start < i <= n,
                    n == input@.len(),
                    forall|k: int| start <= k < i ==> !is_shell_ws(input@[k]),
                decreases n - i,
            {
                i += 1;
            }
            let tok = input.substring_char(start, i);
            proof {
                lemma_token_at(input@, start as int, i as int);
                assert(token_views(tokens@.push(tok)) =~= token_views(tokens@) + seq![tok@]);
                assert((token_views(tokens@) + seq![tok@]) + tokens_of(input@.skip(i as int))
                    =~= token_views(tokens@) + (seq![tok@] + tokens_of(input@.skip(i as int))));
            }
            tokens.push(tok);
        }
    }
    proof {
        assert(input@.skip(n as int).len() == 0);
        assert(tokens_of(input@.skip(n as int)) =~= Seq::<Seq<char>>::empty());
        assert(token_views(tokens@) + Seq::<Seq<char>>::empty() =~= token_views(tokens@));
    }
    tokens
}

} // verus!
