//! Splitting a full name into whitespace-separated tokens.
//!
//! The model is stated over `Seq<char>`: `tokens(s)` is the list of maximal
//! runs of non-whitespace characters of `s`, in order. The executable side
//! scans the characters once and reports where the first and the last token
//! lie.
use vstd::prelude::*;
use vstd::std_specs::iter::IteratorSpec;

verus! {

/// The Unicode `White_Space` property, which `char::is_whitespace` and
/// `str::split_whitespace` go by.
pub open spec fn is_white_space(c: char) -> bool {
    ||| ('\u{9}' <= c && c <= '\u{d}')
    ||| c == ' '
    ||| c == '\u{85}'
    ||| c == '\u{a0}'
    ||| c == '\u{1680}'
    ||| ('\u{2000}' <= c && c <= '\u{200a}')
    ||| c == '\u{2028}'
    ||| c == '\u{2029}'
    ||| c == '\u{202f}'
    ||| c == '\u{205f}'
    ||| c == '\u{3000}'
}

/// The tokens of `s`: its maximal runs of non-whitespace characters, in
/// order. Read left to right: a whitespace character adds nothing; a
/// non-whitespace character extends the current token when the character
/// before it is one too, and starts a new token otherwise.
pub open spec fn tokens(s: Seq<char>) -> Seq<Seq<char>>
    decreases s.len(),
{
    if s.len() == 0 {
        Seq::empty()
    } else {
        let prev = tokens(s.drop_last());
        let c = s.last();
        if is_white_space(c) {
            prev
        } else if s.len() > 1 && !is_white_space(s[s.len() - 2]) {
            prev.update(prev.len() - 1, prev.last().push(c))
        } else {
            prev.push(seq![c])
        }
    }
}

/// The family part of a name: its last token, if it has any.
pub open spec fn family_of(s: Seq<char>) -> Option<Seq<char>> {
    if tokens(s).len() == 0 {
        None
    } else {
        Some(tokens(s).last())
    }
}

/// The given part of a name: its first token, when it has at least two.
pub open spec fn given_of(s: Seq<char>) -> Option<Seq<char>> {
    if tokens(s).len() >= 2 {
        Some(tokens(s)[0])
    } else {
        None
    }
}

/// Every token is a non-empty run of non-whitespace characters.
pub proof fn lemma_tokens_well_formed(s: Seq<char>)
    ensures
        forall|k: int| 0 <= k < tokens(s).len() ==> #[trigger] tokens(s)[k].len() > 0,
        forall|k: int, j: int|
            0 <= k < tokens(s).len() && 0 <= j < tokens(s)[k].len() ==> !is_white_space(
                #[trigger] tokens(s)[k][j],
            ),
    decreases s.len(),
{
    if s.len() > 0 {
        lemma_tokens_well_formed(s.drop_last());
        let prev = tokens(s.drop_last());
        if !is_white_space(s.last()) && s.len() > 1 && !is_white_space(s[s.len() - 2]) {
            lemma_trailing_token(s.drop_last());
            assert forall|k: int, j: int|
                0 <= k < tokens(s).len() && 0 <= j < tokens(s)[k].len() implies !is_white_space(
                #[trigger] tokens(s)[k][j],
            ) by {
                if k == prev.len() - 1 && j < prev.last().len() {
                    assert(tokens(s)[k][j] == prev[k][j]);
                }
            }
        }
    }
}

/// A text that ends in a non-whitespace character has a token.
pub proof fn lemma_trailing_token(s: Seq<char>)
    requires
        s.len() > 0,
        !is_white_space(s.last()),
    ensures
        tokens(s).len() > 0,
    decreases s.len(),
{
    if s.len() > 1 && !is_white_space(s[s.len() - 2]) {
        lemma_trailing_token(s.drop_last());
    }
}

/// `s[a..b]` is a maximal run of non-whitespace characters of `s`: it is not
/// empty, and whitespace or an end of `s` stands on each side of it.
pub open spec fn is_run(s: Seq<char>, a: int, b: int) -> bool {
    &&& 0 <= a < b <= s.len()
    &&& forall|k: int| a <= k < b ==> !is_white_space(#[trigger] s[k])
    &&& a == 0 || is_white_space(s[a - 1])
    &&& b == s.len() || is_white_space(s[b])
}

/// Every character of `s[from..to]` is whitespace.
pub open spec fn all_white_space(s: Seq<char>, from: int, to: int) -> bool {
    forall|k: int| from <= k < to ==> is_white_space(#[trigger] s[k])
}

/// `s[a..b]` is the last token of `s`: a run after which only whitespace
/// follows.
pub open spec fn is_last_run(s: Seq<char>, a: int, b: int) -> bool {
    is_run(s, a, b) && all_white_space(s, b, s.len() as int)
}

/// `s[a..b]` is the first token of `s`: a run before which only whitespace
/// stands.
pub open spec fn is_first_run(s: Seq<char>, a: int, b: int) -> bool {
    is_run(s, a, b) && all_white_space(s, 0, a)
}

/// A text has no token exactly where it is all whitespace. Otherwise its last
/// token is the run after which only whitespace follows, and its first token
/// the run before which only whitespace stands (and which, where there are
/// two tokens or more, does not reach the end).
pub open spec fn first_and_last_runs(s: Seq<char>) -> bool {
    &&& tokens(s).len() == 0 <==> all_white_space(s, 0, s.len() as int)
    &&& tokens(s).len() > 0 ==> exists|a: int, b: int|
        #[trigger] is_last_run(s, a, b) && s.subrange(a, b) == tokens(s).last()
    &&& tokens(s).len() > 0 ==> exists|a: int, b: int|
        #[trigger] is_first_run(s, a, b) && first_run_facts(s, a, b)
}

/// What else holds of the run `s[a..b]` that `first_and_last_runs` picks as
/// the first token.
pub open spec fn first_run_facts(s: Seq<char>, a: int, b: int) -> bool {
    &&& s.subrange(a, b) == tokens(s)[0]
    &&& tokens(s).len() == 1 ==> all_white_space(s, b, s.len() as int)
    &&& tokens(s).len() >= 2 ==> b < s.len()
}

/// See `first_and_last_runs`.
pub proof fn lemma_first_and_last_token(s: Seq<char>)
    ensures
        first_and_last_runs(s),
    decreases s.len(),
{
    if s.len() > 0 {
        let n = s.len() as int;
        lemma_first_and_last_token(s.drop_last());
        if is_white_space(s.last()) {
            lemma_step_white_space(s);
        } else if n > 1 && !is_white_space(s[n - 2]) {
            lemma_step_extend(s);
        } else {
            lemma_step_start(s);
        }
    }
}

proof fn lemma_same_prefix(s: Seq<char>)
    requires
        s.len() > 0,
    ensures
        forall|k: int|
            #![trigger s.drop_last()[k]]
            #![trigger s[k]]
            0 <= k < s.len() - 1 ==> s.drop_last()[k] == s[k],
{
}

proof fn lemma_step_white_space(s: Seq<char>)
    requires
        s.len() > 0,
        is_white_space(s.last()),
        first_and_last_runs(s.drop_last()),
    ensures
        first_and_last_runs(s),
{
    let p = s.drop_last();
    let prev = tokens(p);
    lemma_same_prefix(s);
    assert(tokens(s) == prev);
    if prev.len() > 0 {
        let (a, b) = choose|a: int, b: int|
            #[trigger] is_last_run(p, a, b) && p.subrange(a, b) == prev.last();
        assert(s.subrange(a, b) =~= p.subrange(a, b));
        assert(is_last_run(s, a, b));
        let (a2, b2) = choose|a: int, b: int|
            #[trigger] is_first_run(p, a, b) && first_run_facts(p, a, b);
        assert(s.subrange(a2, b2) =~= p.subrange(a2, b2));
        assert(is_first_run(s, a2, b2));
        assert(first_run_facts(s, a2, b2));
    } else {
        assert(all_white_space(s, 0, s.len() as int));
    }
}

proof fn lemma_step_extend(s: Seq<char>)
    requires
        s.len() > 1,
        !is_white_space(s.last()),
        !is_white_space(s[s.len() - 2]),
        first_and_last_runs(s.drop_last()),
    ensures
        first_and_last_runs(s),
{
    let p = s.drop_last();
    let prev = tokens(p);
    let c = s.last();
    let n = s.len() as int;
    lemma_same_prefix(s);
    lemma_trailing_token(p);
    assert(tokens(s) == prev.update(prev.len() - 1, prev.last().push(c)));
    let (a, b) = choose|a: int, b: int|
        #[trigger] is_last_run(p, a, b) && p.subrange(a, b) == prev.last();
    assert(b == n - 1) by {
        if b < n - 1 {
            assert(is_white_space(p[n - 2]));
        }
    }
    assert(s.subrange(a, n) =~= p.subrange(a, b).push(c));
    assert(is_last_run(s, a, n));
    let (a2, b2) = choose|a: int, b: int|
        #[trigger] is_first_run(p, a, b) && first_run_facts(p, a, b);
    if prev.len() == 1 {
        assert(b2 == n - 1) by {
            if b2 < n - 1 {
                assert(is_white_space(p[n - 2]));
            }
        }
        assert(s.subrange(a2, n) =~= p.subrange(a2, b2).push(c));
        assert(is_first_run(s, a2, n));
        assert(first_run_facts(s, a2, n));
    } else {
        assert(s.subrange(a2, b2) =~= p.subrange(a2, b2));
        assert(is_first_run(s, a2, b2));
        assert(first_run_facts(s, a2, b2));
    }
}

proof fn lemma_step_start(s: Seq<char>)
    requires
        s.len() > 0,
        !is_white_space(s.last()),
        s.len() == 1 || is_white_space(s[s.len() - 2]),
        first_and_last_runs(s.drop_last()),
    ensures
        first_and_last_runs(s),
{
    let p = s.drop_last();
    let prev = tokens(p);
    let c = s.last();
    let n = s.len() as int;
    lemma_same_prefix(s);
    assert(tokens(s) == prev.push(seq![c]));
    assert(s.subrange(n - 1, n) =~= seq![c]);
    assert(is_last_run(s, n - 1, n));
    if prev.len() == 0 {
        assert(is_first_run(s, n - 1, n));
        assert(first_run_facts(s, n - 1, n));
    } else {
        let (a2, b2) = choose|a: int, b: int|
            #[trigger] is_first_run(p, a, b) && first_run_facts(p, a, b);
        assert(b2 < n - 1) by {
            if b2 == n - 1 {
                assert(!is_white_space(p[n - 2]));
            }
        }
        assert(s.subrange(a2, b2) =~= p.subrange(a2, b2));
        assert(is_first_run(s, a2, b2));
        assert(first_run_facts(s, a2, b2));
    }
}

/// Whether `c` is whitespace, as `is_white_space` states it.
pub fn is_white_space_char(c: char) -> (r: bool)
    ensures
        r == is_white_space(c),
{
    ('\u{9}' <= c && c <= '\u{d}') || c == ' ' || c == '\u{85}' || c == '\u{a0}' || c
        == '\u{1680}' || ('\u{2000}' <= c && c <= '\u{200a}') || c == '\u{2028}' || c
        == '\u{2029}' || c == '\u{202f}' || c == '\u{205f}' || c == '\u{3000}'
}

/// The characters of `s`, in order.
pub fn chars_of(s: &str) -> (r: Vec<char>)
    ensures
        r@ == s@,
{
    let mut it = s.chars();
    let mut r: Vec<char> = Vec::new();
    loop
        invariant
            r@.len() <= s@.len(),
            r@ == s@.take(r@.len() as int),
            it.remaining() == s@.skip(r@.len() as int),
        decreases s@.len() - r@.len(),
    {
        match it.next() {
            Some(c) => {
                r.push(c);
            },
            None => {
                assert(r@ =~= s@);
                return r;
            },
        }
    }
}

/// Where the first and the last token of a text lie, as character positions
/// (start included, end excluded), and how many tokens it has, counted up to
/// two. The positions mean something only where there is a token.
pub struct TokenSpans {
    pub count: usize,
    pub first_start: usize,
    pub first_end: usize,
    pub last_start: usize,
    pub last_end: usize,
}

/// `n`, counted up to two.
pub open spec fn up_to_two(n: nat) -> nat {
    if n < 2 {
        n
    } else {
        2
    }
}

/// What `token_spans` reports of the text `s`.
pub open spec fn spans_of(s: Seq<char>, r: TokenSpans) -> bool {
    &&& r.count == up_to_two(tokens(s).len())
    &&& tokens(s).len() > 0 ==> {
        &&& r.first_start <= r.first_end <= s.len()
        &&& r.last_start <= r.last_end <= s.len()
        &&& s.subrange(r.first_start as int, r.first_end as int) == tokens(s)[0]
        &&& s.subrange(r.last_start as int, r.last_end as int) == tokens(s).last()
    }
}

/// Scans `cs` once and reports where its first and its last token lie.
pub fn token_spans(cs: &Vec<char>) -> (r: TokenSpans)
    ensures
        spans_of(cs@, r),
{
    let mut r = TokenSpans { count: 0, first_start: 0, first_end: 0, last_start: 0, last_end: 0 };
    let mut i: usize = 0;
    while i < cs.len()
        invariant
            i <= cs@.len(),
            spans_of(cs@.take(i as int), r),
            tokens(cs@.take(i as int)).len() > 0 ==> r.last_end <= i && r.first_end <= i,
            r.count == 1 ==> r.first_start == r.last_start && r.first_end == r.last_end,
            i > 0 && !is_white_space(cs@[i - 1]) ==> tokens(cs@.take(i as int)).len() > 0
                && r.last_end == i,
        decreases cs@.len() - i,
    {
        let ghost before = cs@.take(i as int);
        let ghost after = cs@.take(i + 1);
        proof {
            assert(after.drop_last() =~= before);
            assert(after.last() == cs@[i as int]);
            assert(i > 0 ==> after[i - 1] == cs@[i - 1]);
        }
        let c = cs[i];
        if !is_white_space_char(c) {
            if i > 0 && !is_white_space_char(cs[i - 1]) {
                proof {
                    assert(cs@.subrange(r.last_start as int, i + 1) =~= cs@.subrange(
                        r.last_start as int,
                        i as int,
                    ).push(c));
                    assert(cs@.subrange(r.first_start as int, i + 1) =~= cs@.subrange(
                        r.first_start as int,
                        i as int,
                    ).push(c));
                    assert(after.subrange(r.first_start as int, r.first_end as int)
                        =~= before.subrange(r.first_start as int, r.first_end as int));
                }
                r.last_end = i + 1;
                if r.count == 1 {
                    r.first_end = i + 1;
                }
                proof {
                    let prev = tokens(before);
                    assert(tokens(after) == prev.update(prev.len() - 1, prev.last().push(c)));
                    assert(tokens(after).len() == prev.len());
                    assert(r.count == up_to_two(tokens(after).len()));
                    assert(cs@.subrange(r.last_start as int, r.last_end as int) == tokens(after).last());
                    assert(cs@.subrange(r.first_start as int, r.first_end as int) == tokens(after)[0]);
                }
            } else {
                r.last_start = i;
                r.last_end = i + 1;
                if r.count == 0 {
                    r.first_start = i;
                    r.first_end = i + 1;
                }
                if r.count < 2 {
                    r.count = r.count + 1;
                }
                proof {
                    let prev = tokens(before);
                    assert(cs@.subrange(i as int, i + 1) =~= seq![c]);
                    assert(tokens(after) == prev.push(seq![c]));
                    assert(r.count == up_to_two(tokens(after).len()));
                    assert(cs@.subrange(r.last_start as int, r.last_end as int) == tokens(after).last());
                    assert(cs@.subrange(r.first_start as int, r.first_end as int) == tokens(after)[0]);
                }
            }
        }
        proof {
            if is_white_space(c) {
                assert(tokens(after) == tokens(before));
            }
            if r.first_start <= r.first_end <= i + 1 {
                assert(after.subrange(r.first_start as int, r.first_end as int) =~= cs@.subrange(
                    r.first_start as int,
                    r.first_end as int,
                ));
            }
            if r.last_start <= r.last_end <= i + 1 {
                assert(after.subrange(r.last_start as int, r.last_end as int) =~= cs@.subrange(
                    r.last_start as int,
                    r.last_end as int,
                ));
            }
            assert(after.len() == i + 1);
            assert(r.count == up_to_two(tokens(after).len()));
            if tokens(after).len() > 0 {
                assert(r.first_start <= r.first_end <= after.len());
                assert(r.last_start <= r.last_end <= after.len());
                assert(after.subrange(r.first_start as int, r.first_end as int) == tokens(after)[0]);
                assert(after.subrange(r.last_start as int, r.last_end as int) == tokens(after).last());
            }
            assert(spans_of(after, r));
        }
        i = i + 1;
    }
    proof {
        assert(cs@.take(i as int) =~= cs@);
    }
    r
}

} // verus!
