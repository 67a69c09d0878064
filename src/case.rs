//! ASCII case folding of text.
use vstd::prelude::*;

verus! {

/// `c` is an ASCII upper-case letter.
pub open spec fn is_upper(c: char) -> bool {
    'A' <= c && c <= 'Z'
}

/// `c` is an ASCII lower-case letter.
pub open spec fn is_lower(c: char) -> bool {
    'a' <= c && c <= 'z'
}

/// `c` with an ASCII lower-case letter mapped to its upper-case letter.
pub open spec fn upper_char(c: char) -> char {
    if is_lower(c) {
        ((c as u32) - 32) as char
    } else {
        c
    }
}

/// `c` with an ASCII upper-case letter mapped to its lower-case letter.
pub open spec fn lower_char(c: char) -> char {
    if is_upper(c) {
        ((c as u32) + 32) as char
    } else {
        c
    }
}

/// `s` with each ASCII lower-case letter mapped to upper case.
pub open spec fn upper_text(s: Seq<char>) -> Seq<char> {
    s.map_values(|c: char| upper_char(c))
}

/// `s` with each ASCII upper-case letter mapped to lower case.
pub open spec fn lower_text(s: Seq<char>) -> Seq<char> {
    s.map_values(|c: char| lower_char(c))
}

/// Every character of `s` is an upper-case letter (true of the empty text).
pub open spec fn all_upper(s: Seq<char>) -> bool {
    forall|i: int| 0 <= i < s.len() ==> is_upper(#[trigger] s[i])
}

/// Every character of `s` is a lower-case letter (true of the empty text).
pub open spec fn all_lower(s: Seq<char>) -> bool {
    forall|i: int| 0 <= i < s.len() ==> is_lower(#[trigger] s[i])
}

/// Relies on `str::make_ascii_uppercase`, reached through `String`: in place,
/// each of 'a' to 'z' becomes 'A' to 'Z' and every other character stays.
#[verifier::external_body]
pub(crate) fn make_upper(s: &mut String)
    ensures
        final(s)@ == upper_text(old(s)@),
{
    s.make_ascii_uppercase()
}

/// Relies on `str::make_ascii_lowercase`, reached through `String`: in place,
/// each of 'A' to 'Z' becomes 'a' to 'z' and every other character stays.
#[verifier::external_body]
pub(crate) fn make_lower(s: &mut String)
    ensures
        final(s)@ == lower_text(old(s)@),
{
    s.make_ascii_lowercase()
}

/// Whether every character of `cs` is an upper-case letter.
pub fn is_all_upper(cs: &Vec<char>) -> (r: bool)
    ensures
        r == all_upper(cs@),
{
    let mut i: usize = 0;
    while i < cs.len()
        invariant
            i <= cs@.len(),
            forall|j: int| 0 <= j < i ==> is_upper(#[trigger] cs@[j]),
        decreases cs@.len() - i,
    {
        if !('A' <= cs[i] && cs[i] <= 'Z') {
            return false;
        }
        i = i + 1;
    }
    true
}

/// Whether every character of `cs` is a lower-case letter.
pub fn is_all_lower(cs: &Vec<char>) -> (r: bool)
    ensures
        r == all_lower(cs@),
{
    let mut i: usize = 0;
    while i < cs.len()
        invariant
            i <= cs@.len(),
            forall|j: int| 0 <= j < i ==> is_lower(#[trigger] cs@[j]),
        decreases cs@.len() - i,
    {
        if !('a' <= cs[i] && cs[i] <= 'z') {
            return false;
        }
        i = i + 1;
    }
    true
}

/// Upper-casing leaves an all upper-case text as it is, and upper-casing twice
/// gives what upper-casing once gives.
pub proof fn lemma_upper_text(s: Seq<char>)
    ensures
        all_upper(s) ==> upper_text(s) == s,
        upper_text(upper_text(s)) == upper_text(s),
{
    assert(all_upper(s) ==> upper_text(s) =~= s);
    assert forall|i: int| 0 <= i < s.len() implies upper_char(upper_char(s[i])) == upper_char(
        s[i],
    ) by {
        let c = s[i];
        if is_lower(c) {
            assert(!is_lower(((c as u32) - 32) as char));
        }
    }
    assert(upper_text(upper_text(s)) =~= upper_text(s));
}

/// Lower-casing leaves an all lower-case text as it is, and lower-casing twice
/// gives what lower-casing once gives.
pub proof fn lemma_lower_text(s: Seq<char>)
    ensures
        all_lower(s) ==> lower_text(s) == s,
        lower_text(lower_text(s)) == lower_text(s),
{
    assert(all_lower(s) ==> lower_text(s) =~= s);
    assert forall|i: int| 0 <= i < s.len() implies lower_char(lower_char(s[i])) == lower_char(
        s[i],
    ) by {
        let c = s[i];
        if is_upper(c) {
            assert(!is_upper(((c as u32) + 32) as char));
        }
    }
    assert(lower_text(lower_text(s)) =~= lower_text(s));
}

} // verus!
