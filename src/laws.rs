//! Laws that relate the operations on names to each other.
use vstd::prelude::*;

use crate::case::{all_upper, lemma_upper_text, upper_text};
use crate::name::{CaseFold, NameStr, NameString};
use crate::tokens::{
    all_white_space, is_first_run, is_last_run, lemma_first_and_last_token, tokens,
};

verus! {

/// The family part of a name made from a text `t` is the last token of `t`:
/// the maximal run of non-whitespace characters after which only whitespace
/// follows. There is none where `t` has no token, that is where it is all
/// whitespace.
pub proof fn law_family_is_last_token<'a>(t: &str, n: &'a NameString, f: Option<&'a str>)
    requires
        call_ensures(NameString::from_str, (t,), *n),
        call_ensures(NameString::family, (n,), f),
    ensures
        f is None <==> tokens(t@).len() == 0,
        f is None <==> all_white_space(t@, 0, t@.len() as int),
        f matches Some(x) ==> x@ == tokens(t@).last(),
        f matches Some(x) ==> exists|a: int, b: int|
            #[trigger] is_last_run(t@, a, b) && x@ == t@.subrange(a, b),
{
    lemma_first_and_last_token(t@);
}

/// The given part of a name made from a text `t` is the first token of `t`
/// (the maximal run of non-whitespace characters before which only
/// whitespace stands) where `t` has two tokens or more, and there is none
/// where it has one or none.
pub proof fn law_given_is_first_token<'a>(t: &str, n: &'a NameString, g: Option<&'a str>)
    requires
        call_ensures(NameString::from_str, (t,), *n),
        call_ensures(NameString::given, (n,), g),
    ensures
        tokens(t@).len() >= 2 ==> (g matches Some(x) && x@ == tokens(t@)[0]),
        tokens(t@).len() < 2 ==> g is None,
        g matches Some(x) ==> exists|a: int, b: int|
            #[trigger] is_first_run(t@, a, b) && x@ == t@.subrange(a, b),
{
    lemma_first_and_last_token(t@);
}

/// Copying a view of an owned name gives back that name's text.
pub proof fn law_view_round_trip<'a>(x: &'a NameString, v: NameStr<'a>, y: NameString)
    requires
        call_ensures(NameString::as_name_str, (x,), v),
        call_ensures(NameStr::to_owned, (&v,), y),
    ensures
        y@ == x@,
{
}

/// Upper-casing the result of upper-casing a view gives the same text again;
/// and a view whose characters are all upper-case letters comes back itself.
pub proof fn law_to_uppercase_twice<'a>(
    v: NameStr<'a>,
    once: &'a CaseFold<'a>,
    w: NameStr<'a>,
    twice: CaseFold<'a>,
)
    requires
        call_ensures(NameStr::to_uppercase, (&v,), *once),
        call_ensures(CaseFold::as_name_str, (once,), w),
        call_ensures(NameStr::to_uppercase, (&w,), twice),
    ensures
        twice@ == once@,
        once@ == upper_text(v@),
        all_upper(v@) ==> *once == CaseFold::Unchanged(v),
{
    lemma_upper_text(v@);
}

} // verus!
