//! Owned names, borrowed views of names, and structured names.
use vstd::prelude::*;
use vstd::string::StrSliceExecFns;
use vstd::string::StringExecFns;

use crate::case::{
    all_lower, all_upper, is_all_lower, is_all_upper, lemma_lower_text, lemma_upper_text,
    lower_text, make_lower, make_upper, upper_text,
};
use crate::tokens::{
    chars_of, family_of, given_of, lemma_tokens_well_formed, token_spans, tokens,
};

verus! {

/// Relies on `String::as_mut_str`: the whole text of `s`, borrowed mutably,
/// so that what it holds when the borrow ends is the text of `s`.
pub assume_specification[ String::as_mut_str ](s: &mut String) -> (r: &mut str)
    ensures
        r@ == old(s)@,
        final(s)@ == final(r)@,
;

/// The text of an optional string slice.
pub open spec fn text_of(r: Option<&str>) -> Option<Seq<char>> {
    match r {
        Some(t) => Some(t@),
        None => None,
    }
}

/// A full name as typed, held in a growable buffer of its own. Any text,
/// the empty text included, is a name.
#[derive(Debug, Clone, PartialEq, Eq)]
pub struct NameString {
    inner: String,
}

/// A read-only view of a full name whose text is held elsewhere: in a
/// `NameString` or in any other string. It cannot outlive that text.
#[derive(Debug, Clone, Copy, PartialEq, Eq)]
pub struct NameStr<'a> {
    inner: &'a str,
}

impl View for NameString {
    type V = Seq<char>;

    closed spec fn view(&self) -> Seq<char> {
        self.inner@
    }
}

impl<'a> View for NameStr<'a> {
    type V = Seq<char>;

    closed spec fn view(&self) -> Seq<char> {
        self.inner@
    }
}

impl NameString {
    /// The empty name.
    pub fn new() -> (r: NameString)
        ensures
            r@ == Seq::<char>::empty(),
    {
        NameString { inner: String::new() }
    }

    /// A name holding a copy of `s`, as it is.
    pub fn from_str(s: &str) -> (r: NameString)
        ensures
            r@ == s@,
    {
        NameString { inner: s.to_owned() }
    }

    /// Appends `part` to the text; no separator is put between them.
    pub fn push(&mut self, part: &str)
        ensures
            final(self)@ == old(self)@ + part@,
    {
        self.inner.append(part)
    }

    /// A view of this name's text.
    pub fn as_name_str(&self) -> (r: NameStr<'_>)
        ensures
            r@ == self@,
    {
        NameStr { inner: self.inner.as_str() }
    }

    /// A view of this name's text.
    pub fn as_ref(&self) -> (r: NameStr<'_>)
        ensures
            r@ == self@,
    {
        self.as_name_str()
    }

    /// The text, as a plain string.
    pub fn into_string(self) -> (r: String)
        ensures
            r@ == self@,
    {
        self.inner
    }

    pub fn as_str(&self) -> (r: &str)
        ensures
            r@ == self@,
    {
        self.inner.as_str()
    }

    /// The text, to be changed in place.
    pub fn as_mut_str(&mut self) -> (r: &mut str)
        ensures
            r@ == old(self)@,
            final(self)@ == final(r)@,
    {
        self.inner.as_mut_str()
    }

    /// Maps each ASCII lower-case letter of the text to upper case, in place.
    pub fn uppercase(&mut self)
        ensures
            final(self)@ == upper_text(old(self)@),
    {
        make_upper(&mut self.inner)
    }

    /// Maps each ASCII upper-case letter of the text to lower case, in place.
    pub fn lowercase(&mut self)
        ensures
            final(self)@ == lower_text(old(self)@),
    {
        make_lower(&mut self.inner)
    }

    /// The last token of the name, if it has any.
    pub fn family(&self) -> (r: Option<&str>)
        ensures
            text_of(r) == family_of(self@),
    {
        self.as_name_str().family()
    }

    /// The first token of the name, when it has at least two.
    pub fn given(&self) -> (r: Option<&str>)
        ensures
            text_of(r) == given_of(self@),
    {
        self.as_name_str().given()
    }

    /// See `NameStr::to_uppercase`.
    pub fn to_uppercase(&self) -> (r: CaseFold<'_>)
        ensures
            r@ == upper_text(self@),
            r is Unchanged <==> all_upper(self@),
    {
        self.as_name_str().to_uppercase()
    }

    /// See `NameStr::to_lowercase`.
    pub fn to_lowercase(&self) -> (r: CaseFold<'_>)
        ensures
            r@ == lower_text(self@),
            r is Unchanged <==> all_lower(self@),
    {
        self.as_name_str().to_lowercase()
    }
}

impl<'a> NameStr<'a> {
    /// A view of `name`.
    pub fn new(name: &'a str) -> (r: NameStr<'a>)
        ensures
            r@ == name@,
    {
        NameStr { inner: name }
    }

    /// The same view.
    pub fn as_ref(&self) -> (r: NameStr<'a>)
        ensures
            r == *self,
    {
        *self
    }

    /// The last token of the name, if it has any.
    pub fn family(&self) -> (r: Option<&'a str>)
        ensures
            text_of(r) == family_of(self@),
    {
        let cs = chars_of(self.inner);
        let spans = token_spans(&cs);
        if spans.count == 0 {
            None
        } else {
            Some(self.inner.substring_char(spans.last_start, spans.last_end))
        }
    }

    /// The first token of the name, when it has at least two; a name of one
    /// token has a family part only.
    pub fn given(&self) -> (r: Option<&'a str>)
        ensures
            text_of(r) == given_of(self@),
    {
        let cs = chars_of(self.inner);
        let spans = token_spans(&cs);
        if spans.count < 2 {
            None
        } else {
            Some(self.inner.substring_char(spans.first_start, spans.first_end))
        }
    }

    /// A copy of the text in a name of its own.
    pub fn to_name_string(&self) -> (r: NameString)
        ensures
            r@ == self@,
    {
        NameString { inner: self.inner.to_owned() }
    }

    /// A copy of the text in a name of its own.
    pub fn to_owned(&self) -> (r: NameString)
        ensures
            r@ == self@,
    {
        self.to_name_string()
    }

    /// A copy of the text, as a plain string.
    pub fn to_string(&self) -> (r: String)
        ensures
            r@ == self@,
    {
        self.inner.to_owned()
    }

    /// The name in ASCII upper case. Where every character already is an
    /// upper-case letter, this view itself comes back and nothing is copied;
    /// otherwise an upper-cased copy does.
    pub fn to_uppercase(&self) -> (r: CaseFold<'a>)
        ensures
            is_upper_fold(*self, r),
    {
        let cs = chars_of(self.inner);
        if is_all_upper(&cs) {
            proof {
                lemma_upper_text(self@);
            }
            CaseFold::Unchanged(*self)
        } else {
            let mut name = self.to_name_string();
            name.uppercase();
            CaseFold::Copied(name)
        }
    }

    /// The name in ASCII lower case. Where every character already is a
    /// lower-case letter, this view itself comes back and nothing is copied;
    /// otherwise a lower-cased copy does.
    pub fn to_lowercase(&self) -> (r: CaseFold<'a>)
        ensures
            is_lower_fold(*self, r),
    {
        let cs = chars_of(self.inner);
        if is_all_lower(&cs) {
            proof {
                lemma_lower_text(self@);
            }
            CaseFold::Unchanged(*self)
        } else {
            let mut name = self.to_name_string();
            name.lowercase();
            CaseFold::Copied(name)
        }
    }
}

/// The result of a case transform: the view that was given, where the text
/// was already in the target case, or a transformed copy.
#[derive(Debug, PartialEq, Eq)]
pub enum CaseFold<'a> {
    Unchanged(NameStr<'a>),
    Copied(NameString),
}

/// `f` is what upper-casing `name` gives: the upper-cased text, and `name`
/// itself exactly where every character of it is an upper-case letter.
pub open spec fn is_upper_fold<'a>(name: NameStr<'a>, f: CaseFold<'a>) -> bool {
    &&& f@ == upper_text(name@)
    &&& f is Unchanged <==> all_upper(name@)
    &&& f is Unchanged ==> f->Unchanged_0 == name
}

/// `f` is what lower-casing `name` gives: the lower-cased text, and `name`
/// itself exactly where every character of it is a lower-case letter.
pub open spec fn is_lower_fold<'a>(name: NameStr<'a>, f: CaseFold<'a>) -> bool {
    &&& f@ == lower_text(name@)
    &&& f is Unchanged <==> all_lower(name@)
    &&& f is Unchanged ==> f->Unchanged_0 == name
}

impl<'a> View for CaseFold<'a> {
    type V = Seq<char>;

    open spec fn view(&self) -> Seq<char> {
        match self {
            CaseFold::Unchanged(v) => v@,
            CaseFold::Copied(n) => n@,
        }
    }
}

impl<'a> CaseFold<'a> {
    /// A view of the text.
    pub fn as_name_str(&self) -> (r: NameStr<'_>)
        ensures
            r@ == self@,
    {
        match self {
            CaseFold::Unchanged(v) => *v,
            CaseFold::Copied(n) => n.as_name_str(),
        }
    }

    /// The text in a name of its own, copied only where it is not one yet.
    pub fn into_owned(self) -> (r: NameString)
        ensures
            r@ == self@,
    {
        match self {
            CaseFold::Unchanged(v) => v.to_name_string(),
            CaseFold::Copied(n) => n,
        }
    }
}

/// Why a full name could not be split into a structured name.
#[derive(Debug, Clone, Copy, PartialEq, Eq, Structural)]
pub enum NameError {
    /// The text has no token, so there is no family name.
    MissingFamilyName,
}

impl NameError {
    /// A message for people.
    pub fn message(&self) -> (r: &'static str)
        ensures
            r@ == "Family name required"@,
    {
        "Family name required"
    }
}

/// The given part of a name, or the empty text where it has none.
pub open spec fn given_or_empty(s: Seq<char>) -> Seq<char> {
    match given_of(s) {
        Some(g) => g,
        None => Seq::empty(),
    }
}

/// A full name split into a family name, which is never empty, and a given
/// name, which is empty where there is none.
#[derive(Debug, PartialEq, Eq)]
pub struct Name {
    given: NameString,
    family: NameString,
}

impl View for Name {
    /// The given name and the family name.
    type V = (Seq<char>, Seq<char>);

    closed spec fn view(&self) -> (Seq<char>, Seq<char>) {
        (self.given@, self.family@)
    }
}

impl Name {
    #[verifier::type_invariant]
    spec fn inv(&self) -> bool {
        self.family@.len() > 0
    }

    /// Splits `name`: the family name is its last token and the given name
    /// its first, when it has two tokens or more. Middle tokens are dropped.
    /// Fails where `name` has no token at all.
    pub fn try_from(name: NameStr<'_>) -> (r: Result<Name, NameError>)
        ensures
            r is Err <==> tokens(name@).len() == 0,
            r matches Err(e) ==> e == NameError::MissingFamilyName,
            r matches Ok(n) ==> n@ == (given_or_empty(name@), tokens(name@).last()),
    {
        match name.family() {
            None => Err(NameError::MissingFamilyName),
            Some(f) => {
                let given = match name.given() {
                    Some(g) => NameString::from_str(g),
                    None => NameString::new(),
                };
                let family = NameString::from_str(f);
                proof {
                    lemma_tokens_well_formed(name@);
                }
                Ok(Name { given, family })
            },
        }
    }

    pub fn given(&self) -> (r: &NameString)
        ensures
            r@ == self@.0,
    {
        &self.given
    }

    pub fn family(&self) -> (r: &NameString)
        ensures
            r@ == self@.1,
            r@.len() > 0,
    {
        proof {
            use_type_invariant(self);
        }
        &self.family
    }
}

impl<'a> NameStr<'a> {
    /// See `Name::try_from`.
    pub fn try_into(self) -> (r: Result<Name, NameError>)
        ensures
            r is Err <==> tokens(self@).len() == 0,
            r matches Err(e) ==> e == NameError::MissingFamilyName,
            r matches Ok(n) ==> n@ == (given_or_empty(self@), tokens(self@).last()),
    {
        Name::try_from(self)
    }
}

impl From<String> for NameString {
    fn from(s: String) -> (r: NameString)
        ensures
            r@ == s@,
    {
        NameString { inner: s }
    }
}

impl vstd::std_specs::convert::FromSpecImpl<String> for NameString {
    open spec fn obeys_from_spec() -> bool {
        false
    }

    open spec fn from_spec(s: String) -> NameString {
        arbitrary()
    }
}

impl<'a> From<NameStr<'a>> for NameString {
    fn from(n: NameStr<'a>) -> (r: NameString)
        ensures
            r@ == n@,
    {
        n.to_name_string()
    }
}

impl<'a> vstd::std_specs::convert::FromSpecImpl<NameStr<'a>> for NameString {
    open spec fn obeys_from_spec() -> bool {
        false
    }

    open spec fn from_spec(n: NameStr<'a>) -> NameString {
        arbitrary()
    }
}

impl From<NameString> for String {
    fn from(n: NameString) -> (r: String)
        ensures
            r@ == n@,
    {
        n.into_string()
    }
}

impl vstd::std_specs::convert::FromSpecImpl<NameString> for String {
    open spec fn obeys_from_spec() -> bool {
        false
    }

    open spec fn from_spec(n: NameString) -> String {
        arbitrary()
    }
}

impl<'a> From<NameStr<'a>> for String {
    fn from(n: NameStr<'a>) -> (r: String)
        ensures
            r@ == n@,
    {
        n.to_string()
    }
}

impl<'a> vstd::std_specs::convert::FromSpecImpl<NameStr<'a>> for String {
    open spec fn obeys_from_spec() -> bool {
        false
    }

    open spec fn from_spec(n: NameStr<'a>) -> String {
        arbitrary()
    }
}

} // verus!
