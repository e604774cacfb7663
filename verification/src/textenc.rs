use vstd::prelude::*;

verus! {

/// What `urlencoding::decode` turns `s` into, with invalid UTF-8 mapped to
/// the empty string: a function of the input characters alone.
pub uninterp spec fn urldec_of(s: Seq<char>) -> Seq<char>;

/// What `urlencoding::encode` turns `s` into: a function of the input
/// characters alone.
pub uninterp spec fn urlenc_of(s: Seq<char>) -> Seq<char>;

/// What `str::trim` leaves of `s`: a function of the input characters alone.
pub uninterp spec fn trim_of(s: Seq<char>) -> Seq<char>;

/// The characters that `urlencoding::encode` passes through unchanged:
/// ASCII alphanumerics and `-`, `.`, `_`, `~`.
pub open spec fn is_unreserved(c: char) -> bool {
    ('A' <= c <= 'Z') || ('a' <= c <= 'z') || ('0' <= c <= '9') || c == '-' || c == '.' || c == '_'
        || c == '~'
}

/// Relies on urlencoding's `decode`: percent-decodes assuming UTF-8 and
/// leaves an unencoded `+` alone; a string without `%` comes back unchanged.
/// A decode that is not valid UTF-8 is mapped to the empty string here, as
/// redirect handling treats such a value as absent.
#[verifier::external_body]
pub(crate) fn url_decode(s: &str) -> (r: String)
    ensures
        r@ == urldec_of(s@),
        !s@.contains('%') ==> r@ == s@,
{
    match urlencoding::decode(s) {
        Ok(c) => c.into_owned(),
        Err(_) => String::new(),
    }
}

/// Relies on urlencoding's `encode`: percent-encodes every byte except
/// ASCII alphanumerics and `-`, `.`, `_`, `~`; a string of only those
/// characters comes back unchanged.
#[verifier::external_body]
pub(crate) fn url_encode(s: &str) -> (r: String)
    ensures
        r@ == urlenc_of(s@),
        (forall|i| 0 <= i < s@.len() ==> is_unreserved(#[trigger] s@[i])) ==> r@ == s@,
{
    urlencoding::encode(s).into_owned()
}

/// Relies on `str::trim`: returns the input with leading and trailing
/// whitespace removed, so never longer than the input.
#[verifier::external_body]
pub(crate) fn trim_owned(s: &str) -> (r: String)
    ensures
        r@ == trim_of(s@),
        r@.len() <= s@.len(),
{
    s.trim().to_string()
}

} // verus!
