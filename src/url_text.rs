//! Recognising URLs in text.
use vstd::prelude::*;

verus! {

/// The canonical serialization of `text` when it parses as an absolute URL
/// (scheme, authority, path, query, fragment), and `None` when it does not.
pub uninterp spec fn parsed_url(text: Seq<char>) -> Option<Seq<char>>;

/// Relies on `url::Url::parse` to parse `text` as an absolute URL and on
/// `From<Url> for String` to hand back its serialization. The outcome depends on
/// the text alone. Re-parsing a serialization gives that same serialization:
/// `Url::check_invariants` in the url crate asserts exactly this of every `Url`.
#[verifier::external_body]
fn parse_url(text: &str) -> (r: Option<String>)
    ensures
        r is None <==> parsed_url(text@) is None,
        r matches Some(u) ==> parsed_url(text@) == Some(u@) && parsed_url(u@) == Some(u@),
{
    match url::Url::parse(text) {
        Ok(u) => Some(u.into()),
        Err(_) => None,
    }
}

/// Parses `text` as a URL and returns its canonical form, or `None` when the
/// text is not a URL. The canonical form parses again to itself, so parsing,
/// serializing and parsing once more preserves every component.
pub fn canonical_url(text: &str) -> (r: Option<String>)
    ensures
        r is None <==> parsed_url(text@) is None,
        r matches Some(u) ==> parsed_url(text@) == Some(u@),
        r matches Some(u) ==> parsed_url(u@) == Some(u@),
{
    parse_url(text)
}

} // verus!
