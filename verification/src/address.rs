//! Addresses of servers, checked by the `url` crate.

use vstd::prelude::*;

verus! {

/// Why `url::Url::parse` rejects a text as an absolute URL, in the words of
/// the parser's error; nothing when the text is an absolute URL.
pub uninterp spec fn url_parse_error(address: Seq<char>) -> Option<Seq<char>>;

/// `url::Url::parse`, keeping only whether the text is an absolute URL and,
/// where it is not, the `Display` text of the `url::ParseError`. The parser
/// reads nothing but the text.
#[verifier::external_body]
pub(crate) fn url_parse_failure(address: &str) -> (r: Option<String>)
    ensures
        match r {
            Some(reason) => url_parse_error(address@) == Some(reason@),
            None => url_parse_error(address@) is None,
        },
{
    match url::Url::parse(address) {
        Ok(_) => None,
        Err(e) => Some(e.to_string()),
    }
}

} // verus!
