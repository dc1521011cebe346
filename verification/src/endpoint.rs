//! The endpoint of the bridge, as the `url` crate reads it.

use vstd::prelude::*;

verus! {

/// The address that the `url` crate reads from a text, written out in its
/// normal form; `None` where the text is no absolute URL.
pub uninterp spec fn endpoint_text(address: Seq<char>) -> Option<Seq<char>>;

/// `Url::parse`, and `String::from` on the URL read: the address in the
/// crate's normal form, or the crate's error where the text is no absolute
/// URL. The outcome depends on the text alone.
#[verifier::external_body]
pub(crate) fn parse_endpoint(address: &str) -> (r: Result<String, url::ParseError>)
    ensures
        match r {
            Ok(text) => endpoint_text(address@) == Some(text@),
            Err(_) => endpoint_text(address@) is None,
        },
{
    url::Url::parse(address).map(String::from)
}

} // verus!
