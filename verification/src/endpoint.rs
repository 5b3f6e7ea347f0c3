use crate::error::ClientError;
use vstd::prelude::*;

verus! {

/// What parsing a text as an absolute URL gives: the URL in its normalized
/// written form, or the parser's message.
pub uninterp spec fn url_parse(text: Seq<char>) -> Result<Seq<char>, Seq<char>>;

/// Calls `url::Url::parse` and takes the URL's serialization. Trusted: the
/// outcome is the one that `url_parse` names for this text, the error as the
/// message that the parse error displays.
#[verifier::external_body]
fn parse_url(text: &str) -> (r: Result<String, String>)
    ensures
        match r {
            Ok(url) => url_parse(text@) == Ok::<Seq<char>, Seq<char>>(url@),
            Err(msg) => url_parse(text@) == Err::<Seq<char>, Seq<char>>(msg@),
        },
{
    url::Url::parse(text).map(String::from).map_err(|e| e.to_string())
}

/// The homeserver endpoint that `homeurl` denotes, in normalized form. A text
/// that is no absolute URL is refused with the parser's message.
pub fn homeserver(homeurl: &str) -> (r: Result<String, ClientError>)
    ensures
        match url_parse(homeurl@) {
            Ok(url) => r matches Ok(found) && found@ == url,
            Err(msg) => r matches Err(e) && e.msg_view() == msg,
        },
{
    match parse_url(homeurl) {
        Ok(url) => Ok(url),
        Err(msg) => Err(ClientError::Generic { msg }),
    }
}

} // verus!
