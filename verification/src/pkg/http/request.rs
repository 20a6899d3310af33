//! Checking the method and the address of an outgoing request before it is
//! sent.

use vstd::prelude::*;

verus! {

/// A character that an HTTP method name may hold: a letter, a digit, the
/// backquote, or one of `! * + - . ^ _ | ~`.
pub open spec fn method_char_ok(c: char) -> bool {
    ||| ('a' <= c && c <= 'z')
    ||| ('A' <= c && c <= 'Z')
    ||| ('0' <= c && c <= '9')
    ||| c == '!' || c == '*' || c == '+' || c == '-' || c == '.'
    ||| c == '^' || c == '_' || c == '`' || c == '|' || c == '~'
}

/// A text that HTTP accepts as a method: not empty, and every character a
/// method character.
pub open spec fn valid_method(m: Seq<char>) -> bool {
    m.len() > 0 && forall|i: int| 0 <= i < m.len() ==> method_char_ok(#[trigger] m[i])
}

/// Calls `http::Method::from_bytes` on the UTF-8 bytes of `method` and
/// reports whether it accepted them. Its source refuses an empty method and
/// otherwise maps every byte through a table that accepts exactly the bytes
/// of the characters in `method_char_ok` (all ASCII; every byte from 128 on
/// is refused, so no other character passes), whatever the length.
#[verifier::external_body]
fn method_accepted(method: &str) -> (ok: bool)
    ensures
        ok == valid_method(method@),
{
    http::Method::from_bytes(method.as_bytes()).is_ok()
}

/// Whether the URL parser accepts `url` as an absolute URL.
pub uninterp spec fn url_parses(url: Seq<char>) -> bool;

/// Calls `reqwest::Url::parse` (the `url` crate's WHATWG parser) and reports
/// whether it accepted the text. Parsing depends on the text alone; what it
/// accepts is named `url_parses`, not written out.
#[verifier::external_body]
fn url_accepted(url: &str) -> (ok: bool)
    ensures
        ok == url_parses(url@),
{
    reqwest::Url::parse(url).is_ok()
}

/// Why a request cannot be built.
#[derive(Debug, Clone, Copy, PartialEq, Eq)]
pub enum RequestError {
    /// The method is not an HTTP method name.
    Method,
    /// The address does not parse as a URL.
    Url,
}

/// Checks a request's method, then its address, as building the request
/// does: the method is looked at first.
pub fn request_target(url: &str, method: &str) -> (r: Result<(), RequestError>)
    ensures
        r is Ok <==> (valid_method(method@) && url_parses(url@)),
        r == Err::<(), RequestError>(RequestError::Method) <==> !valid_method(method@),
        r == Err::<(), RequestError>(RequestError::Url) <==> (valid_method(method@) && !url_parses(
            url@,
        )),
{
    if !method_accepted(method) {
        return Err(RequestError::Method);
    }
    if !url_accepted(url) {
        return Err(RequestError::Url);
    }
    Ok(())
}

} // verus!
