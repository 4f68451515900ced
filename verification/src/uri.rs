//! The URI under which a request is sent on.

use crate::address::{socket_authority, IpAddr};
use vstd::prelude::*;

verus! {

#[verifier::external_type_specification]
#[verifier::external_body]
pub struct ExHttpError(http::Error);

/// The text of the URI that `http::uri::Builder` builds from the scheme `http`, an
/// authority and a path with its query; `None` where it refuses them.
pub uninterp spec fn built_uri(authority: Seq<char>, target: Seq<char>) -> Option<Seq<char>>;

/// `http://`, the authority, and the path with its query, one behind the other.
pub open spec fn plain_uri(authority: Seq<char>, target: Seq<char>) -> Seq<char> {
    seq!['h', 't', 't', 'p', ':', '/', '/'] + authority + target
}

/// A character that the path of a URI may hold: none of the control characters, the
/// space, and `#<>?` and the backquote.
pub open spec fn is_path_char(c: char) -> bool {
    ||| c == '!' || c == '"' || c == '='
    ||| '$' <= c <= ';'
    ||| '@' <= c <= '_'
    ||| 'a' <= c <= '~'
    ||| c as int >= 0x80
}

/// A character that the query of a URI may hold: none of the control characters, the
/// space, and `"#<>`.
pub open spec fn is_query_char(c: char) -> bool {
    ||| c == '!' || c == '='
    ||| '$' <= c <= ';'
    ||| '?' <= c <= '~'
    ||| c as int >= 0x80
}

/// The path of a URI with its query: an asterisk, or a path, which may be empty, up
/// to the first question mark and a query behind it, encoded in fewer than 65535
/// bytes.
pub open spec fn is_path_and_query(target: Seq<char>) -> bool {
    ||| target == seq!['*']
    ||| {
        &&& target.len() > 0
        &&& target[0] == '/' || target[0] == '?'
        &&& vstd::utf8::encode_utf8(target).len() < 65535
        &&& forall|i: int|
            0 <= i < target.len() ==> if target.take(i).contains('?') {
                is_query_char(#[trigger] target[i])
            } else {
                target[i] == '?' || is_path_char(target[i])
            }
    }
}

/// The path with its query as it is printed: an empty path becomes a slash.
pub open spec fn shown_target(target: Seq<char>) -> Seq<char> {
    if target[0] == '?' {
        seq!['/'] + target
    } else {
        target
    }
}

/// Digits and full stops.
pub open spec fn is_v4_text(text: Seq<char>) -> bool {
    text.len() > 0 && forall|i: int|
        0 <= i < text.len() ==> ('0' <= #[trigger] text[i] <= '9' || text[i] == '.')
}

/// Hexadecimal digits in small letters, full stops, and at most eight colons.
pub open spec fn is_v6_text(text: Seq<char>) -> bool {
    text.filter(|c: char| c == ':').len() <= 8 && forall|i: int|
        0 <= i < text.len() ==> ('0' <= #[trigger] text[i] <= '9' || 'a' <= text[i] <= 'f'
            || text[i] == ':' || text[i] == '.')
}

/// The text of the address is of the form in which addresses are printed.
pub open spec fn is_printed(addr: IpAddr) -> bool {
    match addr {
        IpAddr::V4(text) => is_v4_text(text@),
        IpAddr::V6(text) => is_v6_text(text@),
    }
}

/// The authority is that of a port at a printed address.
pub open spec fn is_socket_authority(authority: Seq<char>) -> bool {
    exists|addr: IpAddr, port: u16|
        is_printed(addr) && authority == #[trigger] crate::address::authority(addr, port)
}

/// Calls `http::uri::Builder` with the scheme `http`, the authority, and the path
/// with its query, and prints the URI that it builds.
///
/// A path with its query is printed behind `http://` and the authority as it was
/// given, but for an empty path, which becomes a slash. The builder refuses neither a
/// printed address with a port nor a path with its query. Which other authorities it
/// takes, and what it makes of a text that is no path with a query, is not stated.
#[verifier::external_body]
fn build_uri(authority: &str, target: &str) -> (r: Result<String, http::Error>)
    ensures
        r matches Ok(uri) ==> built_uri(authority@, target@) == Some(uri@),
        r is Err ==> built_uri(authority@, target@) is None,
        r matches Ok(uri) ==> is_path_and_query(target@) ==> uri@ == plain_uri(
            authority@,
            shown_target(target@),
        ),
        is_socket_authority(authority@) && is_path_and_query(target@) ==> r is Ok,
{
    let builder = http::Uri::builder().scheme(http::uri::Scheme::HTTP);
    builder.authority(authority).path_and_query(target).build().map(|uri| uri.to_string())
}

/// The URI that leads to `target` at a port of an address; `None` where there is no
/// path, or where no URI can be built. A URI with a scheme needs a path.
pub open spec fn target_uri(addr: IpAddr, port: u16, target: Option<Seq<char>>) -> Option<
    Seq<char>,
> {
    match target {
        Some(target) => built_uri(crate::address::authority(addr, port), target),
        None => None,
    }
}

/// The URI that leads to `target` at `port` of `addr`.
///
/// For a printed address and a path with its query there always is one, and it is
/// the parts one behind the other.
pub fn rewrite_uri(addr: &IpAddr, port: u16, target: Option<&String>) -> (r: Option<String>)
    ensures
        r is Some <==> target_uri(*addr, port, target_text(target)) is Some,
        r matches Some(uri) ==> target_uri(*addr, port, target_text(target)) == Some(uri@),
        r matches Some(uri) ==> is_path_and_query(target->0@) ==> uri@ == plain_uri(
            crate::address::authority(*addr, port),
            shown_target(target->0@),
        ),
        target is Some && is_printed(*addr) && is_path_and_query(target->0@) ==> r is Some,
{
    match target {
        Some(target) => {
            let authority: String = socket_authority(addr, port);
            match build_uri(authority.as_str(), target.as_str()) {
                Ok(uri) => Some(uri),
                Err(_) => None,
            }
        },
        None => None,
    }
}

/// The text of a path with its query, where there is one.
pub open spec fn target_text(target: Option<&String>) -> Option<Seq<char>> {
    match target {
        Some(target) => Some(target@),
        None => None,
    }
}

} // verus!
