//! What holds of the texts that the proxy reads and writes, said of their characters
//! and bytes.

use crate::address::IpAddr;
use vstd::prelude::*;

verus! {

// ---------------------------------------------------------------------------
// Bytes
// ---------------------------------------------------------------------------

/// A byte string stands in another exactly where all its bytes are found there, one
/// behind the other.
pub proof fn law_occurrence_by_bytes(haystack: Seq<u8>, needle: Seq<u8>, at: int)
    ensures
        crate::text::occurs_at(haystack, needle, at) <==> 0 <= at && at + needle.len()
            <= haystack.len() && forall|k: int|
            0 <= k < needle.len() ==> haystack[at + k] == #[trigger] needle[k],
        crate::text::occurs_at(haystack, needle, at) ==> crate::text::occurs_in(haystack, needle),
{
    if 0 <= at && at + needle.len() <= haystack.len() {
        let part = haystack.subrange(at, at + needle.len());
        if forall|k: int| 0 <= k < needle.len() ==> haystack[at + k] == #[trigger] needle[k] {
            assert(part =~= needle);
        }
        if part == needle {
            assert forall|k: int| 0 <= k < needle.len() implies haystack[at + k]
                == #[trigger] needle[k] by {
                assert(part[k] == needle[k]);
            }
        }
    }
}

/// A byte string stands in another exactly where the other is made of some bytes, the
/// byte string, and some more bytes.
pub proof fn law_occurrence_by_parts(haystack: Seq<u8>, needle: Seq<u8>)
    ensures
        crate::text::occurs_in(haystack, needle) <==> exists|before: Seq<u8>, behind: Seq<u8>|
            haystack == #[trigger] (before + needle + behind),
{
    if crate::text::occurs_in(haystack, needle) {
        let at = choose|at: int| crate::text::occurs_at(haystack, needle, at);
        let before = haystack.take(at);
        let behind = haystack.skip(at + needle.len());
        law_occurrence_by_bytes(haystack, needle, at);
        assert(haystack =~= before + needle + behind);
    }
    if exists|before: Seq<u8>, behind: Seq<u8>|
        haystack == #[trigger] (before + needle + behind) {
        let (before, behind) = choose|before: Seq<u8>, behind: Seq<u8>|
            haystack == #[trigger] (before + needle + behind);
        assert(haystack.subrange(
            before.len() as int,
            (before.len() + needle.len()) as int,
        ) =~= needle);
        assert(crate::text::occurs_at(haystack, needle, before.len() as int));
    }
}

/// Of a byte string in small letters, each byte is the byte it was but for capital
/// letters, and none is a capital letter.
pub proof fn law_lower_all_by_bytes(bytes: Seq<u8>, i: int)
    ensures
        crate::text::lower_all(bytes).len() == bytes.len(),
        0 <= i < bytes.len() && 'A' as int <= bytes[i] <= 'Z' as int ==> crate::text::lower_all(
            bytes,
        )[i] == bytes[i] + ('a' as int - 'A' as int),
        0 <= i < bytes.len() && !('A' as int <= bytes[i] <= 'Z' as int) ==> crate::text::lower_all(
            bytes,
        )[i] == bytes[i],
{
}

// ---------------------------------------------------------------------------
// Numbers
// ---------------------------------------------------------------------------

/// The number that a text of digits names.
pub open spec fn number(digits: Seq<char>) -> int
    decreases digits.len(),
{
    if digits.len() == 0 {
        0
    } else {
        number(digits.drop_last()) * 10 + (digits.last() as int - '0' as int)
    }
}

/// The text is a number as it is usually written: digits, and no zero in front.
pub open spec fn is_number(digits: Seq<char>) -> bool {
    &&& digits.len() > 0
    &&& forall|i: int| 0 <= i < digits.len() ==> '0' <= #[trigger] digits[i] <= '9'
    &&& digits.len() > 1 ==> digits[0] != '0'
}

/// A number that is written in digits reads as what it was.
pub proof fn law_decimal_reads_back(n: nat)
    ensures
        is_number(crate::text::decimal(n)),
        number(crate::text::decimal(n)) == n,
        n > 0 ==> crate::text::decimal(n)[0] != '0',
    decreases n,
{
    let digits = crate::text::decimal(n);
    if n < 10 {
        assert(digits.drop_last() =~= Seq::<char>::empty());
        assert(number(digits.drop_last()) == 0);
    } else {
        let front = crate::text::decimal(n / 10);
        law_decimal_reads_back(n / 10);
        assert(digits.drop_last() =~= front);
        assert(digits.last() == crate::text::digit(n % 10));
        assert(digits[0] == front[0]);
        assert forall|i: int| 0 <= i < digits.len() implies '0' <= #[trigger] digits[i]
            <= '9' by {
            if i < front.len() {
                assert(digits[i] == front[i]);
            }
        }
    }
}

// ---------------------------------------------------------------------------
// Addresses
// ---------------------------------------------------------------------------

/// The text of an address is the text it holds, and two addresses are the same
/// exactly where they are of one family and hold one text.
pub proof fn law_address_is_its_text(a: String, b: String)
    ensures
        IpAddr::V4(a).text() == a@,
        IpAddr::V6(a).text() == a@,
        IpAddr::V4(a).same(IpAddr::V4(b)) <==> a@ == b@,
        IpAddr::V6(a).same(IpAddr::V6(b)) <==> a@ == b@,
        !IpAddr::V4(a).same(IpAddr::V6(b)),
        !IpAddr::V6(a).same(IpAddr::V4(b)),
{
}

/// `authority` is `host`, a colon and the number `port`.
pub open spec fn is_host_and_port(authority: Seq<char>, host: Seq<char>, port: int) -> bool {
    exists|digits: Seq<char>|
        #![trigger is_number(digits)]
        is_number(digits) && number(digits) == port && authority == host + ":"@ + digits
}

/// An authority is the address, in square brackets where it is an IPv6 address, a
/// colon, and the number of the port.
pub proof fn law_authority_names_address_and_port(text: String, port: u16)
    ensures
        is_host_and_port(
            crate::address::authority(IpAddr::V4(text), port),
            text@,
            port as int,
        ),
        is_host_and_port(
            crate::address::authority(IpAddr::V6(text), port),
            "["@ + text@ + "]"@,
            port as int,
        ),
{
    reveal_strlit(":");
    reveal_strlit("[");
    reveal_strlit("]");
    let digits = crate::text::decimal(port as nat);
    law_decimal_reads_back(port as nat);
    assert(crate::address::authority(IpAddr::V4(text), port) =~= text@ + ":"@ + digits);
    assert(crate::address::authority(IpAddr::V6(text), port) =~= "["@ + text@ + "]"@ + ":"@
        + digits);
}

/// The number of colons in a text.
pub open spec fn colons(text: Seq<char>) -> int
    decreases text.len(),
{
    if text.len() == 0 {
        0
    } else {
        colons(text.drop_last()) + if text.last() == ':' {
            1int
        } else {
            0
        }
    }
}

proof fn lemma_colons(text: Seq<char>)
    ensures
        text.filter(|c: char| c == ':').len() == colons(text),
    decreases text.len(),
{
    reveal(Seq::filter);
    if text.len() > 0 {
        lemma_colons(text.drop_last());
    }
}

/// Digits and full stops are a printed IPv4 address; digits, the letters from `a` to
/// `f`, full stops and at most eight colons are a printed IPv6 address. Nothing else
/// is one.
pub proof fn law_printed_addresses(text: String)
    ensures
        crate::uri::is_printed(IpAddr::V4(text)) <==> text@.len() > 0 && forall|i: int|
            0 <= i < text@.len() ==> ("0123456789."@).contains(#[trigger] text@[i]),
        crate::uri::is_printed(IpAddr::V6(text)) <==> colons(text@) <= 8 && forall|i: int|
            0 <= i < text@.len() ==> ("0123456789abcdef:."@).contains(#[trigger] text@[i]),
{
    reveal_strlit("0123456789.");
    reveal_strlit("0123456789abcdef:.");
    lemma_colons(text@);
    let four = "0123456789."@;
    let six = "0123456789abcdef:."@;
    assert forall|c: char| four.contains(c) <==> ('0' <= c <= '9' || c == '.') by {
        if '0' <= c <= '9' {
            assert(four[c as int - '0' as int] == c);
        }
        if c == '.' {
            assert(four[10] == c);
        }
    }
    assert forall|c: char|
        six.contains(c) <==> ('0' <= c <= '9' || 'a' <= c <= 'f' || c == ':' || c == '.') by {
        if '0' <= c <= '9' {
            assert(six[c as int - '0' as int] == c);
        }
        if 'a' <= c <= 'f' {
            assert(six[10 + (c as int - 'a' as int)] == c);
        }
        if c == ':' {
            assert(six[16] == c);
        }
        if c == '.' {
            assert(six[17] == c);
        }
    }
}

// ---------------------------------------------------------------------------
// URIs
// ---------------------------------------------------------------------------

/// A character that stands in a path as it is: beyond ASCII, or visible, but none of
/// `#<>?` and the backquote.
pub open spec fn stands_in_path(c: char) -> bool {
    &&& c as int > 0x20 && c as int != 0x7f
    &&& c != '#' && c != '<' && c != '>' && c != '?' && c != '`'
}

/// A character that stands in a query as it is: beyond ASCII, or visible, but none of
/// `"#<>`.
pub open spec fn stands_in_query(c: char) -> bool {
    &&& c as int > 0x20 && c as int != 0x7f
    &&& c != '"' && c != '#' && c != '<' && c != '>'
}

/// A slash and path characters, alone or with a question mark and query characters
/// behind, are a path with its query, if they are encoded in fewer than 65535 bytes.
pub proof fn law_paths_and_queries(path: Seq<char>, query: Seq<char>)
    requires
        path.len() > 0 && path[0] == '/',
        forall|i: int| 0 <= i < path.len() ==> stands_in_path(#[trigger] path[i]),
        forall|i: int| 0 <= i < query.len() ==> stands_in_query(#[trigger] query[i]),
    ensures
        vstd::utf8::encode_utf8(path).len() < 65535 ==> crate::uri::is_path_and_query(path),
        vstd::utf8::encode_utf8(path + "?"@ + query).len() < 65535
            ==> crate::uri::is_path_and_query(path + "?"@ + query),
        crate::uri::is_path_and_query("*"@),
        crate::uri::shown_target(path) == path,
        crate::uri::shown_target(path + "?"@ + query) == path + "?"@ + query,
        crate::uri::shown_target("*"@) == "*"@,
        crate::uri::shown_target("?"@ + query) == "/"@ + "?"@ + query,
{
    reveal_strlit("?");
    reveal_strlit("/");
    reveal_strlit("*");
    assert("*"@ =~= seq!['*']);
    let whole = path + "?"@ + query;
    assert(whole[0] == '/');
    assert(("?"@ + query)[0] == '?');
    assert(seq!['/'] + ("?"@ + query) =~= "/"@ + "?"@ + query);
    assert forall|i: int| 0 <= i < path.len() implies if path.take(i).contains('?') {
        crate::uri::is_query_char(#[trigger] path[i])
    } else {
        path[i] == '?' || crate::uri::is_path_char(path[i])
    } by {
        assert(stands_in_path(path[i]));
        if path.take(i).contains('?') {
            let k = choose|k: int| 0 <= k < path.take(i).len() && path.take(i)[k] == '?';
            assert(stands_in_path(path[k]));
        }
    }
    assert forall|i: int| 0 <= i < whole.len() implies if whole.take(i).contains('?') {
        crate::uri::is_query_char(#[trigger] whole[i])
    } else {
        whole[i] == '?' || crate::uri::is_path_char(whole[i])
    } by {
        if i < path.len() {
            assert(whole[i] == path[i]);
            assert(stands_in_path(path[i]));
            if whole.take(i).contains('?') {
                let k = choose|k: int| 0 <= k < whole.take(i).len() && whole.take(i)[k] == '?';
                assert(whole.take(i)[k] == path[k]);
                assert(stands_in_path(path[k]));
            }
        } else if i > path.len() {
            assert(whole.take(i)[path.len() as int] == '?');
            assert(whole[i] == query[i - path.len() - 1]);
            assert(stands_in_query(query[i - path.len() - 1]));
        }
    }
}

/// A path with its query starts with a slash or a question mark, or is an asterisk,
/// and holds no space, no control character, no fragment and no angle bracket.
pub proof fn law_no_path_holds_a_fragment(target: Seq<char>, i: int)
    requires
        crate::uri::is_path_and_query(target),
        0 <= i < target.len(),
    ensures
        target[0] == '/' || target[0] == '?' || target == "*"@,
        target[i] as int > 0x20 && target[i] as int != 0x7f,
        target[i] != '#' && target[i] != '<' && target[i] != '>',
{
    reveal_strlit("*");
    assert("*"@ =~= seq!['*']);
}

/// A URI is `http://`, the authority and the path, and nothing else.
pub proof fn law_plain_uri_by_parts(authority: Seq<char>, target: Seq<char>)
    ensures
        crate::uri::plain_uri(authority, target) == "http://"@ + authority + target,
{
    reveal_strlit("http://");
    assert("http://"@ =~= seq!['h', 't', 't', 'p', ':', '/', '/']);
}

/// A request without a path leads to no URI.
pub proof fn law_no_path_no_uri(addr: IpAddr, port: u16)
    ensures
        crate::uri::target_uri(addr, port, None) is None,
{
}

// ---------------------------------------------------------------------------
// Header fields
// ---------------------------------------------------------------------------

/// A field value is spoiled by a control character other than the tab, and by
/// nothing else.
pub proof fn law_field_values_hold_no_control_characters(bytes: Seq<u8>)
    ensures
        !crate::headers::is_field_value(bytes) <==> exists|i: int|
            0 <= i < bytes.len() && ((#[trigger] bytes[i]) <= 8 || 10 <= bytes[i] <= 31 || bytes[i]
                == 127),
{
    if !crate::headers::is_field_value(bytes) {
        let i = choose|i: int|
            0 <= i < bytes.len() && !crate::headers::is_value_byte(#[trigger] bytes[i]);
        assert(bytes[i] <= 8 || 10 <= bytes[i] <= 31 || bytes[i] == 127);
    }
    if exists|i: int|
        0 <= i < bytes.len() && ((#[trigger] bytes[i]) <= 8 || 10 <= bytes[i] <= 31 || bytes[i]
            == 127) {
        let i = choose|i: int|
            0 <= i < bytes.len() && ((#[trigger] bytes[i]) <= 8 || 10 <= bytes[i] <= 31 || bytes[i]
                == 127);
        assert(!crate::headers::is_value_byte(bytes[i]));
    }
}

/// A field has all the values that the map holds for it, and none where it holds
/// none.
pub proof fn law_values_are_those_of_the_map(
    fields: Map<Seq<char>, Seq<Seq<u8>>>,
    name: Seq<char>,
)
    ensures
        fields.contains_key(name) ==> crate::headers::values_of(fields, name) == fields[name],
        !fields.contains_key(name) ==> crate::headers::values_of(fields, name).len() == 0,
{
}

} // verus!
