//! Small functions on text and byte strings.

use vstd::prelude::*;

verus! {

/// The position of the first occurrence of `needle` in `haystack`, if `found` is
/// `Some`; `None` says that it does not occur.
pub open spec fn is_first_occurrence(
    haystack: Seq<u8>,
    needle: Seq<u8>,
    found: Option<usize>,
) -> bool {
    match found {
        Some(at) => occurs_at(haystack, needle, at as int) && forall|i: int|
            0 <= i < at ==> !occurs_at(haystack, needle, i),
        None => forall|i: int| !occurs_at(haystack, needle, i),
    }
}

/// `needle` stands in `haystack` at position `at`.
pub open spec fn occurs_at(haystack: Seq<u8>, needle: Seq<u8>, at: int) -> bool {
    0 <= at && at + needle.len() <= haystack.len() && haystack.subrange(at, at + needle.len())
        == needle
}

/// `needle` stands somewhere in `haystack`.
pub open spec fn occurs_in(haystack: Seq<u8>, needle: Seq<u8>) -> bool {
    exists|at: int| occurs_at(haystack, needle, at)
}

/// Calls `memchr::memmem::find`, which returns the index of the first occurrence
/// of `needle` in `haystack`, or `None` where there is none.
#[verifier::external_body]
fn memmem_find(haystack: &[u8], needle: &[u8]) -> (found: Option<usize>)
    ensures
        is_first_occurrence(haystack@, needle@, found),
{
    memchr::memmem::find(haystack, needle)
}

/// Whether `needle` stands somewhere in `haystack`.
pub fn contains_bytes(haystack: &[u8], needle: &[u8]) -> (r: bool)
    ensures
        r == occurs_in(haystack@, needle@),
{
    match memmem_find(haystack, needle) {
        Some(at) => {
            assert(occurs_at(haystack@, needle@, at as int));
            true
        },
        None => false,
    }
}

/// The byte with an ASCII capital letter replaced by its small letter.
pub open spec fn lower(b: u8) -> u8 {
    if 0x41 <= b <= 0x5a {
        (b + 0x20) as u8
    } else {
        b
    }
}

/// The byte string with its ASCII capital letters replaced by small letters.
pub open spec fn lower_all(bytes: Seq<u8>) -> Seq<u8> {
    bytes.map_values(|b: u8| lower(b))
}

/// A copy of `bytes` with its ASCII capital letters replaced by small letters.
pub fn to_ascii_lowercase(bytes: &[u8]) -> (r: Vec<u8>)
    ensures
        r@ == lower_all(bytes@),
{
    let mut r: Vec<u8> = Vec::new();
    let n: usize = bytes.len();
    for i in 0..n
        invariant
            n == bytes@.len(),
            r@ == lower_all(bytes@.take(i as int)),
    {
        let b: u8 = bytes[i];
        let small: u8 = if 0x41 <= b && b <= 0x5a {
            b + 0x20
        } else {
            b
        };
        r.push(small);
        assert(r@ =~= lower_all(bytes@.take(i + 1)));
    }
    assert(bytes@.take(n as int) =~= bytes@);
    r
}

/// Whether the two texts are the same.
pub fn same_text(a: &str, b: &str) -> (r: bool)
    ensures
        r == (a@ == b@),
{
    a.to_owned() == b.to_owned()
}

/// The digit `d` as a character.
pub open spec fn digit(d: nat) -> char
    recommends
        d < 10,
{
    ((('0' as int) + d) as u8) as char
}

/// The decimal digits of `n`, without leading zeros.
pub open spec fn decimal(n: nat) -> Seq<char>
    decreases n,
{
    if n < 10 {
        seq![digit(n)]
    } else {
        decimal(n / 10).push(digit(n % 10))
    }
}

/// The text of one digit.
fn digit_text(d: u16) -> (r: &'static str)
    requires
        d < 10,
    ensures
        r@ == seq![digit(d as nat)],
{
    proof {
        reveal_strlit("0");
        reveal_strlit("1");
        reveal_strlit("2");
        reveal_strlit("3");
        reveal_strlit("4");
        reveal_strlit("5");
        reveal_strlit("6");
        reveal_strlit("7");
        reveal_strlit("8");
        reveal_strlit("9");
    }
    match d {
        0 => "0",
        1 => "1",
        2 => "2",
        3 => "3",
        4 => "4",
        5 => "5",
        6 => "6",
        7 => "7",
        8 => "8",
        _ => "9",
    }
}

/// The decimal digits of `n`.
pub fn decimal_text(n: u16) -> (r: String)
    ensures
        r@ == decimal(n as nat),
    decreases n,
{
    if n < 10 {
        digit_text(n).to_owned()
    } else {
        let mut r: String = decimal_text(n / 10);
        r.append(digit_text(n % 10));
        assert(r@ =~= decimal(n as nat));
        r
    }
}

} // verus!
