//! Twelve-byte object identifiers, as the document store assigns them, and
//! their hexadecimal text form.
use vstd::prelude::*;

verus! {

/// A twelve-byte object identifier.
#[derive(Clone, Copy, Debug)]
pub struct Oid {
    pub bytes: [u8; 12],
}

/// Whether `c` is a hexadecimal digit, in either case.
pub open spec fn is_hex_digit(c: char) -> bool {
    ('0' <= c && c <= '9') || ('a' <= c && c <= 'f') || ('A' <= c && c <= 'F')
}

/// The value of a hexadecimal digit.
pub open spec fn hex_value(c: char) -> int {
    if '0' <= c && c <= '9' {
        c as int - '0' as int
    } else if 'a' <= c && c <= 'f' {
        c as int - 'a' as int + 10
    } else {
        c as int - 'A' as int + 10
    }
}

/// The lower-case hexadecimal digit for a value below 16.
pub open spec fn hex_digit(v: int) -> char {
    if v < 10 {
        ('0' as int + v) as char
    } else {
        ('a' as int + v - 10) as char
    }
}

/// Whether `s` is the text of an object identifier: exactly 24 hexadecimal digits.
pub open spec fn is_oid_text(s: Seq<char>) -> bool {
    s.len() == 24 && forall|i: int| 0 <= i < 24 ==> is_hex_digit(#[trigger] s[i])
}

/// The identifier written by `s`, two digits per byte, high digit first.
pub open spec fn oid_of_text(s: Seq<char>, b: Seq<u8>) -> bool {
    b.len() == 12 && forall|i: int|
        0 <= i < 12 ==> #[trigger] b[i] == hex_value(s[2 * i]) * 16 + hex_value(s[2 * i + 1])
}

/// The lower-case hexadecimal text of a byte sequence, two digits per byte, high digit first.
pub open spec fn lower_hex(b: Seq<u8>) -> Seq<char> {
    Seq::new(
        2 * b.len(),
        |i: int| if i % 2 == 0 { hex_digit(b[i / 2] as int / 16) } else { hex_digit(b[i / 2] as int % 16) },
    )
}

/// The 24-character lower-case hexadecimal text of twelve bytes.
pub open spec fn oid_hex(b: Seq<u8>) -> Seq<char> {
    lower_hex(b)
}

/// Calls `bson::oid::ObjectId::parse_str`: it succeeds exactly on 24 hexadecimal
/// digits of either case (the input's bytes are hex-decoded and must give 12
/// bytes), and the identifier holds the decoded bytes.
#[verifier::external_body]
pub(crate) fn parse_oid(s: &str) -> (r: Option<Oid>)
    ensures
        r is Some <==> is_oid_text(s@),
        r matches Some(o) ==> oid_of_text(s@, o.bytes@),
{
    match mongodb::bson::oid::ObjectId::parse_str(s) {
        Ok(o) => Some(Oid { bytes: o.bytes() }),
        Err(_) => None,
    }
}

/// Calls `bson::oid::ObjectId::to_hex`: the 24-character lower-case hexadecimal
/// text of the identifier's bytes, high digit first.
#[verifier::external_body]
pub(crate) fn oid_to_hex(o: &Oid) -> (r: String)
    ensures
        r@ == oid_hex(o.bytes@),
{
    mongodb::bson::oid::ObjectId::from_bytes(o.bytes).to_hex()
}

/// Whether two identifiers hold the same bytes.
pub fn same_oid(a: &Oid, b: &Oid) -> (r: bool)
    ensures
        r == (a.bytes@ == b.bytes@),
{
    let mut i: usize = 0;
    while i < 12
        invariant
            i <= 12,
            forall|j: int| 0 <= j < i ==> a.bytes@[j] == b.bytes@[j],
        decreases 12 - i,
    {
        if a.bytes[i] != b.bytes[i] {
            return false;
        }
        i += 1;
    }
    assert(a.bytes@ =~= b.bytes@);
    true
}

} // verus!
