//! Identifiers: the document store's generated identifiers, and the vector
//! index's point identifiers, which are derived from them by name.

use vstd::prelude::*;

verus! {

/// The identifier that `Uuid::new_v5` derives from `name` in the DNS
/// namespace, in its hyphenated lower-case form.
pub uninterp spec fn name_based_uuid(name: Seq<char>) -> Seq<char>;

/// Calls `Uuid::new_v5` with `Uuid::NAMESPACE_DNS` and the bytes of `name`, and
/// formats the result. Trusted: the result depends on `name` alone; this crate
/// only names it.
#[verifier::external_body]
fn uuid_v5_in_dns_namespace(name: &str) -> (id: String)
    ensures
        id@ == name_based_uuid(name@),
{
    uuid::Uuid::new_v5(&uuid::Uuid::NAMESPACE_DNS, name.as_bytes()).to_string()
}

/// The point of the vector index that stands for the product with the
/// identifier `product_id`. The same identifier always gives the same point.
pub fn source_point_id(product_id: &str) -> (id: String)
    ensures
        id@ == name_based_uuid(product_id@),
{
    uuid_v5_in_dns_namespace(product_id)
}

/// Whether `c` is one of `0`-`9`, `a`-`f`, `A`-`F`.
pub open spec fn is_hex_digit(c: char) -> bool {
    ||| 0x30 <= c as u32 <= 0x39
    ||| 0x41 <= c as u32 <= 0x46
    ||| 0x61 <= c as u32 <= 0x66
}

/// Whether `c` is one of `0`-`9`, `a`-`f`.
pub open spec fn is_lower_hex_digit(c: char) -> bool {
    ||| 0x30 <= c as u32 <= 0x39
    ||| 0x61 <= c as u32 <= 0x66
}

/// `c`, or its lower-case form where it is one of `A`-`F`.
pub open spec fn lower_hex_digit(c: char) -> char {
    if 0x41 <= c as u32 <= 0x46 {
        ((c as u32) + 0x20) as char
    } else {
        c
    }
}

/// Whether `s` is the text of a document identifier: 24 hexadecimal digits.
pub open spec fn is_document_id_text(s: Seq<char>) -> bool {
    s.len() == 24 && forall|i: int| 0 <= i < s.len() ==> is_hex_digit(#[trigger] s[i])
}

/// `s` with its hexadecimal digits in lower case.
pub open spec fn canonical_hex(s: Seq<char>) -> Seq<char> {
    Seq::new(s.len(), |i: int| lower_hex_digit(s[i]))
}

/// Calls `ObjectId::parse_str` and, where it succeeds, `ObjectId::to_hex`.
/// Trusted: parsing succeeds exactly on 24 hexadecimal digits of either case,
/// and the identifier's hex form is the same digits in lower case.
#[verifier::external_body]
fn parse_object_id_hex(s: &str) -> (hex: Option<String>)
    ensures
        hex is Some <==> is_document_id_text(s@),
        hex matches Some(h) ==> h@ == canonical_hex(s@),
{
    match bson::oid::ObjectId::parse_str(s) {
        Ok(id) => Some(id.to_hex()),
        Err(_) => None,
    }
}

/// An identifier that the document store generated: 12 bytes, held as 24
/// hexadecimal digits in lower case.
#[derive(Debug)]
pub struct DocumentId {
    hex: String,
}

impl View for DocumentId {
    type V = Seq<char>;

    closed spec fn view(&self) -> Seq<char> {
        self.hex@
    }
}

impl Clone for DocumentId {
    fn clone(&self) -> (copy: Self)
        ensures
            copy@ == self@,
            copy.wf(),
    {
        proof {
            use_type_invariant(self);
        }
        DocumentId { hex: self.hex.clone() }
    }
}

impl DocumentId {
    /// The identifier is 24 hexadecimal digits in lower case.
    #[verifier::type_invariant]
    pub closed spec fn wf(&self) -> bool {
        self.hex@.len() == 24 && forall|i: int|
            0 <= i < self.hex@.len() ==> is_lower_hex_digit(#[trigger] self.hex@[i])
    }

    /// Reads an identifier from its text. The text must be 24 hexadecimal
    /// digits; upper-case digits are accepted and stored in lower case.
    pub fn parse_str(s: &str) -> (r: Option<DocumentId>)
        ensures
            r is Some <==> is_document_id_text(s@),
            r matches Some(id) ==> id@ == canonical_hex(s@) && id.wf(),
    {
        match parse_object_id_hex(s) {
            Some(hex) => {
                proof {
                    assert forall|i: int| 0 <= i < hex@.len() implies is_lower_hex_digit(
                        #[trigger] hex@[i],
                    ) by {
                    }
                }
                Some(DocumentId { hex })
            },
            None => None,
        }
    }

    /// The identifier's 24 digits.
    pub fn to_hex(&self) -> (hex: String)
        ensures
            hex@ == self@,
            hex@.len() == 24,
    {
        proof {
            use_type_invariant(self);
        }
        self.hex.clone()
    }
}

} // verus!
