//! The gateway to peer services: where a user's profile and a product are
//! asked for, and how a peer's answer is read.

use crate::text::{join2, join3};
use vstd::prelude::*;

verus! {

/// The status of an answer that carries what was asked for.
pub const OK: u16 = 200;

/// The status of an answer that says that what was asked for does not exist.
pub const PEER_NOT_FOUND: u16 = 404;

/// What a peer service answered.
#[derive(Debug)]
pub enum PeerAnswer<T> {
    /// Status 200, and the body had the expected shape.
    Decoded(T),
    /// Status 200, but the body could not be decoded; the text says why.
    Undecodable(String),
    /// Any other status, with its number and its description.
    Status { code: u16, text: String },
    /// The peer could not be reached; the text says why.
    Unreachable(String),
}

/// Whether an answer with the status `code` carries a body to decode.
pub fn awaits_body(code: u16) -> (r: bool)
    ensures
        r == (code == OK),
{
    code == OK
}

/// The address of the profile of the user `user_id` at the profile service at
/// `base`.
pub fn user_profile_url(base: &str, user_id: &str) -> (url: String)
    ensures
        url@ == base@ + "/api/v1/users/"@ + user_id@ + "/profile"@,
{
    join3(base, "/api/v1/users/", user_id).concat("/profile")
}

/// The address of the profile of the current user at the profile service at
/// `base`.
pub fn current_profile_url(base: &str) -> (url: String)
    ensures
        url@ == base@ + "/api/v1/profile"@,
{
    join2(base, "/api/v1/profile")
}

/// The address of the product with the barcode `barcode` at the catalogue at
/// `base`.
pub fn product_by_barcode_url(base: &str, barcode: &str) -> (url: String)
    ensures
        url@ == base@ + "/api/v1/products/barcode/"@ + barcode@,
{
    join3(base, "/api/v1/products/barcode/", barcode)
}

} // verus!
