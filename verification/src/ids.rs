//! Identifiers produced by the `uuid` crate, carried in the library as `u128`.

use vstd::prelude::*;

verus! {

/// What `uuid::Uuid::parse_str` makes of a text, as the identifier's 128 bits.
pub uninterp spec fn uuid_parse_result(s: Seq<char>) -> Option<u128>;

/// `uuid::Uuid::parse_str(s).ok()`, as 128 bits. The result is named by
/// `uuid_parse_result`; nothing more is claimed of which texts the crate accepts.
#[verifier::external_body]
pub fn uuid_parse(s: &str) -> (r: Option<u128>)
    ensures
        r == uuid_parse_result(s@),
{
    uuid::Uuid::parse_str(s).ok().map(|u| u.as_u128())
}

/// `uuid::Uuid::new_v4()`, as 128 bits. Random: nothing is claimed of the value.
#[verifier::external_body]
pub fn uuid_new_v4() -> (r: u128) {
    uuid::Uuid::new_v4().as_u128()
}

} // verus!
