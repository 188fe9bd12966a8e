//! Trusted boundary to the cryptographic verification primitive (ring's
//! HMAC-SHA256), and the name for the tag it computes.
//!
//! The tag is never written out as an algorithm here: it is a named,
//! uninterpreted function of the key and the credential text, and the two
//! trusted functions below relate what ring computes to that name.

use vstd::prelude::*;
use vstd::string::StringSliceAdditionalSpecFns;

verus! {

/// The HMAC-SHA256 tag over a credential: a function of the key and the
/// credential text alone, the same in every process and on every machine.
pub uninterp spec fn credential_tag(key: Seq<u8>, pword: Seq<char>) -> Seq<u8>;

/// Input-length bound (in encoded bytes) under which the HMAC primitive is
/// total; the hash's own message limit lies far above it.
pub const MAX_CREDENTIAL_LEN: u64 = 0x100_0000_0000_0000;

#[verifier::external_type_specification]
#[verifier::external_body]
pub struct ExUnspecified(ring::error::Unspecified);

/// Relies on ring::hmac::sign with HMAC_SHA256: the tag is a deterministic
/// function of the key and the message alone. sign is total below the hash's
/// input-length limit, which the bound keeps out of reach.
#[verifier::external_body]
pub(crate) fn seal_credential(key: &[u8], pword: &str) -> (r: Vec<u8>)
    requires
        pword.spec_bytes().len() < MAX_CREDENTIAL_LEN as nat,
    ensures
        r@ == credential_tag(key@, pword@),
{
    let k = ring::hmac::Key::new(ring::hmac::HMAC_SHA256, key);
    ring::hmac::sign(&k, pword.as_bytes()).as_ref().to_vec()
}

/// Relies on ring::hmac::verify: it recomputes the HMAC of the message under
/// the key and compares it with the tag in one step, in constant time. A
/// match is only ever reported for the genuine tag; below the input-length
/// limit the report is exact in both directions.
#[verifier::external_body]
pub(crate) fn check_credential(key: &[u8], pword: &str, tag: &[u8]) -> (r: bool)
    ensures
        r ==> tag@ == credential_tag(key@, pword@),
        pword.spec_bytes().len() < MAX_CREDENTIAL_LEN as nat ==> r == (tag@ == credential_tag(
            key@,
            pword@,
        )),
{
    let k = ring::hmac::Key::new(ring::hmac::HMAC_SHA256, key);
    ring::hmac::verify(&k, pword.as_bytes(), tag).is_ok()
}

} // verus!
