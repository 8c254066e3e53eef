//! Deterministic proposal identity.
//!
//! A proposal's identifier is the base-64 text of the SHA-256 digest of its
//! canonical content, so identical content always yields the same
//! identifier on every peer.

use vstd::prelude::*;

verus! {

/// The 32-byte digest that SHA-256 assigns to a text; it depends on the
/// characters alone.
pub uninterp spec fn sha256_of(s: Seq<char>) -> Seq<u8>;

/// The text that the standard padded base-64 alphabet assigns to a byte
/// string; it depends on the bytes alone.
pub uninterp spec fn base64_of(b: Seq<u8>) -> Seq<char>;

/// The canonical content of a proposal message: its title and description,
/// joined by a colon and a space.
pub open spec fn canonical_content(title: Seq<char>, description: Seq<char>) -> Seq<char> {
    title + ": "@ + description
}

/// The identifier assigned to a proposal message with the given title and
/// description: base-64 of the SHA-256 digest of the canonical content.
pub open spec fn proposal_id_of(title: Seq<char>, description: Seq<char>) -> Seq<char> {
    base64_of(sha256_of(canonical_content(title, description)))
}

/// Relies on sha2's `Sha256`: the digest has exactly 32 bytes and is a
/// function of the input characters alone.
#[verifier::external_body]
pub(crate) fn sha256(s: &str) -> (r: Vec<u8>)
    ensures
        r@ == sha256_of(s@),
        r@.len() == 32,
{
    <sha2::Sha256 as sha2::Digest>::digest(s).to_vec()
}

/// Relies on base64's `BASE64_STANDARD` engine: padded standard encoding
/// writes four characters for every started group of three input bytes and
/// is a function of the input bytes alone. The engine panics when the
/// output length overflows `usize`, so inputs anywhere near that size are
/// excluded.
#[verifier::external_body]
pub(crate) fn base64_encode(b: &[u8]) -> (r: String)
    requires
        4 * b@.len() + 16 <= usize::MAX,
    ensures
        r@ == base64_of(b@),
        r@.len() == 4 * ((b@.len() + 2) / 3),
{
    base64::Engine::encode(&base64::prelude::BASE64_STANDARD, b)
}

/// Two messages with the same canonical content are assigned the same
/// identifier: proposal identity is deterministic in the content.
pub proof fn lemma_proposal_id_deterministic(
    title1: Seq<char>,
    description1: Seq<char>,
    title2: Seq<char>,
    description2: Seq<char>,
)
    requires
        canonical_content(title1, description1) == canonical_content(title2, description2),
    ensures
        proposal_id_of(title1, description1) == proposal_id_of(title2, description2),
{
}

} // verus!
