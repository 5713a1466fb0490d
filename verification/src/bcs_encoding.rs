//! Values in binary canonical serialization.

use vstd::prelude::*;

verus! {

/// `bcs::Error`. Nothing is claimed of it: the library only tells that there was an error.
#[verifier::external_type_specification]
#[verifier::external_body]
pub struct ExBcsError(bcs::Error);

/// The longest sequence that can be encoded.
pub open spec fn max_sequence_length() -> nat {
    0x7fff_ffff
}

/// `value` in base 128, lowest digit first, with the high bit set in every byte but the last.
pub open spec fn uleb128(value: nat) -> Seq<u8>
    decreases value,
{
    if value < 128 {
        seq![value as u8]
    } else {
        seq![(value % 128 + 128) as u8] + uleb128(value / 128)
    }
}

/// `value` in base 256, lowest digit first, as `len` bytes.
pub open spec fn little_endian(value: nat, len: nat) -> Seq<u8>
    decreases len,
{
    if len == 0 {
        Seq::empty()
    } else {
        seq![(value % 256) as u8] + little_endian(value / 256, (len - 1) as nat)
    }
}

/// The encoding of a string of bytes: its length, and the bytes.
pub open spec fn encoded_bytes(bytes: Seq<u8>) -> Seq<u8> {
    uleb128(bytes.len()) + bytes
}

/// The encoding of pairs of a name and data, one after the other.
pub open spec fn encoded_pairs(pairs: Seq<(Seq<u8>, Seq<u8>)>) -> Seq<u8>
    decreases pairs.len(),
{
    if pairs.len() == 0 {
        Seq::empty()
    } else {
        encoded_pairs(pairs.drop_last()) + encoded_bytes(pairs.last().0) + encoded_bytes(
            pairs.last().1,
        )
    }
}

/// The encoding of the transcript `transcript` that `author` dealt in `epoch`.
pub open spec fn encoded_transcript(epoch: u64, author: Seq<u8>, transcript: Seq<u8>) -> Seq<u8> {
    little_endian(epoch as nat, 8) + author + encoded_bytes(transcript)
}

/// The encoding of version `version` of the keys of `issuer`.
pub open spec fn encoded_provider(
    issuer: Seq<u8>,
    version: u64,
    jwks: Seq<(Seq<u8>, Seq<u8>)>,
) -> Seq<u8> {
    encoded_bytes(issuer) + little_endian(version as nat, 8) + uleb128(jwks.len()) + encoded_pairs(
        jwks,
    )
}

/// Whether no sequence in the keys of `issuer` is too long to be encoded.
pub open spec fn provider_fits(issuer: Seq<u8>, jwks: Seq<(Seq<u8>, Seq<u8>)>) -> bool {
    &&& issuer.len() <= max_sequence_length()
    &&& jwks.len() <= max_sequence_length()
    &&& forall|i: int|
        0 <= i < jwks.len() ==> (#[trigger] jwks[i]).0.len() <= max_sequence_length()
            && jwks[i].1.len() <= max_sequence_length()
}

/// The bytes of the name, and the data, of each key.
pub open spec fn pairs_of(jwks: Seq<(String, Vec<u8>)>) -> Seq<(Seq<u8>, Seq<u8>)> {
    Seq::new(jwks.len(), |i: int| (vstd::utf8::encode_utf8(jwks[i].0@), jwks[i].1@))
}

/// `bcs::to_bytes` on the fields of a transcript: the epoch as eight bytes, the author as it is,
/// and the transcript with its length before it. Fails just where the transcript is longer than a
/// sequence may be.
#[verifier::external_body]
pub(crate) fn transcript_to_bytes(epoch: u64, author: [u8; 32], transcript: &Vec<u8>) -> (encoded:
    Result<Vec<u8>, bcs::Error>)
    ensures
        encoded is Ok <==> transcript@.len() <= max_sequence_length(),
        encoded matches Ok(bytes) ==> bytes@ == encoded_transcript(epoch, author@, transcript@),
{
    bcs::to_bytes(&(epoch, author, transcript))
}

/// `bcs::to_bytes` on the fields of a provider's keys: the issuer with its length, the version as
/// eight bytes, and the number of keys with the name and the data of each, both with their
/// lengths. Fails just where one of them is longer than a sequence may be.
#[verifier::external_body]
pub(crate) fn provider_to_bytes(
    issuer: &Vec<u8>,
    version: u64,
    jwks: &Vec<(String, Vec<u8>)>,
) -> (encoded: Result<Vec<u8>, bcs::Error>)
    ensures
        encoded is Ok <==> provider_fits(issuer@, pairs_of(jwks@)),
        encoded matches Ok(bytes) ==> bytes@ == encoded_provider(
            issuer@,
            version,
            pairs_of(jwks@),
        ),
{
    bcs::to_bytes(&(issuer, version, jwks))
}

/// `bcs::to_bytes` on a string of bytes: its length, and the bytes. Fails just where it is longer
/// than a sequence may be.
#[verifier::external_body]
pub(crate) fn bytes_to_bytes(bytes: &Vec<u8>) -> (encoded: Result<Vec<u8>, bcs::Error>)
    ensures
        encoded is Ok <==> bytes@.len() <= max_sequence_length(),
        encoded matches Ok(out) ==> out@ == encoded_bytes(bytes@),
{
    bcs::to_bytes(bytes)
}

} // verus!
