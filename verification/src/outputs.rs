//! What provers hand over: proofs of L1 batches.

use crate::text;
use crate::text::bracketed_string;
use crate::text::decimal_string;
use vstd::prelude::*;

verus! {

/// The number of an L1 batch.
#[derive(Clone, Copy, Debug, PartialEq, Eq)]
pub struct L1BatchNumber(pub u32);

/// A place in an object store.
#[derive(Clone, Copy, Debug, PartialEq, Eq)]
pub enum Bucket {
    ProofsFri,
}

/// The only type of proof utilized by the core subsystem: a "final" proof that can be sent to the
/// L1 contract. `P` is the type of the scheduler proof, which is carried along as it is.
pub struct L1BatchProofForL1<P> {
    pub aggregation_result_coords: [[u8; 32]; 4],
    pub scheduler_proof: P,
}

/// The bytes of one coordinate as a bracketed list.
pub open spec fn coordinate_text(bytes: Seq<u8>) -> Seq<char> {
    text::bracketed(bytes.map_values(|byte: u8| text::decimal(byte as nat)))
}

/// The coordinates as a bracketed list of bracketed lists.
pub open spec fn coordinates_text(coords: Seq<[u8; 32]>) -> Seq<char> {
    text::bracketed(coords.map_values(|bytes: [u8; 32]| coordinate_text(bytes@)))
}

/// The key under which the proof of the batch `number` is stored.
pub open spec fn proof_key(number: u32) -> Seq<char> {
    "l1_batch_proof_"@ + text::decimal(number as nat) + ".bin"@
}

/// Writes the bytes of one coordinate as a bracketed list.
fn coordinate_string(bytes: &[u8; 32]) -> (text: String)
    ensures
        text@ == coordinate_text(bytes@),
{
    let ghost texts = bytes@.map_values(|byte: u8| text::decimal(byte as nat));
    let mut parts: Vec<String> = Vec::new();
    for i in 0..32usize
        invariant
            texts == bytes@.map_values(|byte: u8| text::decimal(byte as nat)),
            bytes@.len() == 32,
            text::contents(parts@) == texts.take(i as int),
    {
        let ghost before = parts@;
        parts.push(decimal_string(bytes[i] as u64));
        assert(text::contents(parts@) == text::contents(before).push(texts[i as int]));
        assert(texts.take(i + 1) == texts.take(i as int).push(texts[i as int]));
    }
    assert(texts.take(32) == texts);
    bracketed_string(&parts)
}

/// Writes the coordinates as a bracketed list of bracketed lists.
fn coordinates_string(coords: &[[u8; 32]; 4]) -> (text: String)
    ensures
        text@ == coordinates_text(coords@),
{
    let ghost texts = coords@.map_values(|bytes: [u8; 32]| coordinate_text(bytes@));
    let mut parts: Vec<String> = Vec::new();
    for i in 0..4usize
        invariant
            texts == coords@.map_values(|bytes: [u8; 32]| coordinate_text(bytes@)),
            coords@.len() == 4,
            text::contents(parts@) == texts.take(i as int),
    {
        let ghost before = parts@;
        parts.push(coordinate_string(&coords[i]));
        assert(text::contents(parts@) == text::contents(before).push(texts[i as int]));
        assert(texts.take(i + 1) == texts.take(i as int).push(texts[i as int]));
    }
    assert(texts.take(4) == texts);
    bracketed_string(&parts)
}

impl<P: Clone> Clone for L1BatchProofForL1<P> {
    fn clone(&self) -> (proof_for_l1: Self)
        ensures
            proof_for_l1.aggregation_result_coords == self.aggregation_result_coords,
            cloned::<P>(self.scheduler_proof, proof_for_l1.scheduler_proof),
    {
        L1BatchProofForL1 {
            aggregation_result_coords: self.aggregation_result_coords,
            scheduler_proof: self.scheduler_proof.clone(),
        }
    }
}

impl<P> L1BatchProofForL1<P> {
    /// Returns the place where proofs are stored.
    pub fn bucket() -> (bucket: Bucket)
        ensures
            bucket == Bucket::ProofsFri,
    {
        Bucket::ProofsFri
    }

    /// Returns the key under which the proof of the batch `key` is stored.
    pub fn encode_key(key: L1BatchNumber) -> (encoded: String)
        ensures
            encoded@ == proof_key(key.0),
    {
        let mut encoded = "l1_batch_proof_".to_owned();
        encoded.append(decimal_string(key.0 as u64).as_str());
        encoded.append(".bin");
        encoded
    }

    /// Returns the text that the proof is shown as, which leaves the scheduler proof out.
    pub fn debug_string(&self) -> (text: String)
        ensures
            text@ == "L1BatchProofForL1 { aggregation_result_coords: "@ + coordinates_text(
                self.aggregation_result_coords@,
            ) + ", .. }"@,
    {
        let mut text = "L1BatchProofForL1 { aggregation_result_coords: ".to_owned();
        text.append(coordinates_string(&self.aggregation_result_coords).as_str());
        text.append(", .. }");
        text
    }
}

/// Proofs of different batches are stored under different keys.
pub proof fn proof_keys_differ(a: u32, b: u32)
    requires
        a != b,
    ensures
        proof_key(a) != proof_key(b),
{
    if proof_key(a) == proof_key(b) {
        reveal_strlit("l1_batch_proof_");
        reveal_strlit(".bin");
        let len = proof_key(a).len();
        assert(proof_key(a).subrange(15, len - 4) == text::decimal(a as nat));
        assert(proof_key(b).subrange(15, len - 4) == text::decimal(b as nat));
        text::decimal_is_injective(a as nat, b as nat);
    }
}

/// The key of a proof names its batch: between `l1_batch_proof_` and `.bin` it has the digits of
/// the number of the batch, and nothing else.
pub proof fn key_names_the_batch<P>(key: L1BatchNumber, encoded: String)
    requires
        call_ensures(L1BatchProofForL1::<P>::encode_key, (key,), encoded),
    ensures
        encoded@.len() > "l1_batch_proof_"@.len() + ".bin"@.len(),
        "l1_batch_proof_"@.is_prefix_of(encoded@),
        ".bin"@.is_suffix_of(encoded@),
        text::reads_as(
            encoded@.subrange(
                "l1_batch_proof_"@.len() as int,
                encoded@.len() - ".bin"@.len(),
            ),
            key.0 as int,
        ),
{
    reveal_strlit("l1_batch_proof_");
    reveal_strlit(".bin");
    let digits = text::decimal(key.0 as nat);
    text::decimal_reads_back(key.0 as nat);
    let all = "l1_batch_proof_"@ + digits + ".bin"@;
    assert(all.subrange("l1_batch_proof_"@.len() as int, all.len() - ".bin"@.len()) == digits);
    assert("l1_batch_proof_"@ == all.take("l1_batch_proof_"@.len() as int));
    assert(".bin"@ == all.skip(all.len() - ".bin"@.len()));
}

/// Whether `text` is a bracketed list of the numbers `bytes`, in their order.
pub open spec fn lists_bytes(text: Seq<char>, bytes: Seq<u8>) -> bool {
    exists|parts: Seq<Seq<char>>|
        {
            &&& parts.len() == bytes.len()
            &&& forall|i: int|
                0 <= i < bytes.len() ==> text::reads_as(#[trigger] parts[i], bytes[i] as int)
            &&& text == "["@ + #[trigger] text::comma_separated(parts) + "]"@
        }
}

/// Whether `text` is a bracketed list of the coordinates `coords`, in their order.
pub open spec fn lists_coordinates(text: Seq<char>, coords: Seq<[u8; 32]>) -> bool {
    exists|parts: Seq<Seq<char>>|
        {
            &&& parts.len() == coords.len()
            &&& forall|i: int|
                0 <= i < coords.len() ==> lists_bytes(#[trigger] parts[i], coords[i]@)
            &&& text == "["@ + #[trigger] text::comma_separated(parts) + "]"@
        }
}

/// What one coordinate is shown as lists its bytes.
proof fn coordinate_text_lists_the_bytes(bytes: Seq<u8>)
    ensures
        lists_bytes(coordinate_text(bytes), bytes),
{
    let parts = bytes.map_values(|byte: u8| text::decimal(byte as nat));
    assert forall|i: int| 0 <= i < bytes.len() implies text::reads_as(
        #[trigger] parts[i],
        bytes[i] as int,
    ) by {
        text::decimal_reads_back(bytes[i] as nat);
    }
    assert(coordinate_text(bytes) == "["@ + text::comma_separated(parts) + "]"@);
}

/// What a proof is shown as lists the bytes of all its coordinates, and nothing besides.
pub proof fn debug_string_lists_the_coordinates<P>(shown: L1BatchProofForL1<P>, text: String)
    requires
        call_ensures(L1BatchProofForL1::<P>::debug_string, (&shown,), text),
    ensures
        "L1BatchProofForL1 { aggregation_result_coords: "@.is_prefix_of(text@),
        ", .. }"@.is_suffix_of(text@),
        lists_coordinates(
            text@.subrange(
                "L1BatchProofForL1 { aggregation_result_coords: "@.len() as int,
                text@.len() - ", .. }"@.len(),
            ),
            shown.aggregation_result_coords@,
        ),
{
    let front = "L1BatchProofForL1 { aggregation_result_coords: "@;
    let back = ", .. }"@;
    let coords = shown.aggregation_result_coords@;
    let parts = coords.map_values(|bytes: [u8; 32]| coordinate_text(bytes@));
    assert forall|i: int| 0 <= i < coords.len() implies lists_bytes(
        #[trigger] parts[i],
        coords[i]@,
    ) by {
        coordinate_text_lists_the_bytes(coords[i]@);
    }
    let all = front + coordinates_text(coords) + back;
    assert(coordinates_text(coords) == "["@ + text::comma_separated(parts) + "]"@);
    assert(all.subrange(front.len() as int, all.len() - back.len()) == coordinates_text(coords));
    assert(front == all.take(front.len() as int));
    assert(back == all.skip(all.len() - back.len()));
}

/// What a proof is shown as does not depend on its scheduler proof.
pub proof fn debug_string_hides_the_scheduler_proof<P, Q>(
    a: L1BatchProofForL1<P>,
    b: L1BatchProofForL1<Q>,
    text_a: String,
    text_b: String,
)
    requires
        a.aggregation_result_coords == b.aggregation_result_coords,
        call_ensures(L1BatchProofForL1::<P>::debug_string, (&a,), text_a),
        call_ensures(L1BatchProofForL1::<Q>::debug_string, (&b,), text_b),
    ensures
        text_a@ == text_b@,
{
}

/// A cloned proof has the same coordinates, and a clone of the scheduler proof.
pub proof fn clone_keeps_the_coordinates<P: Clone>(
    original: L1BatchProofForL1<P>,
    copy: L1BatchProofForL1<P>,
)
    requires
        call_ensures(L1BatchProofForL1::<P>::clone, (&original,), copy),
    ensures
        copy.aggregation_result_coords == original.aggregation_result_coords,
        cloned::<P>(original.scheduler_proof, copy.scheduler_proof),
{
}

} // verus!
