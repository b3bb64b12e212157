//! Key material: a fresh key and initialization vector for every run.
//!
//! The system gives a seed; the standard generator makes a stream of bytes
//! of it; the key is the head of that stream and the vector what follows.

use crate::error::PackError;
use vstd::prelude::*;

verus! {

/// The length of the key, in bytes.
pub const KEY_LEN: usize = 32;

/// The length of the initialization vector, in bytes.
pub const IV_LEN: usize = 16;

/// The length of the seed of the generator, in bytes.
pub const SEED_LEN: usize = 32;

/// The length of what is drawn from the generator for one run.
pub const STREAM_LEN: usize = 48;

/// `rand::Error`, with which the system refuses a seed.
#[verifier::external_type_specification]
#[verifier::external_body]
pub struct ExRandError(rand::Error);

/// The key and the initialization vector of one run.
pub struct KeyMaterial {
    pub key: [u8; 32],
    pub iv: [u8; 16],
}

/// The first 48 bytes that `rand::rngs::StdRng` gives when it is seeded
/// with `seed`.
pub uninterp spec fn seed_stream(seed: Seq<u8>) -> Seq<u8>;

/// The part of a stream that becomes the key: its first 32 bytes.
pub open spec fn key_of(stream: Seq<u8>) -> Seq<u8> {
    stream.subrange(0, KEY_LEN as int)
}

/// The part of a stream that becomes the vector: the 16 bytes after the
/// key.
pub open spec fn iv_of(stream: Seq<u8>) -> Seq<u8> {
    stream.subrange(KEY_LEN as int, STREAM_LEN as int)
}

/// `RngCore::try_fill_bytes` of `OsRng`, on a fresh array: a seed from the
/// entropy of the system, or the error with which the system refused.
/// Nothing is claimed of the outcome.
#[verifier::external_body]
fn system_seed() -> Result<[u8; 32], rand::Error> {
    let mut seed = [0u8; 32];
    rand::RngCore::try_fill_bytes(&mut rand::rngs::OsRng, &mut seed)?;
    Ok(seed)
}

/// `StdRng::from_seed`, then `RngCore::fill_bytes` on a fresh array of 48
/// bytes. The generator is deterministic: the bytes are a function of the
/// seed, and are claimed to be those that `seed_stream` names.
#[verifier::external_body]
fn expand_seed(seed: &[u8; 32]) -> (stream: [u8; 48])
    ensures
        stream@ == seed_stream(seed@),
{
    let mut generator = <rand::rngs::StdRng as rand::SeedableRng>::from_seed(*seed);
    let mut stream = [0u8; 48];
    rand::RngCore::fill_bytes(&mut generator, &mut stream);
    stream
}

/// Cuts a stream into the key material: the first 32 bytes are the key,
/// the 16 that follow are the vector.
pub fn split_stream(stream: &[u8; 48]) -> (keys: KeyMaterial)
    ensures
        keys.key@ == key_of(stream@),
        keys.iv@ == iv_of(stream@),
{
    let mut key = [0u8; 32];
    let mut iv = [0u8; 16];
    let mut i: usize = 0;
    while i < KEY_LEN
        invariant
            i <= KEY_LEN,
            forall|j: int| 0 <= j < i ==> key@[j] == stream@[j],
        decreases KEY_LEN - i,
    {
        key[i] = stream[i];
        i += 1;
    }
    let mut k: usize = 0;
    while k < IV_LEN
        invariant
            k <= IV_LEN,
            forall|j: int| 0 <= j < k ==> iv@[j] == stream@[KEY_LEN + j],
        decreases IV_LEN - k,
    {
        iv[k] = stream[KEY_LEN + k];
        k += 1;
    }
    assert(key@ =~= key_of(stream@));
    assert(iv@ =~= iv_of(stream@));
    KeyMaterial { key, iv }
}

/// Makes the key material of the seed that the system gave, and reports
/// the lack of entropy where it gave none. With a seed there is always key
/// material: the key is the head of the generator's stream for that seed,
/// the vector what follows it.
pub fn key_material_from(seeded: Result<[u8; 32], rand::Error>) -> (drawn: Result<
    KeyMaterial,
    PackError,
>)
    ensures
        match seeded {
            Ok(seed) => drawn matches Ok(keys) && keys.key@ == key_of(seed_stream(seed@))
                && keys.iv@ == iv_of(seed_stream(seed@)),
            Err(_) => drawn matches Err(e) && e == PackError::Entropy,
        },
{
    match seeded {
        Ok(seed) => {
            let stream = expand_seed(&seed);
            Ok(split_stream(&stream))
        },
        Err(_) => Err(PackError::Entropy),
    }
}

/// Makes the key material of a run: it asks the system for a seed and
/// draws key and vector from the generator's stream for it. The only
/// failure is that the system gives no seed.
pub fn generate_dynamic_key_iv() -> (drawn: Result<KeyMaterial, PackError>)
    ensures
        match drawn {
            Ok(keys) => exists|seed: Seq<u8>|
                seed.len() == SEED_LEN && keys.key@ == key_of(#[trigger] seed_stream(seed))
                    && keys.iv@ == iv_of(seed_stream(seed)),
            Err(e) => e == PackError::Entropy,
        },
{
    key_material_from(system_seed())
}

} // verus!
