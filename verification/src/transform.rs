//! The two stages that turn a payload into what the stub carries, and
//! their inverses: compression with zlib, then encryption with AES-256 in
//! CBC mode with PKCS#7 padding.

use crate::error::PackError;
use crate::keys::KeyMaterial;
use block_modes::BlockMode;
use std::io::Write;
use vstd::prelude::*;

verus! {

/// The block size of the cipher, in bytes.
pub const BLOCK_LEN: usize = 16;

/// `std::io::Error`, with which the encoder and the decoder report a
/// failure.
#[verifier::external_type_specification]
#[verifier::external_body]
pub struct ExIoError(std::io::Error);

/// `block_modes::BlockModeError`, with which the cipher refuses what is
/// no ciphertext.
#[verifier::external_type_specification]
#[verifier::external_body]
pub struct ExBlockModeError(block_modes::BlockModeError);

/// The zlib stream that `flate2`'s `ZlibEncoder` writes for `data` at its
/// best compression level, or nothing where it reports an error.
pub uninterp spec fn zlib_compressed(data: Seq<u8>) -> Option<Seq<u8>>;

/// What `flate2`'s `ZlibDecoder` reads out of `stream`, or nothing where
/// it reports an error.
pub uninterp spec fn zlib_expanded(stream: Seq<u8>) -> Option<Seq<u8>>;

/// The ciphertext that `block_modes`' `Cbc<Aes256, Pkcs7>` makes of `plain`
/// under `key` and `iv`.
pub uninterp spec fn cbc_encrypted(key: Seq<u8>, iv: Seq<u8>, plain: Seq<u8>) -> Seq<u8>;

/// The plaintext that `block_modes`' `Cbc<Aes256, Pkcs7>` makes of `cipher`
/// under `key` and `iv`, or nothing where it reports an error.
pub uninterp spec fn cbc_decrypted(key: Seq<u8>, iv: Seq<u8>, cipher: Seq<u8>) -> Option<Seq<u8>>;

/// The length of the ciphertext of a plaintext of `n` bytes: the padding
/// fills the last block, and is a whole block where `n` is a multiple of
/// the block size.
pub open spec fn padded_len(n: nat) -> nat {
    ((n / BLOCK_LEN as nat) + 1) * BLOCK_LEN as nat
}

/// What the payload becomes on its way into the stub: compressed first,
/// then encrypted. Nothing where the compression fails.
pub open spec fn transformed(key: Seq<u8>, iv: Seq<u8>, payload: Seq<u8>) -> Option<Seq<u8>> {
    match zlib_compressed(payload) {
        Some(stream) => Some(cbc_encrypted(key, iv, stream)),
        None => None,
    }
}

/// The way back: decrypted first, then expanded. Nothing where either
/// step fails.
pub open spec fn recovered(key: Seq<u8>, iv: Seq<u8>, data: Seq<u8>) -> Option<Seq<u8>> {
    match cbc_decrypted(key, iv, data) {
        Some(stream) => zlib_expanded(stream),
        None => None,
    }
}

/// `ZlibEncoder::new` with `Compression::best`, then `write_all` and
/// `finish`, on an empty vector. The sink is in memory, so what comes
/// back depends on `data` alone. Claimed of it: it reports an error
/// exactly where `zlib_compressed` names no stream; else the bytes are
/// the stream that `zlib_compressed` names, and the decoder reads `data`
/// back out of them.
#[verifier::external_body]
fn deflate(data: &[u8]) -> (written: Result<Vec<u8>, std::io::Error>)
    ensures
        match written {
            Ok(stream) => zlib_compressed(data@) == Some(stream@) && zlib_expanded(stream@)
                == Some(data@),
            Err(_) => zlib_compressed(data@) is None,
        },
{
    let mut encoder = flate2::write::ZlibEncoder::new(Vec::new(), flate2::Compression::best());
    encoder.write_all(data)?;
    encoder.finish()
}

/// `ZlibDecoder::new`, then `write_all` and `finish`, on an empty vector.
/// Claimed of it: it reports an error exactly where `zlib_expanded` names
/// none, and else gives the bytes that `zlib_expanded` names.
#[verifier::external_body]
fn inflate(stream: &[u8]) -> (read: Result<Vec<u8>, std::io::Error>)
    ensures
        match read {
            Ok(data) => zlib_expanded(stream@) == Some(data@),
            Err(_) => zlib_expanded(stream@) is None,
        },
{
    let mut decoder = flate2::write::ZlibDecoder::new(Vec::new());
    decoder.write_all(stream)?;
    decoder.finish()
}

/// `Aes256::new`, `Cbc::new` and `encrypt_vec`. Claimed of it: the
/// ciphertext is the one that `cbc_encrypted` names; it is the plaintext
/// padded to the next whole block; and decryption under the same key and
/// vector gives the plaintext back.
#[verifier::external_body]
fn cbc_encrypt(key: &[u8; 32], iv: &[u8; 16], plain: &[u8]) -> (cipher: Vec<u8>)
    ensures
        cipher@ == cbc_encrypted(key@, iv@, plain@),
        cipher@.len() == padded_len(plain@.len()),
        cbc_decrypted(key@, iv@, cipher@) == Some(plain@),
{
    let cipher = <aes::Aes256 as aes::NewBlockCipher>::new(key.into());
    let mode = block_modes::Cbc::<aes::Aes256, block_modes::block_padding::Pkcs7>::new(
        cipher,
        iv.into(),
    );
    mode.encrypt_vec(plain)
}

/// `Aes256::new`, `Cbc::new` and `decrypt_vec`. Claimed of it: it reports
/// an error exactly where `cbc_decrypted` names no plaintext, which is so
/// for every input that is not a whole number of blocks, and else gives
/// the plaintext that `cbc_decrypted` names.
#[verifier::external_body]
fn cbc_decrypt(key: &[u8; 32], iv: &[u8; 16], cipher: &[u8]) -> (plain: Result<
    Vec<u8>,
    block_modes::BlockModeError,
>)
    ensures
        match plain {
            Ok(bytes) => cbc_decrypted(key@, iv@, cipher@) == Some(bytes@),
            Err(_) => cbc_decrypted(key@, iv@, cipher@) is None,
        },
        cipher@.len() % BLOCK_LEN as nat != 0 ==> plain is Err,
{
    let block_cipher = <aes::Aes256 as aes::NewBlockCipher>::new(key.into());
    let mode = block_modes::Cbc::<aes::Aes256, block_modes::block_padding::Pkcs7>::new(
        block_cipher,
        iv.into(),
    );
    mode.decrypt_vec(cipher)
}

/// What the compression stage hands on, given what the encoder returned.
pub fn compression_result(written: Result<Vec<u8>, std::io::Error>) -> (stage: Result<
    Vec<u8>,
    PackError,
>)
    ensures
        match written {
            Ok(stream) => stage == Ok::<Vec<u8>, PackError>(stream),
            Err(_) => stage == Err::<Vec<u8>, PackError>(PackError::Compression),
        },
{
    match written {
        Ok(stream) => Ok(stream),
        Err(_) => Err(PackError::Compression),
    }
}

/// Compresses `data` with zlib at the best ratio. Whether there is a
/// stream depends on `data` alone: it fails exactly on the data for which
/// the encoder reports an error. The stream can be expanded to `data`
/// again.
pub fn compress_data(data: &[u8]) -> (stage: Result<Vec<u8>, PackError>)
    ensures
        match stage {
            Ok(stream) => zlib_compressed(data@) == Some(stream@) && zlib_expanded(stream@)
                == Some(data@),
            Err(e) => e == PackError::Compression && zlib_compressed(data@) is None,
        },
{
    compression_result(deflate(data))
}

/// What the expansion hands on, given what the decoder returned.
pub fn expansion_result(read: Result<Vec<u8>, std::io::Error>) -> (stage: Result<
    Vec<u8>,
    PackError,
>)
    ensures
        match read {
            Ok(data) => stage == Ok::<Vec<u8>, PackError>(data),
            Err(_) => stage == Err::<Vec<u8>, PackError>(PackError::Decompression),
        },
{
    match read {
        Ok(data) => Ok(data),
        Err(_) => Err(PackError::Decompression),
    }
}

/// Expands a zlib stream. It fails exactly on the inputs that are no
/// stream the decoder accepts.
pub fn decompress_data(stream: &[u8]) -> (stage: Result<Vec<u8>, PackError>)
    ensures
        match stage {
            Ok(data) => zlib_expanded(stream@) == Some(data@),
            Err(e) => e == PackError::Decompression && zlib_expanded(stream@) is None,
        },
{
    expansion_result(inflate(stream))
}

/// Encrypts `plaintext` with AES-256 in CBC mode, padded to whole blocks.
/// Decryption under the same key and vector gives `plaintext` back.
pub fn encrypt_data(plaintext: &[u8], key: &[u8; 32], iv: &[u8; 16]) -> (cipher: Vec<u8>)
    ensures
        cipher@ == cbc_encrypted(key@, iv@, plaintext@),
        cipher@.len() == padded_len(plaintext@.len()),
        cipher@.len() > plaintext@.len(),
        cipher@.len() % BLOCK_LEN as nat == 0,
        cbc_decrypted(key@, iv@, cipher@) == Some(plaintext@),
{
    let cipher = cbc_encrypt(key, iv, plaintext);
    proof {
        lemma_padded_len(plaintext@.len());
    }
    cipher
}

/// What the decryption hands on, given what the cipher returned.
pub fn decryption_result(plain: Result<Vec<u8>, block_modes::BlockModeError>) -> (stage: Result<
    Vec<u8>,
    PackError,
>)
    ensures
        match plain {
            Ok(bytes) => stage == Ok::<Vec<u8>, PackError>(bytes),
            Err(_) => stage == Err::<Vec<u8>, PackError>(PackError::Decryption),
        },
{
    match plain {
        Ok(bytes) => Ok(bytes),
        Err(_) => Err(PackError::Decryption),
    }
}

/// Decrypts `ciphertext`. It fails exactly on the inputs that are no
/// ciphertext under this key and vector; an input that is not a whole
/// number of blocks is one.
pub fn decrypt_data(ciphertext: &[u8], key: &[u8; 32], iv: &[u8; 16]) -> (stage: Result<
    Vec<u8>,
    PackError,
>)
    ensures
        match stage {
            Ok(bytes) => cbc_decrypted(key@, iv@, ciphertext@) == Some(bytes@),
            Err(e) => e == PackError::Decryption && cbc_decrypted(key@, iv@, ciphertext@) is None,
        },
        ciphertext@.len() % BLOCK_LEN as nat != 0 ==> stage is Err,
{
    decryption_result(cbc_decrypt(key, iv, ciphertext))
}

/// The whole transformation of a payload: compressed, then encrypted
/// with `keys`. It fails exactly where the compression does. `recover`
/// leads back to the payload.
pub fn transform(payload: &[u8], keys: &KeyMaterial) -> (stage: Result<Vec<u8>, PackError>)
    ensures
        match stage {
            Ok(data) => {
                &&& transformed(keys.key@, keys.iv@, payload@) == Some(data@)
                &&& recovered(keys.key@, keys.iv@, data@) == Some(payload@)
                &&& data@.len() % BLOCK_LEN as nat == 0
                &&& data@.len() > 0
            },
            Err(e) => {
                &&& e == PackError::Compression
                &&& zlib_compressed(payload@) is None
                &&& transformed(keys.key@, keys.iv@, payload@) is None
            },
        },
{
    match compress_data(payload) {
        Ok(stream) => Ok(encrypt_data(stream.as_slice(), &keys.key, &keys.iv)),
        Err(e) => Err(e),
    }
}

/// The way back from transformed data to the payload: decrypted with
/// `keys`, then expanded. It succeeds exactly where both steps do.
pub fn recover(data: &[u8], keys: &KeyMaterial) -> (stage: Result<Vec<u8>, PackError>)
    ensures
        match stage {
            Ok(payload) => recovered(keys.key@, keys.iv@, data@) == Some(payload@),
            Err(e) => {
                &&& recovered(keys.key@, keys.iv@, data@) is None
                &&& e == PackError::Decryption <==> cbc_decrypted(keys.key@, keys.iv@, data@) is None
                &&& e == PackError::Decryption || e == PackError::Decompression
            },
        },
{
    match decrypt_data(data, &keys.key, &keys.iv) {
        Ok(stream) => decompress_data(stream.as_slice()),
        Err(e) => Err(e),
    }
}

/// A padded length is a whole number of blocks and longer than what was
/// padded, by at most one block.
pub proof fn lemma_padded_len(n: nat)
    ensures
        padded_len(n) % BLOCK_LEN as nat == 0,
        n < padded_len(n) <= n + BLOCK_LEN,
{
}

/// Where each stage can be undone, the whole can: when expanding `stream`
/// gives `payload`, and decrypting `data` gives `stream`, the way back from
/// `data` ends at `payload`.
pub proof fn lemma_round_trips_compose(
    key: Seq<u8>,
    iv: Seq<u8>,
    payload: Seq<u8>,
    stream: Seq<u8>,
    data: Seq<u8>,
)
    requires
        zlib_expanded(stream) == Some(payload),
        cbc_decrypted(key, iv, data) == Some(stream),
    ensures
        recovered(key, iv, data) == Some(payload),
{
}

} // verus!
