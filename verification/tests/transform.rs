use polymorphic_packer::error::PackError;
use polymorphic_packer::keys::KeyMaterial;
use polymorphic_packer::transform::{
    compress_data, compression_result, decompress_data, decrypt_data, decryption_result,
    encrypt_data, expansion_result, recover, transform,
};

const KEY: [u8; 32] = [
    0x60, 0x3d, 0xeb, 0x10, 0x15, 0xca, 0x71, 0xbe, 0x2b, 0x73, 0xae, 0xf0, 0x85, 0x7d, 0x77, 0x81,
    0x1f, 0x35, 0x2c, 0x07, 0x3b, 0x61, 0x08, 0xd7, 0x2d, 0x98, 0x10, 0xa3, 0x09, 0x14, 0xdf, 0xf4,
];

const IV: [u8; 16] = [
    0x00, 0x01, 0x02, 0x03, 0x04, 0x05, 0x06, 0x07, 0x08, 0x09, 0x0a, 0x0b, 0x0c, 0x0d, 0x0e, 0x0f,
];

const BLOCK: [u8; 16] = [
    0x6b, 0xc1, 0xbe, 0xe2, 0x2e, 0x40, 0x9f, 0x96, 0xe9, 0x3d, 0x7e, 0x11, 0x73, 0x93, 0x17, 0x2a,
];

const BLOCK_ENCRYPTED: [u8; 16] = [
    0xf5, 0x8c, 0x4c, 0x04, 0xd6, 0xe5, 0xf1, 0xba, 0x77, 0x9e, 0xab, 0xfb, 0x5f, 0x7b, 0xfb, 0xd6,
];

fn sample(len: usize) -> Vec<u8> {
    (0..len).map(|i| (i * 31 % 251) as u8).collect()
}

#[test]
fn encryption_matches_the_published_vector() {
    let cipher = encrypt_data(&BLOCK, &KEY, &IV);
    assert_eq!(cipher.len(), 32);
    assert_eq!(&cipher[..16], &BLOCK_ENCRYPTED[..]);
}

#[test]
fn ciphertext_is_padded_to_the_next_whole_block() {
    assert_eq!(encrypt_data(&[], &KEY, &IV).len(), 16);
    assert_eq!(encrypt_data(&sample(1), &KEY, &IV).len(), 16);
    assert_eq!(encrypt_data(&sample(15), &KEY, &IV).len(), 16);
    assert_eq!(encrypt_data(&sample(16), &KEY, &IV).len(), 32);
    assert_eq!(encrypt_data(&sample(17), &KEY, &IV).len(), 32);
    assert_eq!(encrypt_data(&sample(1000), &KEY, &IV).len(), 1008);
}

#[test]
fn decryption_undoes_encryption() {
    for len in [0usize, 1, 15, 16, 17, 255, 4096] {
        let plain = sample(len);
        let cipher = encrypt_data(&plain, &KEY, &IV);
        assert_ne!(cipher, plain);
        assert_eq!(decrypt_data(&cipher, &KEY, &IV), Ok(plain));
    }
}

#[test]
fn encryption_depends_on_key_and_vector() {
    let plain = sample(64);
    let other_key = [7u8; 32];
    let other_iv = [9u8; 16];
    let cipher = encrypt_data(&plain, &KEY, &IV);
    assert_ne!(cipher, encrypt_data(&plain, &other_key, &IV));
    assert_ne!(cipher, encrypt_data(&plain, &KEY, &other_iv));
    assert_eq!(cipher, encrypt_data(&plain, &KEY, &IV));
}

#[test]
fn decryption_refuses_a_broken_length() {
    let cipher = encrypt_data(&sample(40), &KEY, &IV);
    assert_eq!(decrypt_data(&cipher[..cipher.len() - 1], &KEY, &IV), Err(PackError::Decryption));
    assert_eq!(decrypt_data(&[1, 2, 3], &KEY, &IV), Err(PackError::Decryption));
}

#[test]
fn decryption_refuses_an_empty_input() {
    assert_eq!(decrypt_data(&[], &KEY, &IV), Err(PackError::Decryption));
}

#[test]
fn decryption_refuses_broken_padding() {
    let block = [0u8; 16];
    let mut found = false;
    for seed in 0u8..8 {
        let key = [seed; 32];
        if decrypt_data(&block, &key, &IV) == Err(PackError::Decryption) {
            found = true;
        }
    }
    assert!(found);
}

#[test]
fn compression_writes_a_zlib_stream_at_the_best_level() {
    let stream = compress_data(&sample(300)).unwrap();
    assert_eq!(&stream[..2], &[0x78, 0xda]);
}

#[test]
fn compression_shrinks_what_repeats() {
    let data = vec![0x41u8; 10_000];
    let stream = compress_data(&data).unwrap();
    assert!(stream.len() < 100);
    assert_eq!(decompress_data(&stream), Ok(data));
}

#[test]
fn expansion_undoes_compression() {
    for len in [0usize, 1, 2, 100, 5000] {
        let data = sample(len);
        let stream = compress_data(&data).unwrap();
        assert_eq!(decompress_data(&stream), Ok(data));
    }
}

#[test]
fn expansion_refuses_what_is_no_stream() {
    assert_eq!(decompress_data(&[0xff, 0xfe, 0xfd, 0xfc, 0xfb]), Err(PackError::Decompression));
}

#[test]
fn transformation_is_compression_then_encryption() {
    let keys = KeyMaterial { key: KEY, iv: IV };
    let payload = sample(2000);
    let stream = compress_data(&payload).unwrap();
    assert_eq!(transform(&payload, &keys), Ok(encrypt_data(&stream, &KEY, &IV)));
}

#[test]
fn recovery_undoes_the_transformation() {
    let keys = KeyMaterial { key: KEY, iv: IV };
    for len in [0usize, 1, 16, 1000, 70_000] {
        let payload = sample(len);
        let data = transform(&payload, &keys).unwrap();
        assert_eq!(data.len() % 16, 0);
        assert_eq!(recover(&data, &keys), Ok(payload));
    }
}

#[test]
fn recovery_says_which_step_failed() {
    let keys = KeyMaterial { key: KEY, iv: IV };
    assert_eq!(recover(&[1, 2, 3], &keys), Err(PackError::Decryption));
    let not_a_stream = encrypt_data(b"plain words, never compressed", &KEY, &IV);
    assert_eq!(recover(&not_a_stream, &keys), Err(PackError::Decompression));
}

#[test]
fn compression_of_small_inputs_is_exact() {
    assert_eq!(compress_data(&[]), Ok(vec![0x78, 0xda, 0x03, 0x00, 0x00, 0x00, 0x00, 0x01]));
    assert_eq!(
        compress_data(b"abc"),
        Ok(vec![0x78, 0xda, 0x4b, 0x4c, 0x4a, 0x06, 0x00, 0x02, 0x4d, 0x01, 0x27])
    );
}

#[test]
fn expansion_of_a_known_stream_is_exact() {
    let stream = [0x78, 0xda, 0x4b, 0x4c, 0x4a, 0x06, 0x00, 0x02, 0x4d, 0x01, 0x27];
    assert_eq!(decompress_data(&stream), Ok(b"abc".to_vec()));
}

#[test]
fn a_failure_of_the_encoder_is_a_failed_compression() {
    let failure = std::io::Error::new(std::io::ErrorKind::Other, "write failed");
    assert_eq!(compression_result(Err(failure)), Err(PackError::Compression));
    assert_eq!(compression_result(Ok(vec![1, 2, 3])), Ok(vec![1, 2, 3]));
}

#[test]
fn a_failure_of_the_decoder_is_a_failed_expansion() {
    let failure = std::io::Error::new(std::io::ErrorKind::InvalidInput, "corrupt stream");
    assert_eq!(expansion_result(Err(failure)), Err(PackError::Decompression));
    assert_eq!(expansion_result(Ok(vec![4, 5])), Ok(vec![4, 5]));
}

#[test]
fn a_failure_of_the_cipher_is_a_failed_decryption() {
    assert_eq!(decryption_result(Err(block_modes::BlockModeError)), Err(PackError::Decryption));
    assert_eq!(decryption_result(Ok(vec![6])), Ok(vec![6]));
}

#[test]
fn equal_data_gives_an_equal_stream() {
    for len in [0usize, 1, 100, 5000] {
        let data = sample(len);
        let copy = data.clone();
        assert_eq!(compress_data(&data), compress_data(&copy));
        assert_eq!(data, copy);
    }
}

#[test]
fn compression_gives_a_stream_for_inputs_of_every_kind() {
    assert!(compress_data(&[]).is_ok());
    assert!(compress_data(&[0u8]).is_ok());
    assert!(compress_data(&vec![0xffu8; 70_000]).is_ok());
    assert!(compress_data(&sample(300_000)).is_ok());
    let stream = compress_data(&sample(1000)).unwrap();
    assert!(compress_data(&stream).is_ok());
}
