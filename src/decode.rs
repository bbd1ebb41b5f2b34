use vstd::prelude::*;
use vstd::utf8::{decode_utf8, valid_utf8};

use crate::cipher::{aes_128_ecb_decrypt, decrypt_frame, utf8_string, MAX_FRAME_LEN};
use crate::error::LoginError;
use crate::frame::{frame_end, frame_fits, has_frame, le_u32, FrameCursor};
use crate::key::{folded_key, read_key, LOGIN_KEY_LENGTH, UNUSED_BUFFER_LENGTH};

verus! {

/// Offset of the first frame: the unused bytes and the key blob come before.
pub const HEADER_LENGTH: usize = 24;

/// Largest login file that is decoded: every frame then stays within what
/// the cipher accepts.
pub const MAX_FILE_LEN: usize = MAX_FRAME_LEN;

/// The plaintext of the frames from offset `pos` on, each decrypted under
/// `key` and concatenated in order; the first failure, in stream order, is
/// the result.
pub open spec fn decode_frames(key: Seq<u8>, data: Seq<u8>, pos: int) -> Result<
    Seq<u8>,
    LoginError,
>
    decreases data.len() - pos,
{
    if !has_frame(data, pos) {
        Ok(Seq::empty())
    } else if !frame_fits(data, pos) {
        Err(LoginError::Format)
    } else {
        match aes_128_ecb_decrypt(key, data.subrange(pos + 4, frame_end(data, pos))) {
            None => Err(LoginError::Crypto),
            Some(p) => match decode_frames(key, data, frame_end(data, pos)) {
                Ok(rest) => Ok(p + rest),
                Err(e) => Err(e),
            },
        }
    }
}

/// The key of a login file: its blob at `[4, 24)`, folded.
pub open spec fn file_key(raw: Seq<u8>) -> Seq<u8> {
    folded_key(raw.subrange(4, 24))
}

/// The plaintext bytes of a whole login file.
pub open spec fn decoded_bytes(raw: Seq<u8>) -> Result<Seq<u8>, LoginError> {
    if raw.len() < 24 {
        Err(LoginError::Format)
    } else {
        decode_frames(file_key(raw), raw, 24)
    }
}

/// The text of a whole login file.
pub open spec fn decoded_text(raw: Seq<u8>) -> Result<Seq<char>, LoginError> {
    match decoded_bytes(raw) {
        Err(e) => Err(e),
        Ok(b) => if valid_utf8(b) {
            Ok(decode_utf8(b))
        } else {
            Err(LoginError::Encoding)
        },
    }
}

/// Decrypts a login file's bytes: derives the key from the blob at `[4, 24)`
/// and decrypts each frame from offset 24 on, in order.
pub fn read_encrypted_file(encrypted: &[u8]) -> (r: Result<Vec<u8>, LoginError>)
    requires
        encrypted@.len() <= MAX_FILE_LEN,
    ensures
        match decoded_bytes(encrypted@) {
            Ok(b) => r is Ok && r->Ok_0@ == b,
            Err(e) => r == Err::<Vec<u8>, LoginError>(e),
        },
{
    if encrypted.len() < HEADER_LENGTH {
        return Err(LoginError::Format);
    }
    let mut blob: [u8; 20] = [0; 20];
    let mut i: usize = 0;
    while i < LOGIN_KEY_LENGTH
        invariant
            i <= 20,
            encrypted@.len() >= 24,
            forall|j: int| 0 <= j < i ==> blob@[j] == encrypted@[j + 4],
        decreases 20 - i,
    {
        blob[i] = encrypted[UNUSED_BUFFER_LENGTH + i];
        i = i + 1;
    }
    assert(blob@ =~= encrypted@.subrange(4, 24));
    let key = read_key(&blob);
    let mut cursor = FrameCursor::new(encrypted, HEADER_LENGTH);
    let mut plaintext: Vec<u8> = Vec::new();
    loop
        invariant
            cursor.wf(),
            cursor.data@ == encrypted@,
            encrypted@.len() <= MAX_FILE_LEN,
            key@ == file_key(encrypted@),
            decoded_bytes(encrypted@) == match decode_frames(key@, encrypted@, cursor.pos as int) {
                Ok(rest) => Ok(plaintext@ + rest),
                Err(e) => Err(e),
            },
        decreases encrypted@.len() - cursor.pos,
    {
        let ghost pos = cursor.pos as int;
        let ghost before = plaintext@;
        match cursor.next_frame() {
            Err(e) => {
                return Err(e);
            },
            Ok(None) => {
                assert(before + Seq::empty() =~= before);
                return Ok(plaintext);
            },
            Ok(Some((start, len))) => {
                let chunk = vstd::slice::slice_subrange(encrypted, start, start + len);
                match decrypt_frame(&key, chunk) {
                    Err(_) => {
                        return Err(LoginError::Crypto);
                    },
                    Ok(mut decrypted) => {
                        plaintext.append(&mut decrypted);
                        proof {
                            let d = aes_128_ecb_decrypt(key@, encrypted@.subrange(pos + 4, frame_end(encrypted@, pos)));
                            assert(d is Some);
                            match decode_frames(key@, encrypted@, cursor.pos as int) {
                                Ok(rest) => {
                                    assert(before + (d->0 + rest) =~= plaintext@ + rest);
                                },
                                Err(e) => {},
                            }
                        }
                    },
                }
            },
        }
    }
}

/// Decodes a login file to its text: the decrypted bytes, which must be
/// UTF-8.
pub fn decode_text(encrypted: &[u8]) -> (r: Result<String, LoginError>)
    requires
        encrypted@.len() <= MAX_FILE_LEN,
    ensures
        match decoded_text(encrypted@) {
            Ok(t) => r is Ok && r->Ok_0@ == t,
            Err(e) => r == Err::<String, LoginError>(e),
        },
{
    let bytes = read_encrypted_file(encrypted)?;
    match utf8_string(bytes) {
        Some(s) => Ok(s),
        None => Err(LoginError::Encoding),
    }
}

/// Decoding is a function of the bytes: two files with the same bytes
/// decode to the same text, or fail with the same error.
pub proof fn lemma_decode_deterministic(a: Seq<u8>, b: Seq<u8>)
    requires
        a == b,
    ensures
        decoded_bytes(a) == decoded_bytes(b),
        decoded_text(a) == decoded_text(b),
{
}

/// A file whose ciphertext region, after the 24-byte header, holds at most
/// four bytes decodes to empty plaintext, not to an error.
pub proof fn lemma_short_stream_is_empty(raw: Seq<u8>)
    requires
        24 <= raw.len() <= 28,
    ensures
        decoded_bytes(raw) == Ok::<Seq<u8>, LoginError>(Seq::empty()),
        decoded_text(raw) == Ok::<Seq<char>, LoginError>(Seq::empty()),
{
    assert(valid_utf8(Seq::<u8>::empty()));
    assert(decode_utf8(Seq::<u8>::empty()) =~= Seq::<char>::empty());
}

/// A file whose first frame's length prefix exceeds the bytes that follow
/// it is a `Format` error.
pub proof fn lemma_first_frame_overrun(raw: Seq<u8>)
    requires
        raw.len() > 28,
        le_u32(raw, 24) > raw.len() - 28,
    ensures
        decoded_bytes(raw) == Err::<Seq<u8>, LoginError>(LoginError::Format),
        decoded_text(raw) == Err::<Seq<char>, LoginError>(LoginError::Format),
{
}

/// A file whose first frame the cipher rejects under the folded key (as
/// with altered key material) is a `Crypto` error, never plaintext.
pub proof fn lemma_rejected_first_frame(raw: Seq<u8>)
    requires
        raw.len() > 28,
        frame_fits(raw, 24),
        aes_128_ecb_decrypt(file_key(raw), raw.subrange(28, frame_end(raw, 24))) is None,
    ensures
        decoded_bytes(raw) == Err::<Seq<u8>, LoginError>(LoginError::Crypto),
        decoded_text(raw) == Err::<Seq<char>, LoginError>(LoginError::Crypto),
{
}

} // verus!
