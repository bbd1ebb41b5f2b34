use vstd::prelude::*;
use vstd::utf8::{decode_utf8, valid_utf8};

verus! {

/// Largest frame that the cipher is handed: OpenSSL takes input lengths as a
/// C `int`, and the output buffer holds one more block.
pub const MAX_FRAME_LEN: usize = 0x7fff_0000;

#[verifier::external_type_specification]
#[verifier::external_body]
pub struct ExErrorStack(openssl::error::ErrorStack);

/// What OpenSSL's AES-128-ECB decryption with PKCS#7 padding removal gives
/// for `key` and `data`; `None` where it reports an error (the data is not
/// whole blocks, or the padding is not valid under that key).
pub uninterp spec fn aes_128_ecb_decrypt(key: Seq<u8>, data: Seq<u8>) -> Option<Seq<u8>>;

/// Relies on `openssl::symm::decrypt` with `Cipher::aes_128_ecb()` and no IV:
/// its result depends on the key and the data alone, and it fails exactly
/// where the padding check fails. The input length stays in a C `int`.
#[verifier::external_body]
pub(crate) fn decrypt_frame(key: &[u8; 16], data: &[u8]) -> (r: Result<
    Vec<u8>,
    openssl::error::ErrorStack,
>)
    requires
        data@.len() <= MAX_FRAME_LEN,
    ensures
        r is Ok <==> aes_128_ecb_decrypt(key@, data@) is Some,
        r is Ok ==> aes_128_ecb_decrypt(key@, data@) == Some(r->Ok_0@),
{
    openssl::symm::decrypt(openssl::symm::Cipher::aes_128_ecb(), key, None, data)
}

/// Relies on `String::from_utf8`: it succeeds exactly on valid UTF-8 and
/// then holds the characters that the bytes encode.
#[verifier::external_body]
pub(crate) fn utf8_string(bytes: Vec<u8>) -> (r: Option<String>)
    ensures
        r is Some <==> valid_utf8(bytes@),
        r is Some ==> r->0@ == decode_utf8(bytes@),
{
    String::from_utf8(bytes).ok()
}

} // verus!
