//! Reading of the encrypted login-path file that keeps named database
//! connection profiles: key folding, the walk over length-framed ciphertext,
//! per-frame AES-128-ECB decryption, and selection of one section of the
//! decoded text.
use vstd::prelude::*;

pub mod cipher;
pub mod decode;
pub mod error;
pub mod frame;
pub mod key;
pub mod path;
pub mod section;

pub use key::read_key;

verus! {

} // verus!
