use vstd::prelude::*;

verus! {

/// Why a login file could not be turned into text or into a section.
#[derive(Debug, Clone, Copy, PartialEq, Eq, Structural)]
pub enum LoginError {
    /// The header is shorter than 24 bytes, or a frame's length prefix runs
    /// past the end of the data.
    Format,
    /// The block cipher rejected a frame (bad padding: wrong key or
    /// corrupted ciphertext).
    Crypto,
    /// The decrypted bytes are not UTF-8.
    Encoding,
    /// The decoded text is not a well-formed INI document.
    Syntax,
    /// The requested section does not occur in the decoded text.
    SectionNotFound,
}

} // verus!
