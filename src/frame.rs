use vstd::prelude::*;

use crate::error::LoginError;

verus! {

/// Number of bytes of the little-endian length prefix before each frame.
pub const CIPHER_STORE_LENGTH: usize = 4;

/// The unsigned little-endian integer held by `b[at..at + 4]`.
pub open spec fn le_u32(b: Seq<u8>, at: int) -> int {
    b[at] as int + 256 * (b[at + 1] as int) + 65536 * (b[at + 2] as int) + 16777216 * (
    b[at + 3] as int)
}

/// More than a length prefix is left after `pos`: the walk reads another frame.
pub open spec fn has_frame(data: Seq<u8>, pos: int) -> bool {
    data.len() - pos > 4
}

/// The frame's length prefix at `pos` fits in what follows it.
pub open spec fn frame_fits(data: Seq<u8>, pos: int) -> bool {
    le_u32(data, pos) <= data.len() - pos - 4
}

/// Offset just past the frame whose prefix stands at `pos`.
pub open spec fn frame_end(data: Seq<u8>, pos: int) -> int {
    pos + 4 + le_u32(data, pos)
}

/// A forward-only cursor over the length-framed ciphertext of a login file.
pub struct FrameCursor<'a> {
    pub data: &'a [u8],
    pub pos: usize,
}

impl<'a> FrameCursor<'a> {
    pub open spec fn wf(&self) -> bool {
        self.pos <= self.data@.len()
    }

    /// A cursor over `data` that starts at offset `start`.
    pub fn new(data: &'a [u8], start: usize) -> (r: Self)
        requires
            start <= data@.len(),
        ensures
            r.wf(),
            r.data@ == data@,
            r.pos == start,
    {
        FrameCursor { data, pos: start }
    }

    /// Reads the next frame and returns its offset and length in the data.
    ///
    /// With at most four bytes left the walk is over (`Ok(None)`; those bytes
    /// are padding). A length prefix larger than what follows it is a
    /// `Format` error.
    pub fn next_frame(&mut self) -> (r: Result<Option<(usize, usize)>, LoginError>)
        requires
            old(self).wf(),
        ensures
            final(self).wf(),
            final(self).data@ == old(self).data@,
            !has_frame(old(self).data@, old(self).pos as int) ==> r == Ok::<
                Option<(usize, usize)>,
                LoginError,
            >(None) && final(self).pos == old(self).pos,
            has_frame(old(self).data@, old(self).pos as int) && !frame_fits(
                old(self).data@,
                old(self).pos as int,
            ) ==> r == Err::<Option<(usize, usize)>, LoginError>(LoginError::Format)
                && final(self).pos == old(self).pos + 4,
            has_frame(old(self).data@, old(self).pos as int) && frame_fits(
                old(self).data@,
                old(self).pos as int,
            ) ==> r == Ok::<Option<(usize, usize)>, LoginError>(
                Some(((old(self).pos + 4) as usize, le_u32(old(self).data@, old(self).pos as int) as usize)),
            ) && final(self).pos == frame_end(old(self).data@, old(self).pos as int),
    {
        let remaining = self.data.len() - self.pos;
        if remaining <= CIPHER_STORE_LENGTH {
            return Ok(None);
        }
        let p = self.pos;
        let len: usize = self.data[p] as usize + 256 * (self.data[p + 1] as usize) + 65536 * (
        self.data[p + 2] as usize) + 16777216 * (self.data[p + 3] as usize);
        self.pos = p + CIPHER_STORE_LENGTH;
        if len > remaining - CIPHER_STORE_LENGTH {
            return Err(LoginError::Format);
        }
        self.pos = self.pos + len;
        Ok(Some((p + CIPHER_STORE_LENGTH, len)))
    }
}

} // verus!
