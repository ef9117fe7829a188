//! A forward-only, bounds-checked reader over a byte buffer. Every read
//! either succeeds and advances the position, or fails without moving it;
//! no read touches bytes past the buffer's end.

use vstd::prelude::*;
use crate::bytes::{spec_u32, spec_string, spec_mpint, u32_be};
use crate::error::Error;

verus! {

pub struct Cursor<'a> {
    pub s: &'a [u8],
    pub pos: usize,
}

impl<'a> Cursor<'a> {
    /// The position never runs past the buffer.
    pub open spec fn wf(&self) -> bool {
        self.pos <= self.s@.len()
    }

    /// The bytes the cursor walks over.
    pub open spec fn buf(&self) -> Seq<u8> {
        self.s@
    }

    /// The current read position.
    pub open spec fn at(&self) -> int {
        self.pos as int
    }

    /// A cursor over `s`, starting at `pos`.
    pub fn new(s: &'a [u8], pos: usize) -> (c: Cursor<'a>)
        requires
            pos <= s@.len(),
        ensures
            c.wf(),
            c.buf() == s@,
            c.at() == pos as int,
    {
        Cursor { s, pos }
    }

    /// Reads four bytes as a big-endian 32-bit integer.
    pub fn read_u32(&mut self) -> (r: Result<u32, Error>)
        requires
            old(self).wf(),
        ensures
            final(self).wf(),
            final(self).buf() == old(self).buf(),
            match spec_u32(old(self).buf(), old(self).at()) {
                Some(vp) => r == Ok::<u32, Error>(vp.0) && final(self).at() == vp.1,
                None => r == Err::<u32, Error>(Error::CouldNotReadKey)
                    && final(self).at() == old(self).at(),
            },
    {
        if self.s.len() - self.pos >= 4 {
            let b0 = self.s[self.pos];
            let b1 = self.s[self.pos + 1];
            let b2 = self.s[self.pos + 2];
            let b3 = self.s[self.pos + 3];
            let v: u32 = ((b0 as u32) << 24) | ((b1 as u32) << 16) | ((b2 as u32) << 8)
                | (b3 as u32);
            self.pos += 4;
            assert(v == u32_be(b0, b1, b2, b3));
            Ok(v)
        } else {
            Err(Error::CouldNotReadKey)
        }
    }

    /// Reads a length-prefixed byte string: a u32 length, then that many
    /// bytes, returned as a copy.
    pub fn read_string(&mut self) -> (r: Result<Vec<u8>, Error>)
        requires
            old(self).wf(),
        ensures
            final(self).wf(),
            final(self).buf() == old(self).buf(),
            match spec_string(old(self).buf(), old(self).at()) {
                Some(vp) => r matches Ok(v) && v@ == vp.0 && final(self).at() == vp.1,
                None => r matches Err(e) && e == Error::CouldNotReadKey
                    && final(self).at() == old(self).at(),
            },
    {
        let ghost start = self.at();
        let n32 = match self.read_u32() {
            Ok(v) => v,
            Err(e) => {
                return Err(e);
            },
        };
        let n = n32 as usize;
        if n <= self.s.len() - self.pos {
            let v = crate::bytes::sub_bytes(self.s, self.pos, self.pos + n);
            self.pos += n;
            Ok(v)
        } else {
            self.pos = self.pos - 4;
            assert(self.at() == start);
            Err(Error::CouldNotReadKey)
        }
    }

    /// Reads a length-prefixed multi-precision integer, dropping one
    /// leading zero byte if present (positive-sign normalization).
    pub fn read_mpint(&mut self) -> (r: Result<Vec<u8>, Error>)
        requires
            old(self).wf(),
        ensures
            final(self).wf(),
            final(self).buf() == old(self).buf(),
            match spec_mpint(old(self).buf(), old(self).at()) {
                Some(vp) => r matches Ok(v) && v@ == vp.0 && final(self).at() == vp.1,
                None => r matches Err(e) && e == Error::CouldNotReadKey
                    && final(self).at() == old(self).at(),
            },
    {
        let b = match self.read_string() {
            Ok(v) => v,
            Err(e) => {
                return Err(e);
            },
        };
        if b.len() > 0 && b[0] == 0 {
            let v = crate::bytes::sub_bytes(b.as_slice(), 1, b.len());
            Ok(v)
        } else {
            Ok(b)
        }
    }
}

} // verus!
