use vstd::prelude::*;

use crate::error::ParseError;

verus! {

/// The integer stored little-endian in `s[i]`, `s[i + 1]`.
pub open spec fn le_u16_at(s: Seq<u8>, i: int) -> int {
    s[i] + 256 * s[i + 1]
}

/// The integer stored big-endian in `s[i]`, `s[i + 1]`.
pub open spec fn be_u16_at(s: Seq<u8>, i: int) -> int {
    256 * s[i] + s[i + 1]
}

/// The integer stored little-endian in `s[i]` to `s[i + 3]`.
pub open spec fn le_u32_at(s: Seq<u8>, i: int) -> int {
    s[i] + 256 * s[i + 1] + 65536 * s[i + 2] + 16777216 * s[i + 3]
}

/// How a tag check on the bytes from `pos` on ends: a differing byte among those
/// present is a mismatch; otherwise too few bytes is a shortfall.
pub open spec fn tag_outcome(s: Seq<u8>, pos: int, tag: Seq<u8>) -> Result<(), ParseError> {
    if exists|k: int| 0 <= k < tag.len() && pos + k < s.len() && s[pos + k] != tag[k] {
        Err(ParseError::MagicMismatch)
    } else if s.len() - pos < tag.len() {
        Err(ParseError::Incomplete)
    } else {
        Ok(())
    }
}

/// A read-only position in a byte buffer. It only moves forward.
pub struct Cursor<'a> {
    data: &'a [u8],
    pos: usize,
}

impl<'a> Cursor<'a> {
    /// The whole buffer.
    pub closed spec fn bytes(&self) -> Seq<u8> {
        self.data@
    }

    /// How many bytes have been consumed.
    pub closed spec fn pos(&self) -> int {
        self.pos as int
    }

    pub open spec fn wf(&self) -> bool {
        0 <= self.pos() <= self.bytes().len()
    }

    pub open spec fn left(&self) -> int {
        self.bytes().len() - self.pos()
    }

    /// What a failed step leaves: the buffer, with the position where it was.
    pub open spec fn unmoved(&self, other: &Self) -> bool {
        self.bytes() == other.bytes() && self.pos() == other.pos()
    }

    /// The step succeeded after consuming `n` bytes.
    pub open spec fn advanced(&self, other: &Self, n: int) -> bool {
        self.bytes() == other.bytes() && other.pos() == self.pos() + n
    }

    pub fn new(data: &'a [u8]) -> (c: Self)
        ensures
            c.bytes() == data@,
            c.pos() == 0,
    {
        Cursor { data, pos: 0 }
    }

    pub fn remaining(&self) -> (n: usize)
        requires
            self.wf(),
        ensures
            n == self.left(),
    {
        self.data.len() - self.pos
    }

    /// Consumes `n` bytes without looking at them.
    pub fn skip(&mut self, n: usize) -> (r: Result<(), ParseError>)
        requires
            old(self).wf(),
        ensures
            final(self).wf(),
            r is Ok <==> n <= old(self).left(),
            r is Ok ==> old(self).advanced(&*final(self), n as int),
            r is Err ==> r == Err::<(), ParseError>(ParseError::Incomplete) && old(self).unmoved(
                &*final(self),
            ),
    {
        if n > self.data.len() - self.pos {
            return Err(ParseError::Incomplete);
        }
        self.pos = self.pos + n;
        Ok(())
    }

    pub fn read_u8(&mut self) -> (r: Result<u8, ParseError>)
        requires
            old(self).wf(),
        ensures
            final(self).wf(),
            r is Ok <==> 1 <= old(self).left(),
            r is Ok ==> old(self).advanced(&*final(self), 1) && r->Ok_0 == old(self).bytes()[old(
                self,
            ).pos()],
            r is Err ==> r == Err::<u8, ParseError>(ParseError::Incomplete) && old(self).unmoved(
                &*final(self),
            ),
    {
        if self.pos >= self.data.len() {
            return Err(ParseError::Incomplete);
        }
        let b = self.data[self.pos];
        self.pos = self.pos + 1;
        Ok(b)
    }

    /// Reads a little-endian 16-bit value without consuming it.
    pub fn peek_u16_le(&self) -> (r: Result<u16, ParseError>)
        requires
            self.wf(),
        ensures
            r is Ok <==> 2 <= self.left(),
            r is Ok ==> r->Ok_0 == le_u16_at(self.bytes(), self.pos()),
            r is Err ==> r == Err::<u16, ParseError>(ParseError::Incomplete),
    {
        if self.data.len() - self.pos < 2 {
            return Err(ParseError::Incomplete);
        }
        Ok(self.data[self.pos] as u16 + 256 * (self.data[self.pos + 1] as u16))
    }

    pub fn read_u16_le(&mut self) -> (r: Result<u16, ParseError>)
        requires
            old(self).wf(),
        ensures
            final(self).wf(),
            r is Ok <==> 2 <= old(self).left(),
            r is Ok ==> old(self).advanced(&*final(self), 2) && r->Ok_0 == le_u16_at(
                old(self).bytes(),
                old(self).pos(),
            ),
            r is Err ==> r == Err::<u16, ParseError>(ParseError::Incomplete) && old(self).unmoved(
                &*final(self),
            ),
    {
        if self.data.len() - self.pos < 2 {
            return Err(ParseError::Incomplete);
        }
        let v = self.peek_u16_le()?;
        self.pos = self.pos + 2;
        Ok(v)
    }

    pub fn read_u16_be(&mut self) -> (r: Result<u16, ParseError>)
        requires
            old(self).wf(),
        ensures
            final(self).wf(),
            r is Ok <==> 2 <= old(self).left(),
            r is Ok ==> old(self).advanced(&*final(self), 2) && r->Ok_0 == be_u16_at(
                old(self).bytes(),
                old(self).pos(),
            ),
            r is Err ==> r == Err::<u16, ParseError>(ParseError::Incomplete) && old(self).unmoved(
                &*final(self),
            ),
    {
        if self.data.len() - self.pos < 2 {
            return Err(ParseError::Incomplete);
        }
        let v = 256 * (self.data[self.pos] as u16) + self.data[self.pos + 1] as u16;
        self.pos = self.pos + 2;
        Ok(v)
    }

    pub fn read_u32_le(&mut self) -> (r: Result<u32, ParseError>)
        requires
            old(self).wf(),
        ensures
            final(self).wf(),
            r is Ok <==> 4 <= old(self).left(),
            r is Ok ==> old(self).advanced(&*final(self), 4) && r->Ok_0 == le_u32_at(
                old(self).bytes(),
                old(self).pos(),
            ),
            r is Err ==> r == Err::<u32, ParseError>(ParseError::Incomplete) && old(self).unmoved(
                &*final(self),
            ),
    {
        if self.data.len() - self.pos < 4 {
            return Err(ParseError::Incomplete);
        }
        let p = self.pos;
        let v = self.data[p] as u32 + 256 * (self.data[p + 1] as u32) + 65536 * (
        self.data[p + 2] as u32) + 16777216 * (self.data[p + 3] as u32);
        self.pos = p + 4;
        Ok(v)
    }

    /// Consumes `N` bytes and returns a copy of them.
    pub fn take_array<const N: usize>(&mut self) -> (r: Result<[u8; N], ParseError>)
        requires
            old(self).wf(),
        ensures
            final(self).wf(),
            r is Ok <==> N <= old(self).left(),
            r is Ok ==> old(self).advanced(&*final(self), N as int) && r->Ok_0@ == old(
                self,
            ).bytes().subrange(old(self).pos(), old(self).pos() + N),
            r is Err ==> r == Err::<[u8; N], ParseError>(ParseError::Incomplete) && old(
                self,
            ).unmoved(&*final(self)),
    {
        if self.data.len() - self.pos < N {
            return Err(ParseError::Incomplete);
        }
        let start = self.pos;
        let mut out: [u8; N] = [0u8; N];
        let mut i: usize = 0;
        while i < N
            invariant
                start + N <= self.data@.len() <= usize::MAX,
                i <= N,
                out@.len() == N,
                forall|k: int| 0 <= k < i ==> out@[k] == self.data@[start + k],
            decreases N - i,
        {
            out[i] = self.data[start + i];
            i = i + 1;
        }
        self.pos = start + N;
        assert(out@ =~= self.data@.subrange(start as int, start + N));
        Ok(out)
    }

    /// Checks that the next bytes equal `tag` and consumes them. Among the bytes
    /// present, a differing one is a mismatch; a buffer that ends early is
    /// incomplete.
    pub fn expect_tag(&mut self, tag: &[u8]) -> (r: Result<(), ParseError>)
        requires
            old(self).wf(),
        ensures
            final(self).wf(),
            r == tag_outcome(old(self).bytes(), old(self).pos(), tag@),
            r is Ok ==> old(self).advanced(&*final(self), tag@.len() as int),
            r is Err ==> old(self).unmoved(&*final(self)),
    {
        let start = self.pos;
        let avail = self.data.len() - start;
        let mut k: usize = 0;
        while k < tag.len() && k < avail
            invariant
                start == self.pos,
                avail == self.data@.len() - start,
                self.data@.len() <= usize::MAX,
                k <= tag@.len(),
                k <= avail,
                forall|j: int| 0 <= j < k ==> self.data@[start + j] == tag@[j],
            decreases tag@.len() - k,
        {
            if self.data[start + k] != tag[k] {
                return Err(ParseError::MagicMismatch);
            }
            k = k + 1;
        }
        if avail < tag.len() {
            return Err(ParseError::Incomplete);
        }
        self.pos = start + tag.len();
        Ok(())
    }
}

} // verus!
