//! The byte source that records are read from.
//!
//! A [`ByteSource`] holds the bytes that a transport delivered, in order, and
//! how the delivery ended: cleanly, or with a fault.  Reading moves a cursor
//! forward and never back.  A read that asks for more than is left takes what
//! is left and then meets the end of the delivery, so the source tells a clean
//! end of input apart from a read cut short and from a failed transport.

use crate::error::{ErrorModel, ParserError};
use crate::wire::{be_u16, be_u32, read_be_u16, read_be_u32};
use vstd::prelude::*;
use vstd::slice::*;

verus! {

/// The mathematical state of a byte source.
pub struct Stream {
    /// The bytes already read, oldest first.
    pub consumed: Seq<u8>,
    /// The bytes not yet read, next first.
    pub pending: Seq<u8>,
    /// The description of the transport fault that follows the last pending
    /// byte, or `None` where the input ends cleanly after it.
    pub fault: Option<Seq<char>>,
}

impl Stream {
    /// The state after reading `n` bytes, or all pending bytes if fewer than
    /// `n` are left.
    pub open spec fn advance(self, n: nat) -> Stream {
        let k = if n <= self.pending.len() {
            n as int
        } else {
            self.pending.len() as int
        };
        Stream {
            consumed: self.consumed + self.pending.take(k),
            pending: self.pending.skip(k),
            fault: self.fault,
        }
    }

    /// The bytes that a read bounded by `limit` collects: the next `limit`
    /// pending bytes, or all of them if fewer are left.
    pub open spec fn window(self, limit: nat) -> Seq<u8> {
        if limit <= self.pending.len() {
            self.pending.take(limit as int)
        } else {
            self.pending
        }
    }

    /// The state after reading every pending byte.
    pub open spec fn drain(self) -> Stream {
        self.advance(self.pending.len())
    }

    /// The number of bytes read so far.
    pub open spec fn position(self) -> nat {
        self.consumed.len()
    }

    /// The input has ended cleanly: nothing is pending and no fault follows.
    pub open spec fn at_clean_end(self) -> bool {
        self.pending.len() == 0 && self.fault is None
    }

    /// What a read reports when it runs past the last pending byte: the
    /// transport fault if there is one, and otherwise a truncation, with no
    /// evidence attached yet.
    pub open spec fn shortfall(self) -> ErrorModel {
        match self.fault {
            Some(why) => ErrorModel::IoError(why),
            None => ErrorModel::EofError(None),
        }
    }
}

/// Reading `a` bytes and then `b` bytes is reading `a + b` bytes.
pub proof fn lemma_advance_twice(s: Stream, a: nat, b: nat)
    ensures
        s.advance(a).advance(b) == s.advance(a + b),
{
    let once = s.advance(a);
    let twice = once.advance(b);
    let both = s.advance(a + b);
    assert(twice.pending =~= both.pending);
    assert(twice.consumed =~= both.consumed);
}

/// Reading no bytes changes nothing.
pub proof fn lemma_advance_zero(s: Stream)
    ensures
        s.advance(0) == s,
{
    assert(s.advance(0).pending =~= s.pending);
    assert(s.advance(0).consumed =~= s.consumed);
}

/// Reading as many bytes as are pending, or more, drains the source: nothing
/// is left pending, and the bytes read since the start are the ones that were
/// pending.
pub proof fn lemma_advance_past_end(s: Stream, n: nat)
    requires
        n >= s.pending.len(),
    ensures
        s.advance(n) == s.drain(),
        s.drain().pending == Seq::<u8>::empty(),
        s.drain().consumed == s.consumed + s.pending,
        s.drain().consumed.skip(s.consumed.len() as int) == s.pending,
        s.drain().fault == s.fault,
{
    assert(s.advance(n).pending =~= s.drain().pending);
    assert(s.advance(n).consumed =~= s.drain().consumed);
    assert(s.drain().pending =~= Seq::<u8>::empty());
    assert(s.drain().consumed =~= s.consumed + s.pending);
    assert(s.drain().consumed.skip(s.consumed.len() as int) =~= s.pending);
}

/// A sequential source of bytes with a read cursor.
pub struct ByteSource {
    data: Vec<u8>,
    cursor: usize,
    fault: Option<String>,
}

impl View for ByteSource {
    type V = Stream;

    closed spec fn view(&self) -> Stream {
        Stream {
            consumed: self.data@.take(self.cursor as int),
            pending: self.data@.skip(self.cursor as int),
            fault: match self.fault {
                Some(why) => Some(why@),
                None => None,
            },
        }
    }
}

impl ByteSource {
    #[verifier::type_invariant]
    spec fn cursor_in_bounds(&self) -> bool {
        self.cursor <= self.data@.len()
    }

    /// A source that delivers `data` and then ends cleanly.
    pub fn new(data: Vec<u8>) -> (source: ByteSource)
        ensures
            source@ == (Stream { consumed: Seq::empty(), pending: data@, fault: None }),
    {
        let source = ByteSource { data, cursor: 0, fault: None };
        assert(source@.consumed =~= Seq::empty());
        assert(source@.pending =~= data@);
        source
    }

    /// A source that delivers `data` and then fails with the fault that
    /// `fault` describes.
    pub fn interrupted(data: Vec<u8>, fault: String) -> (source: ByteSource)
        ensures
            source@ == (Stream { consumed: Seq::empty(), pending: data@, fault: Some(fault@) }),
    {
        let source = ByteSource { data, cursor: 0, fault: Some(fault) };
        assert(source@.consumed =~= Seq::empty());
        assert(source@.pending =~= data@);
        source
    }

    /// The number of bytes read so far.
    pub fn position(&self) -> (n: usize)
        ensures
            n == self@.position(),
    {
        proof {
            use_type_invariant(self);
        }
        self.cursor
    }

    /// The number of bytes not yet read.
    pub fn remaining(&self) -> (n: usize)
        ensures
            n == self@.pending.len(),
    {
        proof {
            use_type_invariant(self);
        }
        self.data.len() - self.cursor
    }

    /// Whether the input has ended cleanly: nothing is left to read and the
    /// transport did not fail.
    pub fn at_clean_end(&self) -> (b: bool)
        ensures
            b == self@.at_clean_end(),
    {
        proof {
            use_type_invariant(self);
        }
        self.cursor == self.data.len() && self.fault.is_none()
    }

    /// The error for a read that ran past the last pending byte.
    fn shortfall(&self) -> (e: ParserError)
        ensures
            e@ == self@.shortfall(),
    {
        match &self.fault {
            Some(why) => ParserError::IoError(why.clone()),
            None => ParserError::EofError(None),
        }
    }

    /// Reads a two-byte big-endian integer.
    ///
    /// With fewer than two bytes pending, takes them all and fails: with the
    /// transport fault if the source has one, and with a truncation otherwise.
    pub fn read_u16(&mut self) -> (res: Result<u16, ParserError>)
        ensures
            match res {
                Ok(value) => {
                    &&& old(self)@.pending.len() >= 2
                    &&& value == be_u16(old(self)@.pending)
                    &&& final(self)@ == old(self)@.advance(2)
                },
                Err(e) => {
                    &&& old(self)@.pending.len() < 2
                    &&& e@ == old(self)@.shortfall()
                    &&& final(self)@ == old(self)@.drain()
                },
            },
    {
        proof {
            use_type_invariant(&*self);
        }
        if self.data.len() - self.cursor < 2 {
            self.cursor = self.data.len();
            assert(self@.consumed =~= old(self)@.drain().consumed);
            assert(self@.pending =~= old(self)@.drain().pending);
            return Err(self.shortfall());
        }
        let field = slice_subrange(self.data.as_slice(), self.cursor, self.cursor + 2);
        let value = read_be_u16(field);
        self.cursor = self.cursor + 2;
        assert(self@.consumed =~= old(self)@.advance(2).consumed);
        assert(self@.pending =~= old(self)@.advance(2).pending);
        Ok(value)
    }

    /// Reads a four-byte big-endian integer.
    ///
    /// With fewer than four bytes pending, takes them all and fails: with the
    /// transport fault if the source has one, and with a truncation otherwise.
    pub fn read_u32(&mut self) -> (res: Result<u32, ParserError>)
        ensures
            match res {
                Ok(value) => {
                    &&& old(self)@.pending.len() >= 4
                    &&& value == be_u32(old(self)@.pending)
                    &&& final(self)@ == old(self)@.advance(4)
                },
                Err(e) => {
                    &&& old(self)@.pending.len() < 4
                    &&& e@ == old(self)@.shortfall()
                    &&& final(self)@ == old(self)@.drain()
                },
            },
    {
        proof {
            use_type_invariant(&*self);
        }
        if self.data.len() - self.cursor < 4 {
            self.cursor = self.data.len();
            assert(self@.consumed =~= old(self)@.drain().consumed);
            assert(self@.pending =~= old(self)@.drain().pending);
            return Err(self.shortfall());
        }
        let field = slice_subrange(self.data.as_slice(), self.cursor, self.cursor + 4);
        let value = read_be_u32(field);
        self.cursor = self.cursor + 4;
        assert(self@.consumed =~= old(self)@.advance(4).consumed);
        assert(self@.pending =~= old(self)@.advance(4).pending);
        Ok(value)
    }

    /// Reads a run of at most `limit` bytes, never past the `limit`-th.
    ///
    /// Where the input ends cleanly before `limit` bytes, the run stops short
    /// and holds the bytes that were left.  Where the transport fails before
    /// `limit` bytes, the read fails with that fault.
    pub fn read_up_to(&mut self, limit: usize) -> (res: Result<Vec<u8>, ParserError>)
        ensures
            final(self)@ == old(self)@.advance(limit as nat),
            match res {
                Ok(bytes) => {
                    &&& bytes@ == old(self)@.window(limit as nat)
                    &&& (old(self)@.pending.len() >= limit || old(self)@.fault is None)
                },
                Err(e) => {
                    &&& old(self)@.pending.len() < limit
                    &&& old(self)@.fault matches Some(why)
                    &&& e@ == ErrorModel::IoError(why)
                },
            },
    {
        proof {
            use_type_invariant(&*self);
        }
        let left = self.data.len() - self.cursor;
        if left < limit {
            let start = self.cursor;
            self.cursor = self.data.len();
            assert(self@.consumed =~= old(self)@.advance(limit as nat).consumed);
            assert(self@.pending =~= old(self)@.advance(limit as nat).pending);
            match &self.fault {
                Some(why) => Err(ParserError::IoError(why.clone())),
                None => {
                    let run = slice_subrange(self.data.as_slice(), start, self.cursor);
                    let bytes = slice_to_vec(run);
                    assert(bytes@ =~= old(self)@.window(limit as nat));
                    Ok(bytes)
                },
            }
        } else {
            let run = slice_subrange(self.data.as_slice(), self.cursor, self.cursor + limit);
            let bytes = slice_to_vec(run);
            self.cursor = self.cursor + limit;
            assert(self@.consumed =~= old(self)@.advance(limit as nat).consumed);
            assert(self@.pending =~= old(self)@.advance(limit as nat).pending);
            assert(bytes@ =~= old(self)@.window(limit as nat));
            Ok(bytes)
        }
    }

    /// A copy of the bytes read since the cursor stood at `mark`.
    pub fn consumed_since(&self, mark: usize) -> (bytes: Vec<u8>)
        requires
            mark <= self@.position(),
        ensures
            bytes@ == self@.consumed.skip(mark as int),
    {
        proof {
            use_type_invariant(self);
        }
        let run = slice_subrange(self.data.as_slice(), mark, self.cursor);
        let bytes = slice_to_vec(run);
        assert(bytes@ =~= self@.consumed.skip(mark as int));
        bytes
    }
}

} // verus!
