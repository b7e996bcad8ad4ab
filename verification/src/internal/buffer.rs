//! A fixed-capacity read-side buffering cursor.
//!
//! [`Buffer`] owns one contiguous byte arena and stages bytes pulled from a
//! [`ByteSource`] so that a consumer can repeatedly ask for "the next `n`
//! bytes" without copying or reallocating on every call.  Three indices are
//! tracked independently: `pos` (the read cursor), `end` (one past the last
//! byte of valid unread data) and `initialized` (one past the highest offset
//! a load has ever written).  The invariant
//! `pos <= end <= initialized <= capacity` holds after every operation, and
//! the readable window `[pos, end)` therefore never reaches past the
//! initialized boundary.

use vstd::prelude::*;

use vstd::math::max;
use vstd::math::min;
use vstd::slice::slice_subrange;
use crate::connector::error::ConnectorError;

verus! {

/// A byte-oriented data source a [`Buffer`] can load from.
///
/// The contract is the classic read contract: write up to `len` bytes into
/// `dest[offset..offset + len]`, touch nothing else, and report how many
/// bytes were written.  `Ok(0)` is the designated exhaustion signal, distinct
/// from an I/O failure; a call that returns `Ok(n)` has written exactly the
/// bytes `dest[offset..offset + n]` and nothing beyond them, and a call that
/// fails has written nothing at all.
///
/// On top of those guarantees, which hold of every source, each implementor
/// describes itself through [`ByteSource::read_post`]: the relation one
/// `read` call establishes between the source's states, the destination's
/// contents, the range it was handed, and the outcome.  The loading
/// operations of [`Buffer`] surface that relation, so what a caller knows of
/// a concrete source (say, that a drained [`MemorySource`] yields `Ok(0)`)
/// carries through to the buffer's state.
pub trait ByteSource: Sized {
    /// What one `read` call means for this source: `pre` and `post` are the
    /// source before and after, `dest_pre` and `dest_post` the destination's
    /// contents before and after, `offset` and `len` the range it was asked
    /// to write, and `r` the outcome it reported.  A source that promises
    /// nothing beyond the read contract leaves this at its default, which
    /// holds of every call.
    open spec fn read_post(
        pre: Self,
        post: Self,
        dest_pre: Seq<u8>,
        dest_post: Seq<u8>,
        offset: int,
        len: int,
        r: Result<usize, ConnectorError>,
    ) -> bool {
        true
    }

    /// Reads up to `len` bytes into `dest` starting at `offset`; returns how
    /// many bytes were written, `Ok(0)` meaning the source is exhausted.
    fn read(&mut self, dest: &mut Vec<u8>, offset: usize, len: usize) -> (r: Result<
        usize,
        ConnectorError,
    >)
        requires
            offset + len <= old(dest)@.len(),
        ensures
            final(dest)@.len() == old(dest)@.len(),
            forall|i: int|
                0 <= i < old(dest)@.len() && (i < offset || offset + len <= i)
                    ==> final(dest)@[i] == old(dest)@[i],
            (r matches Ok(n) ==> n <= len && (forall|i: int|
                0 <= i < old(dest)@.len() && (i < offset || offset + n <= i)
                    ==> final(dest)@[i] == old(dest)@[i])),
            r is Err ==> final(dest)@ == old(dest)@,
            Self::read_post(
                *old(self),
                *final(self),
                old(dest)@,
                final(dest)@,
                offset as int,
                len as int,
                r,
            ),
    ;
}

/// A buffer object for performing buffered reads from a data source.
#[derive(Debug)]
pub struct Buffer {
    /// The arena.  Allocated once at a fixed size; bytes at or beyond the
    /// initialized boundary hold a definite but meaningless fill value and
    /// are never exposed.
    buf: Vec<u8>,

    /// The current position in the buffer.  Anything between `pos` and `end`
    /// is data that has not been read.
    pos: usize,

    /// The amount of bytes in the buffer that currently have data.  Anything
    /// under `end`, after `pos`, is unread data.
    end: usize,

    /// The number of bytes in the buffer that have been written by some load
    /// since allocation.  Monotone for the buffer's whole lifetime; bytes
    /// between `end` and `initialized` are stale but defined, safe to skip
    /// over yet never current.
    initialized: usize,
}

impl Buffer {
    /// The read cursor: index of the next unread byte.
    pub closed spec fn spec_pos(self) -> int {
        self.pos as int
    }

    /// One past the last byte currently holding valid unread data.
    pub closed spec fn spec_end(self) -> int {
        self.end as int
    }

    /// One past the highest offset ever written by a load.
    pub closed spec fn spec_initialized(self) -> int {
        self.initialized as int
    }

    /// Total bytes of backing storage, fixed at creation.
    pub closed spec fn spec_capacity(self) -> int {
        self.buf@.len() as int
    }

    /// The whole arena, as a sequence of bytes.
    pub closed spec fn spec_data(self) -> Seq<u8> {
        self.buf@
    }

    /// The window of current unread data: the byte range `[pos, end)`.
    pub open spec fn window(self) -> Seq<u8> {
        self.spec_data().subrange(self.spec_pos(), self.spec_end())
    }

    /// The tri-level bookkeeping invariant: the cursor never passes the
    /// fill boundary, the fill boundary never passes the initialized
    /// boundary, and the initialized boundary never passes the capacity —
    /// which is exactly the arena's size, fixed at creation.
    pub open spec fn inv(self) -> bool {
        &&& 0 <= self.spec_pos() <= self.spec_end() <= self.spec_initialized()
            <= self.spec_capacity()
        &&& self.spec_data().len() == self.spec_capacity()
    }

    /// The state this buffer takes when its window is discarded: cursor and
    /// fill boundary go back to zero; the arena and the initialized boundary
    /// are untouched.
    pub closed spec fn spec_discard(self) -> Buffer {
        Buffer { pos: 0, end: 0, ..self }
    }

    /// Allocates a buffer of `capacity` bytes with an empty window and
    /// nothing initialized.  The arena's contents carry no meaning until a
    /// load writes them.
    pub fn new(capacity: usize) -> (r: Buffer)
        ensures
            r.inv(),
            r.spec_pos() == 0,
            r.spec_end() == 0,
            r.spec_initialized() == 0,
            r.spec_capacity() == capacity,
    {
        Buffer { buf: vec![0u8; capacity], pos: 0, end: 0, initialized: 0 }
    }

    /// Returns the slice of the buffer containing unread data.
    ///
    /// Every byte of the returned slice was written by a prior successful
    /// load: the window ends at `end`, which never passes the initialized
    /// boundary.  Calling this never advances any index.
    pub fn buffer(&self) -> (r: &[u8])
        requires
            self.inv(),
        ensures
            r@ == self.window(),
    {
        slice_subrange(self.buf.as_slice(), self.pos, self.end)
    }

    /// Get the current cursor position.
    pub fn pos(&self) -> (r: usize)
        ensures
            r == self.spec_pos(),
    {
        self.pos
    }

    /// Get the amount of filled bytes.
    pub fn end(&self) -> (r: usize)
        ensures
            r == self.spec_end(),
    {
        self.end
    }

    /// Get the amount of initialized bytes.
    pub fn initialized(&self) -> (r: usize)
        ensures
            r == self.spec_initialized(),
    {
        self.initialized
    }

    /// Gets the length of the internal buffer.  This includes initialized
    /// bytes as well as bytes no load has written yet.
    pub fn len(&self) -> (r: usize)
        ensures
            r == self.spec_capacity(),
    {
        self.buf.len()
    }

    /// Sets the cursor position and the number of bytes filled back to 0.
    ///
    /// This doesn't empty the buffer; it only resets the cursor positions,
    /// which enables read operations to overwrite unneeded bytes.  The
    /// initialized boundary is untouched.
    pub fn discard_buffer(&mut self)
        ensures
            *final(self) == old(self).spec_discard(),
            final(self).spec_pos() == 0,
            final(self).spec_end() == 0,
            final(self).spec_initialized() == old(self).spec_initialized(),
            final(self).spec_capacity() == old(self).spec_capacity(),
            final(self).spec_data() == old(self).spec_data(),
            old(self).inv() ==> final(self).inv(),
    {
        self.pos = 0;
        self.end = 0;
    }

    /// Sets the cursor position either to `pos + amount` or to `end`,
    /// whichever is smaller: the safe forward seek, which can never move
    /// past valid data.
    pub fn reposition(&mut self, amount: usize)
        requires
            old(self).inv(),
        ensures
            final(self).inv(),
            final(self).spec_pos() == min(old(self).spec_pos() + amount, old(self).spec_end()),
            final(self).spec_end() == old(self).spec_end(),
            final(self).spec_initialized() == old(self).spec_initialized(),
            final(self).spec_capacity() == old(self).spec_capacity(),
            final(self).spec_data() == old(self).spec_data(),
            final(self).window() == old(self).window().skip(
                final(self).spec_pos() - old(self).spec_pos(),
            ),
    {
        if amount <= self.end - self.pos {
            self.pos = self.pos + amount;
        } else {
            self.pos = self.end;
        }
        proof {
            assert(self.window() =~= old(self).window().skip(
                self.spec_pos() - old(self).spec_pos(),
            ));
        }
    }

    /// The checked counterpart of [`Buffer::reposition`]: succeeds, moving
    /// the cursor forward by exactly `amount`, only when `pos + amount`
    /// stays within the filled region; otherwise leaves the cursor where it
    /// was and reports failure.
    pub fn try_reposition(&mut self, amount: usize) -> (r: Option<()>)
        requires
            old(self).inv(),
        ensures
            final(self).inv(),
            r is Some <==> old(self).spec_pos() + amount <= old(self).spec_end(),
            r is Some ==> final(self).spec_pos() == old(self).spec_pos() + amount,
            r is None ==> *final(self) == *old(self),
            final(self).spec_end() == old(self).spec_end(),
            final(self).spec_initialized() == old(self).spec_initialized(),
            final(self).spec_capacity() == old(self).spec_capacity(),
            final(self).spec_data() == old(self).spec_data(),
            r is Some ==> final(self).window() == old(self).window().skip(amount as int),
    {
        if amount <= self.end - self.pos {
            self.pos = self.pos + amount;
            proof {
                assert(self.window() =~= old(self).window().skip(amount as int));
            }
            Some(())
        } else {
            None
        }
    }

    /// Moves the cursor backwards by the specified amount, saturating at
    /// `0`: if `amount` exceeds the cursor position, the cursor lands on the
    /// start of the buffer.
    pub fn unposition(&mut self, amount: usize)
        requires
            old(self).inv(),
        ensures
            final(self).inv(),
            final(self).spec_pos() == max(old(self).spec_pos() - amount, 0),
            final(self).spec_end() == old(self).spec_end(),
            final(self).spec_initialized() == old(self).spec_initialized(),
            final(self).spec_capacity() == old(self).spec_capacity(),
            final(self).spec_data() == old(self).spec_data(),
    {
        self.pos = self.pos.saturating_sub(amount);
    }

    /// The checked counterpart of [`Buffer::unposition`]: succeeds, moving
    /// the cursor backwards by exactly `amount`, only when `amount` does not
    /// exceed the cursor position; otherwise leaves the cursor where it was
    /// and reports failure.
    pub fn try_unposition(&mut self, amount: usize) -> (r: Option<()>)
        requires
            old(self).inv(),
        ensures
            final(self).inv(),
            r is Some <==> amount <= old(self).spec_pos(),
            r is Some ==> final(self).spec_pos() == old(self).spec_pos() - amount,
            r is None ==> *final(self) == *old(self),
            final(self).spec_end() == old(self).spec_end(),
            final(self).spec_initialized() == old(self).spec_initialized(),
            final(self).spec_capacity() == old(self).spec_capacity(),
            final(self).spec_data() == old(self).spec_data(),
    {
        if amount <= self.pos {
            self.pos = self.pos - amount;
            Some(())
        } else {
            None
        }
    }

    /// If at least `amount` unread bytes are available, calls `f` once with
    /// the first `amount` bytes of the window, advances the cursor past
    /// them, and returns `Some(())`.  Otherwise `f` is never called, no
    /// index moves, and the result is `None`.
    pub fn consume<F: FnMut(&[u8])>(&mut self, amount: usize, mut f: F) -> (r: Option<()>)
        requires
            old(self).inv(),
            amount <= old(self).window().len() ==> forall|s: &[u8]|
                s@ == old(self).window().take(amount as int) ==> call_requires(f, (s,)),
        ensures
            final(self).inv(),
            r is Some <==> amount <= old(self).window().len(),
            r is Some ==> final(self).spec_pos() == old(self).spec_pos() + amount,
            r is Some ==> final(self).window() == old(self).window().skip(amount as int),
            r is Some ==> exists|s: &[u8]|
                s@ == old(self).window().take(amount as int) && call_ensures(f, (s,), ()),
            r is None ==> *final(self) == *old(self),
            final(self).spec_end() == old(self).spec_end(),
            final(self).spec_initialized() == old(self).spec_initialized(),
            final(self).spec_capacity() == old(self).spec_capacity(),
            final(self).spec_data() == old(self).spec_data(),
    {
        if amount <= self.end - self.pos {
            let slice = slice_subrange(self.buf.as_slice(), self.pos, self.pos + amount);
            proof {
                assert(slice@ =~= old(self).window().take(amount as int));
            }
            f(slice);
            self.pos = self.pos + amount;
            proof {
                assert(self.window() =~= old(self).window().skip(amount as int));
            }
            Some(())
        } else {
            None
        }
    }

    /// Reads some data into this buffer from a [`ByteSource`], appending it
    /// after the existing unread window, and returns the amount of bytes
    /// read.
    ///
    /// The source is handed the free region `[end, capacity)`; on success
    /// with `n > 0` bytes written, the fill boundary advances by `n` and the
    /// initialized boundary is raised to the new fill boundary where that
    /// exceeds it.  `Ok(0)` is the exhaustion signal and leaves the buffer
    /// exactly as it was; an I/O failure is propagated unchanged, with no
    /// index moved and the arena untouched.  What the outcome says about the
    /// source itself is surfaced
    /// through [`ByteSource::read_post`], so a caller who knows the source
    /// knows the count.
    pub fn read_some<R: ByteSource>(&mut self, reader: &mut R) -> (r: Result<
        usize,
        ConnectorError,
    >)
        requires
            old(self).inv(),
        ensures
            final(self).inv(),
            final(self).spec_pos() == old(self).spec_pos(),
            final(self).spec_capacity() == old(self).spec_capacity(),
            final(self).spec_initialized() >= old(self).spec_initialized(),
            R::read_post(
                *old(reader),
                *final(reader),
                old(self).spec_data(),
                final(self).spec_data(),
                old(self).spec_end(),
                old(self).spec_capacity() - old(self).spec_end(),
                r,
            ),
            match r {
                Ok(n) => {
                    &&& n <= old(self).spec_capacity() - old(self).spec_end()
                    &&& final(self).spec_end() == old(self).spec_end() + n
                    &&& final(self).spec_initialized() == max(
                        old(self).spec_initialized(),
                        old(self).spec_end() + n,
                    )
                    &&& n == 0 ==> final(self).spec_data() == old(self).spec_data()
                    &&& forall|i: int|
                        0 <= i < old(self).spec_capacity() && (i < old(self).spec_end()
                            || old(self).spec_end() + n <= i) ==> final(self).spec_data()[i]
                            == old(self).spec_data()[i]
                    &&& final(self).window().len() == old(self).window().len() + n
                    &&& final(self).window().take(old(self).window().len() as int) == old(self).window()
                },
                Err(_) => {
                    &&& final(self).spec_end() == old(self).spec_end()
                    &&& final(self).spec_initialized() == old(self).spec_initialized()
                    &&& final(self).spec_data() == old(self).spec_data()
                    &&& final(self).window() == old(self).window()
                },
            },
    {
        let len = self.buf.len() - self.end;
        let res = reader.read(&mut self.buf, self.end, len);
        match res {
            Err(e) => Err(e),
            Ok(bytes) => {
                if bytes == 0 {
                    proof {
                        assert(self.spec_data() =~= old(self).spec_data());
                        assert(self.window() =~= old(self).window());
                    }
                    return Ok(0);
                }
                self.end = self.end + bytes;
                if self.end > self.initialized {
                    self.initialized = self.end;
                }
                proof {
                    assert(self.window().take(old(self).window().len() as int) =~= old(self).window());
                }
                Ok(bytes)
            },
        }
    }

    /// Resets the cursor position back to 0, reads as much data from the
    /// source as fits, and sets the fill boundary to the length of the read
    /// data: the start-over variant, distinct from [`Buffer::read_some`]'s
    /// append semantics.
    ///
    /// The source is handed the whole arena `[0, capacity)`.  `Ok(0)` is the
    /// exhaustion signal and leaves the buffer exactly as it was; an I/O
    /// failure is propagated unchanged, with the fill and initialized
    /// boundaries and the arena untouched, while the cursor reset that
    /// opens a refill survives it: after a failed refill the position is 0.
    /// As with [`Buffer::read_some`], the outcome is tied to the source
    /// through [`ByteSource::read_post`].
    pub fn fill_buf<R: ByteSource>(&mut self, reader: &mut R) -> (r: Result<
        usize,
        ConnectorError,
    >)
        requires
            old(self).inv(),
        ensures
            final(self).inv(),
            final(self).spec_capacity() == old(self).spec_capacity(),
            final(self).spec_initialized() >= old(self).spec_initialized(),
            R::read_post(
                *old(reader),
                *final(reader),
                old(self).spec_data(),
                final(self).spec_data(),
                0,
                old(self).spec_capacity(),
                r,
            ),
            match r {
                Ok(n) => {
                    &&& n <= old(self).spec_capacity()
                    &&& n == 0 ==> final(self).spec_pos() == old(self).spec_pos() && final(self).spec_end() == old(self).spec_end() && final(self).spec_initialized() == old(self).spec_initialized() && final(self).spec_data() == old(self).spec_data()
                    &&& n > 0 ==> final(self).spec_pos() == 0 && final(self).spec_end() == n
                        && final(self).spec_initialized() == max(
                        old(self).spec_initialized(),
                        n as int,
                    ) && final(self).window() == final(self).spec_data().subrange(0, n as int)
                    &&& forall|i: int|
                        n <= i < old(self).spec_capacity() ==> final(self).spec_data()[i] == old(self).spec_data()[i]
                },
                Err(_) => {
                    &&& final(self).spec_pos() == 0
                    &&& final(self).spec_end() == old(self).spec_end()
                    &&& final(self).spec_initialized() == old(self).spec_initialized()
                    &&& final(self).spec_data() == old(self).spec_data()
                },
            },
    {
        let len = self.buf.len();
        let res = reader.read(&mut self.buf, 0, len);
        match res {
            Err(e) => {
                self.pos = 0;
                Err(e)
            },
            Ok(bytes) => {
                if bytes == 0 {
                    proof {
                        assert(self.spec_data() =~= old(self).spec_data());
                    }
                    return Ok(0);
                }
                self.pos = 0;
                self.end = bytes;
                if self.end > self.initialized {
                    self.initialized = self.end;
                }
                Ok(bytes)
            },
        }
    }
}

/// Law: the readable window never reaches past the initialized boundary, so
/// no operation can hand out a byte the arena has never been given.
pub proof fn lemma_window_within_initialized(b: Buffer)
    requires
        b.inv(),
    ensures
        b.spec_pos() + b.window().len() <= b.spec_initialized(),
{
}

/// Law: discarding the window twice in a row is the same as discarding it
/// once; the second discard finds the cursor and fill boundary already at
/// zero and changes nothing, the initialized boundary and the arena staying
/// as they were either way.
pub proof fn lemma_discard_idempotent(b: Buffer)
    ensures
        b.spec_discard().spec_discard() == b.spec_discard(),
{
}

/// An in-memory byte source, handy for debugging and for exercising a
/// [`Buffer`] without touching real I/O: it delivers the bytes it was
/// created over in order, then reports exhaustion.
pub struct MemorySource {
    /// The bytes this source serves.
    data: Vec<u8>,

    /// How many of them have been delivered so far.
    cursor: usize,
}

impl MemorySource {
    /// The bytes this source has not delivered yet.
    pub closed spec fn spec_remaining(self) -> Seq<u8> {
        self.data@.skip(self.cursor as int)
    }

    #[verifier::type_invariant]
    spec fn type_inv(self) -> bool {
        self.cursor <= self.data@.len()
    }

    /// A source that will deliver exactly the bytes of `data`, in order.
    pub fn new(data: Vec<u8>) -> (r: MemorySource)
        ensures
            r.spec_remaining() == data@,
    {
        let r = MemorySource { data, cursor: 0 };
        proof {
            assert(r.spec_remaining() =~= r.data@);
        }
        r
    }
}

impl ByteSource for MemorySource {
    /// A memory source never fails; it delivers exactly
    /// `min(len, remaining)` bytes, the front of what it still holds, into
    /// the start of the handed range, and keeps only the rest.
    open spec fn read_post(
        pre: Self,
        post: Self,
        dest_pre: Seq<u8>,
        dest_post: Seq<u8>,
        offset: int,
        len: int,
        r: Result<usize, ConnectorError>,
    ) -> bool {
        &&& r is Ok
        &&& (r matches Ok(n) ==> {
            &&& n == min(len, pre.spec_remaining().len() as int)
            &&& post.spec_remaining() == pre.spec_remaining().skip(n as int)
            &&& dest_post.subrange(offset, offset + n) == pre.spec_remaining().take(n as int)
        })
    }

    /// Copies the next `min(len, remaining)` undelivered bytes into
    /// `dest[offset..]` and advances past them; once nothing remains it
    /// returns `Ok(0)`, the exhaustion signal.  It never fails.
    fn read(&mut self, dest: &mut Vec<u8>, offset: usize, len: usize) -> (r: Result<
        usize,
        ConnectorError,
    >) {
        proof {
            use_type_invariant(&*self);
        }
        let data_len = self.data.len();
        let dest_len = dest.len();
        let remaining = data_len - self.cursor;
        let n = if len < remaining {
            len
        } else {
            remaining
        };
        let mut i: usize = 0;
        while i < n
            invariant
                i <= n,
                n <= len,
                data_len == self.data@.len(),
                dest_len == dest@.len(),
                self.cursor + n <= self.data@.len(),
                offset + n <= dest@.len(),
                dest@.len() == old(dest)@.len(),
                forall|j: int|
                    0 <= j < i ==> #[trigger] dest@[offset + j] == self.data@[self.cursor + j],
                forall|j: int|
                    0 <= j < dest@.len() && (j < offset || offset + i <= j) ==> dest@[j] == old(dest)@[j],
            decreases n - i,
        {
            let b = self.data[self.cursor + i];
            dest[offset + i] = b;
            i = i + 1;
        }
        proof {
            assert forall|k: int| 0 <= k < n implies dest@[offset + k] == old(
                self,
            ).spec_remaining()[k] by {
                assert(dest@[offset + k] == self.data@[self.cursor + k]);
            }
            assert(dest@.subrange(offset as int, offset + n) =~= old(self).spec_remaining().take(
                n as int,
            ));
        }
        self.cursor = self.cursor + n;
        proof {
            assert(self.spec_remaining() =~= old(self).spec_remaining().skip(n as int));
        }
        Ok(n)
    }
}

} // verus!
