//! The stream bridge: the contract a host-supplied seekable byte source
//! obeys, an in-memory implementation of it, and the call-table wrapper the
//! foreign side drives with raw whence codes.
use vstd::prelude::*;

verus! {

/// Where a seek offset is measured from.
#[derive(Clone, Copy, Debug, PartialEq, Eq, Structural)]
pub enum Whence {
    Start,
    Current,
    End,
}

/// A stream operation that could not be carried out: a write or truncate on a
/// read-only stream, or a seek outside the stream.
#[derive(Clone, Copy, Debug, PartialEq, Eq, Structural)]
pub enum StreamError {
    ReadOnly,
    OutOfBounds,
}

/// The position a seek aims at, measured from the chosen origin.
pub open spec fn seek_target(cursor: int, len: int, offset: int, whence: Whence) -> int {
    match whence {
        Whence::Start => offset,
        Whence::Current => cursor + offset,
        Whence::End => len + offset,
    }
}

/// The contract a host-supplied stream obeys: a byte sequence, a cursor, a
/// read-only marker and a name.  Reading never changes the bytes or the
/// length; writing and truncating fail on a read-only stream; seeking moves
/// only the cursor.
pub trait IOStream: Sized {
    /// The bytes the stream holds.
    spec fn contents(&self) -> Seq<u8>;

    /// The cursor position the next read or write starts at.
    spec fn cursor(&self) -> int;

    /// Whether the stream rejects writes.
    spec fn readonly(&self) -> bool;

    /// The identifier the stream reports.
    spec fn name_spec(&self) -> Seq<char>;

    /// The cursor stays within the stream and the length fits the signed
    /// 64-bit offsets of the call table.
    open spec fn inv(&self) -> bool {
        0 <= self.cursor() <= self.contents().len() && self.contents().len() <= i64::MAX as int
    }

    /// The identifier of the stream.
    fn name(&self) -> (r: String)
        ensures
            r@ == self.name_spec(),
    ;

    /// Reads up to `count` bytes at the cursor: exactly the bytes the
    /// underlying buffer holds there, advancing the cursor past them and
    /// changing nothing else.
    fn read_block(&mut self, count: usize) -> (r: Vec<u8>)
        requires
            old(self).inv(),
        ensures
            final(self).inv(),
            final(self).contents() == old(self).contents(),
            final(self).readonly() == old(self).readonly(),
            final(self).name_spec() == old(self).name_spec(),
            r@ == old(self).contents().subrange(
                old(self).cursor(),
                vstd::math::min(old(self).cursor() + count as int, old(self).contents().len() as int),
            ),
            final(self).cursor() == old(self).cursor() + r@.len(),
    ;

    /// Writes the bytes at the cursor, overwriting and extending as needed;
    /// a read-only stream rejects the call and keeps everything unchanged.
    fn write_block(&mut self, data: &Vec<u8>) -> (r: Result<(), StreamError>)
        requires
            old(self).inv(),
            old(self).cursor() + data@.len() <= i64::MAX as int,
            old(self).cursor() + data@.len() <= usize::MAX as int,
        ensures
            final(self).inv(),
            final(self).readonly() == old(self).readonly(),
            final(self).name_spec() == old(self).name_spec(),
            old(self).readonly() ==> r == Err::<(), StreamError>(StreamError::ReadOnly)
                && final(self).contents() == old(self).contents() && final(self).cursor() == old(self).cursor(),
            !old(self).readonly() ==> r is Ok && final(self).contents() == old(self).contents().take(old(self).cursor()) + data@ + (if old(self).cursor() + data@.len()
                < old(self).contents().len() {
                old(self).contents().skip(old(self).cursor() + data@.len())
            } else {
                Seq::<u8>::empty()
            }) && final(self).cursor() == old(self).cursor() + data@.len(),
    ;

    /// Moves the cursor to the target position; a target outside the stream
    /// is rejected and moves nothing.
    fn seek(&mut self, offset: i64, whence: Whence) -> (r: Result<(), StreamError>)
        requires
            old(self).inv(),
        ensures
            final(self).inv(),
            final(self).contents() == old(self).contents(),
            final(self).readonly() == old(self).readonly(),
            final(self).name_spec() == old(self).name_spec(),
            0 <= seek_target(
                old(self).cursor(),
                old(self).contents().len() as int,
                offset as int,
                whence,
            ) <= old(self).contents().len() ==> r is Ok && final(self).cursor() == seek_target(
                old(self).cursor(),
                old(self).contents().len() as int,
                offset as int,
                whence,
            ),
            !(0 <= seek_target(
                old(self).cursor(),
                old(self).contents().len() as int,
                offset as int,
                whence,
            ) <= old(self).contents().len()) ==> r == Err::<(), StreamError>(
                StreamError::OutOfBounds,
            ) && final(self).cursor() == old(self).cursor(),
    ;

    /// Cuts the stream to the given length; a longer target leaves the bytes
    /// as they are; a read-only stream rejects the call.
    fn truncate(&mut self, length: i64) -> (r: Result<(), StreamError>)
        requires
            old(self).inv(),
        ensures
            final(self).inv(),
            final(self).readonly() == old(self).readonly(),
            final(self).name_spec() == old(self).name_spec(),
            old(self).readonly() ==> r == Err::<(), StreamError>(StreamError::ReadOnly)
                && final(self).contents() == old(self).contents() && final(self).cursor() == old(self).cursor(),
            !old(self).readonly() && length < 0 ==> r == Err::<(), StreamError>(
                StreamError::OutOfBounds,
            ) && final(self).contents() == old(self).contents() && final(self).cursor() == old(self).cursor(),
            !old(self).readonly() && length >= 0 ==> r is Ok && final(self).contents() == old(self).contents().take(
                vstd::math::min(length as int, old(self).contents().len() as int),
            ) && final(self).cursor() == vstd::math::min(
                old(self).cursor(),
                final(self).contents().len() as int,
            ),
    ;

    /// The cursor position.
    fn tell(&self) -> (r: i64)
        requires
            self.inv(),
        ensures
            r == self.cursor(),
    ;

    /// The total size of the stream; never changed by reads or seeks.
    fn length(&self) -> (r: i64)
        requires
            self.inv(),
        ensures
            r == self.contents().len(),
    ;

    /// Whether the stream rejects writes.
    fn is_readonly(&self) -> (r: bool)
        ensures
            r == self.readonly(),
    ;
}

/// The whence origin a raw call-table code stands for, if any.
pub open spec fn whence_of(code: i32) -> Option<Whence> {
    if code == 0 {
        Some(Whence::Start)
    } else if code == 1 {
        Some(Whence::Current)
    } else if code == 2 {
        Some(Whence::End)
    } else {
        None
    }
}

/// The call-table wrapper the foreign side invokes without knowledge of the
/// host's types: the same operations as the stream contract, with the seek
/// origin passed as a raw code.
#[derive(Debug)]
pub struct DynIOStream<T: IOStream> {
    pub inner: T,
}

impl<T: IOStream> DynIOStream<T> {
    pub fn new(inner: T) -> (r: DynIOStream<T>)
        ensures
            r.inner == inner,
    {
        DynIOStream { inner }
    }

    /// The identifier of the wrapped stream.
    pub fn name(&self) -> (r: String)
        ensures
            r@ == self.inner.name_spec(),
    {
        self.inner.name()
    }

    /// Reads up to `count` bytes at the cursor of the wrapped stream.
    pub fn read(&mut self, count: usize) -> (r: Vec<u8>)
        requires
            old(self).inner.inv(),
        ensures
            final(self).inner.inv(),
            final(self).inner.contents() == old(self).inner.contents(),
            final(self).inner.readonly() == old(self).inner.readonly(),
            r@ == old(self).inner.contents().subrange(
                old(self).inner.cursor(),
                vstd::math::min(
                    old(self).inner.cursor() + count as int,
                    old(self).inner.contents().len() as int,
                ),
            ),
            final(self).inner.cursor() == old(self).inner.cursor() + r@.len(),
    {
        self.inner.read_block(count)
    }

    /// Writes the bytes at the cursor of the wrapped stream; rejected on a
    /// read-only stream.
    pub fn write(&mut self, data: &Vec<u8>) -> (r: Result<(), StreamError>)
        requires
            old(self).inner.inv(),
            old(self).inner.cursor() + data@.len() <= i64::MAX as int,
            old(self).inner.cursor() + data@.len() <= usize::MAX as int,
        ensures
            final(self).inner.inv(),
            final(self).inner.readonly() == old(self).inner.readonly(),
            old(self).inner.readonly() ==> r == Err::<(), StreamError>(StreamError::ReadOnly)
                && final(self).inner.contents() == old(self).inner.contents() && final(self).inner.cursor() == old(self).inner.cursor(),
            !old(self).inner.readonly() ==> r is Ok && final(self).inner.contents() == old(self).inner.contents().take(old(self).inner.cursor()) + data@ + (if old(self).inner.cursor()
                + data@.len() < old(self).inner.contents().len() {
                old(self).inner.contents().skip(old(self).inner.cursor() + data@.len())
            } else {
                Seq::<u8>::empty()
            }) && final(self).inner.cursor() == old(self).inner.cursor() + data@.len(),
    {
        self.inner.write_block(data)
    }

    /// Moves the cursor of the wrapped stream, the origin given as a raw
    /// code; an unknown code or a target outside the stream is rejected.
    pub fn seek(&mut self, offset: i64, whence: i32) -> (r: Result<(), StreamError>)
        requires
            old(self).inner.inv(),
        ensures
            final(self).inner.inv(),
            final(self).inner.contents() == old(self).inner.contents(),
            final(self).inner.readonly() == old(self).inner.readonly(),
            whence_of(whence) is None ==> r == Err::<(), StreamError>(StreamError::OutOfBounds)
                && final(self).inner.cursor() == old(self).inner.cursor(),
            whence_of(whence) is Some ==> {
                let target = seek_target(
                    old(self).inner.cursor(),
                    old(self).inner.contents().len() as int,
                    offset as int,
                    whence_of(whence)->0,
                );
                &&& (0 <= target <= old(self).inner.contents().len() ==> r is Ok && final(self).inner.cursor() == target)
                &&& (!(0 <= target <= old(self).inner.contents().len()) ==> r == Err::<
                    (),
                    StreamError,
                >(StreamError::OutOfBounds) && final(self).inner.cursor() == old(self).inner.cursor())
            },
    {
        let w: Whence = match whence {
            0 => Whence::Start,
            1 => Whence::Current,
            2 => Whence::End,
            _ => {
                return Err(StreamError::OutOfBounds);
            },
        };
        self.inner.seek(offset, w)
    }

    /// Cuts the wrapped stream to the given length; rejected on a read-only
    /// stream.
    pub fn truncate(&mut self, length: i64) -> (r: Result<(), StreamError>)
        requires
            old(self).inner.inv(),
        ensures
            final(self).inner.inv(),
            final(self).inner.readonly() == old(self).inner.readonly(),
            old(self).inner.readonly() ==> r == Err::<(), StreamError>(StreamError::ReadOnly)
                && final(self).inner.contents() == old(self).inner.contents() && final(self).inner.cursor() == old(self).inner.cursor(),
            !old(self).inner.readonly() && length < 0 ==> r == Err::<(), StreamError>(
                StreamError::OutOfBounds,
            ) && final(self).inner.contents() == old(self).inner.contents() && final(self).inner.cursor() == old(self).inner.cursor(),
            !old(self).inner.readonly() && length >= 0 ==> r is Ok && final(self).inner.contents()
                == old(self).inner.contents().take(
                vstd::math::min(length as int, old(self).inner.contents().len() as int),
            ) && final(self).inner.cursor() == vstd::math::min(
                old(self).inner.cursor(),
                final(self).inner.contents().len() as int,
            ),
    {
        self.inner.truncate(length)
    }

    /// The cursor position of the wrapped stream.
    pub fn tell(&self) -> (r: i64)
        requires
            self.inner.inv(),
        ensures
            r == self.inner.cursor(),
    {
        self.inner.tell()
    }

    /// The total size of the wrapped stream.
    pub fn length(&self) -> (r: i64)
        requires
            self.inner.inv(),
        ensures
            r == self.inner.contents().len(),
    {
        self.inner.length()
    }

    /// Whether the wrapped stream rejects writes.
    pub fn is_readonly(&self) -> (r: bool)
        ensures
            r == self.inner.readonly(),
    {
        self.inner.is_readonly()
    }
}

/// An in-memory byte buffer behind the stream contract.
#[derive(Debug)]
pub struct MemoryStream {
    data: Vec<u8>,
    position: usize,
    read_only: bool,
    stream_name: String,
}

impl MemoryStream {
    /// A stream over the given bytes, cursor at the start.
    pub fn new(data: Vec<u8>, stream_name: String, read_only: bool) -> (r: MemoryStream)
        requires
            data@.len() <= i64::MAX as int,
        ensures
            r.inv(),
            r.contents() == data@,
            r.cursor() == 0,
            r.readonly() == read_only,
            r.name_spec() == stream_name@,
    {
        MemoryStream { data, position: 0, read_only, stream_name }
    }

    /// Hands the underlying bytes back, consuming the stream.
    pub fn into_inner(self) -> (r: Vec<u8>)
        ensures
            r@ == self.contents(),
    {
        self.data
    }
}

impl IOStream for MemoryStream {
    closed spec fn contents(&self) -> Seq<u8> {
        self.data@
    }

    closed spec fn cursor(&self) -> int {
        self.position as int
    }

    closed spec fn readonly(&self) -> bool {
        self.read_only
    }

    closed spec fn name_spec(&self) -> Seq<char> {
        self.stream_name@
    }

    fn name(&self) -> (r: String) {
        self.stream_name.clone()
    }

    fn read_block(&mut self, count: usize) -> (r: Vec<u8>) {
        let len: usize = self.data.len();
        let available: usize = len - self.position;
        let n: usize = if count < available {
            count
        } else {
            available
        };
        let mut r: Vec<u8> = Vec::new();
        let mut k: usize = 0;
        while k < n
            invariant
                self == old(self),
                self.position + n <= self.data@.len() <= usize::MAX,
                k <= n,
                r@.len() == k,
                forall|j: int| 0 <= j < k ==> r@[j] == self.data@[self.position + j],
            decreases n - k,
        {
            r.push(self.data[self.position + k]);
            k = k + 1;
        }
        self.position = self.position + n;
        proof {
            assert(r@ =~= old(self).contents().subrange(
                old(self).cursor(),
                vstd::math::min(
                    old(self).cursor() + count as int,
                    old(self).contents().len() as int,
                ),
            ));
        }
        r
    }

    fn write_block(&mut self, data: &Vec<u8>) -> (r: Result<(), StreamError>) {
        if self.read_only {
            return Err(StreamError::ReadOnly);
        }
        let mut out: Vec<u8> = Vec::new();
        let mut k: usize = 0;
        while k < self.position
            invariant
                self == old(self),
                self.position <= self.data@.len(),
                k <= self.position,
                out@.len() == k,
                forall|j: int| 0 <= j < k ==> out@[j] == self.data@[j],
            decreases self.position - k,
        {
            out.push(self.data[k]);
            k = k + 1;
        }
        let dlen: usize = data.len();
        let mut k2: usize = 0;
        while k2 < dlen
            invariant
                self == old(self),
                self.position <= self.data@.len(),
                dlen == data@.len(),
                k2 <= dlen,
                out@.len() == self.position + k2,
                forall|j: int| 0 <= j < self.position ==> out@[j] == self.data@[j],
                forall|j: int| 0 <= j < k2 ==> out@[self.position + j] == data@[j],
            decreases dlen - k2,
        {
            out.push(data[k2]);
            k2 = k2 + 1;
        }
        let tail_start: usize = self.position + dlen;
        let len: usize = self.data.len();
        let mut k3: usize = tail_start;
        while k3 < len
            invariant
                self == old(self),
                len == self.data@.len(),
                dlen == data@.len(),
                tail_start == self.position + dlen,
                tail_start <= k3 <= len || (tail_start > len && k3 == tail_start),
                out@.len() == k3,
                forall|j: int| 0 <= j < self.position ==> out@[j] == self.data@[j],
                forall|j: int| 0 <= j < dlen ==> out@[self.position + j] == data@[j],
                forall|j: int| tail_start <= j < k3 ==> out@[j] == self.data@[j],
            decreases len - k3,
        {
            out.push(self.data[k3]);
            k3 = k3 + 1;
        }
        self.data = out;
        self.position = tail_start;
        proof {
            assert(self.contents() =~= old(self).contents().take(old(self).cursor()) + data@ + (
            if old(self).cursor() + data@.len() < old(self).contents().len() {
                old(self).contents().skip(old(self).cursor() + data@.len())
            } else {
                Seq::<u8>::empty()
            }));
        }
        Ok(())
    }

    fn seek(&mut self, offset: i64, whence: Whence) -> (r: Result<(), StreamError>) {
        let len: usize = self.data.len();
        let target: i128 = match whence {
            Whence::Start => offset as i128,
            Whence::Current => self.position as i128 + offset as i128,
            Whence::End => len as i128 + offset as i128,
        };
        if target < 0 || target > len as i128 {
            return Err(StreamError::OutOfBounds);
        }
        self.position = target as usize;
        Ok(())
    }

    fn truncate(&mut self, length: i64) -> (r: Result<(), StreamError>) {
        if self.read_only {
            return Err(StreamError::ReadOnly);
        }
        if length < 0 {
            return Err(StreamError::OutOfBounds);
        }
        let len: usize = self.data.len();
        let keep: usize = if (length as u64) < (len as u64) {
            length as usize
        } else {
            len
        };
        self.data.truncate(keep);
        if self.position > keep {
            self.position = keep;
        }
        proof {
            assert(self.contents() =~= old(self).contents().take(
                vstd::math::min(length as int, old(self).contents().len() as int),
            ));
        }
        Ok(())
    }

    fn tell(&self) -> (r: i64) {
        self.position as i64
    }

    fn length(&self) -> (r: i64) {
        self.data.len() as i64
    }

    fn is_readonly(&self) -> (r: bool) {
        self.read_only
    }
}

} // verus!
