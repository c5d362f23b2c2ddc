//! The uniform byte-stream interface that every composed stream offers,
//! together with the in-memory transport the models are built from.

use vstd::prelude::*;
use vstd::pervasive::VecAdditionalExecFns;

use crate::errors::StreamError;

verus! {

/// How many bytes a read into a buffer of length `buf_len` returns when the
/// stream holds `contents` and stands at `pos`.
pub open spec fn read_len(contents: Seq<u8>, pos: int, buf_len: int) -> int {
    if buf_len <= contents.len() - pos {
        buf_len
    } else {
        contents.len() - pos
    }
}

/// The buffer after a read: its prefix is overwritten with the bytes at the
/// stream position, the rest keeps its previous padding.
pub open spec fn read_result(contents: Seq<u8>, pos: int, buf: Seq<u8>) -> Seq<u8> {
    Seq::new(
        buf.len(),
        |i: int|
            if i < read_len(contents, pos, buf.len() as int) {
                contents[pos + i]
            } else {
                buf[i]
            },
    )
}

/// The stream contents after writing `buf` at `pos`: bytes under the write
/// are overwritten and the contents grow if the write runs past their end.
pub open spec fn write_result(contents: Seq<u8>, pos: int, buf: Seq<u8>) -> Seq<u8> {
    if pos + buf.len() >= contents.len() {
        contents.take(pos) + buf
    } else {
        contents.take(pos) + buf + contents.skip(pos + buf.len() as int)
    }
}

/// The uniform byte-stream interface: positioned reads and writes over the
/// bytes the stream currently holds. Every layer of a composition offers it,
/// so a caller may drive I/O without knowing which topology was realized.
pub trait ByteStream: Sized {
    /// The bytes the stream currently holds.
    spec fn contents(&self) -> Seq<u8>;

    /// The current read/write position within the contents.
    spec fn position(&self) -> int;

    /// Well-formedness: the position never runs past the contents.
    spec fn inv(&self) -> bool;

    /// Fill the front of `buf` with the bytes at the current position and
    /// advance the position by the number of bytes read; the rest of `buf`
    /// keeps its previous padding.
    fn read(&mut self, buf: &mut Vec<u8>) -> (n: usize)
        requires
            old(self).inv(),
        ensures
            final(self).inv(),
            final(self).contents() == old(self).contents(),
            n as int == read_len(old(self).contents(), old(self).position(), old(buf)@.len() as int),
            final(self).position() == old(self).position() + n,
            final(buf)@ == read_result(old(self).contents(), old(self).position(), old(buf)@),
    ;

    /// Write all of `buf` at the current position, overwriting bytes under
    /// the write and growing the contents when it runs past their end, and
    /// advance the position past the written bytes.
    fn write(&mut self, buf: &Vec<u8>) -> (n: usize)
        requires
            old(self).inv(),
            old(self).position() + buf@.len() <= usize::MAX,
        ensures
            final(self).inv(),
            n == buf@.len(),
            final(self).contents() == write_result(old(self).contents(), old(self).position(), buf@),
            final(self).position() == old(self).position() + n,
    ;

    /// Flushing is a readiness signal only: it never changes the stream.
    fn flush(&mut self) -> (r: Result<(), StreamError>)
        requires
            old(self).inv(),
        ensures
            r is Ok,
            *final(self) == *old(self),
    ;
}

/// One forward or reverse transition performed over a transport, as recorded
/// in the transport's trace.
#[derive(Clone, Copy, Debug, PartialEq, Eq, Structural)]
pub struct TransitionEvent {
    /// The identifier of the transformer that performed the transition.
    pub id: u64,
    /// Whether the transition was a reverse (downgrade) one.
    pub reverse: bool,
}

/// The raw in-memory transport: a cursor over a byte buffer, as a stand-in
/// for a connected socket. Besides its bytes it keeps a trace of the
/// transitions that were performed over it, so that the order in which a
/// composition invoked its transformers stays observable afterwards.
pub struct CursorStream {
    /// The bytes the transport holds.
    pub data: Vec<u8>,
    /// The current read/write position.
    pub pos: usize,
    /// The transitions performed over this transport, oldest first.
    pub trace: Vec<TransitionEvent>,
}

impl CursorStream {
    /// A fresh transport holding `data`, positioned at its start.
    pub fn new(data: Vec<u8>) -> (r: Self)
        ensures
            r.data@ == data@,
            r.pos == 0,
            r.trace@ == Seq::<TransitionEvent>::empty(),
    {
        CursorStream { data, pos: 0, trace: Vec::new() }
    }

    /// Append one transition to the transport's trace.
    pub fn record(&mut self, id: u64, reverse: bool)
        ensures
            final(self).data@ == old(self).data@,
            final(self).pos == old(self).pos,
            final(self).trace@ == old(self).trace@.push(TransitionEvent { id, reverse }),
    {
        self.trace.push(TransitionEvent { id, reverse });
    }
}

impl ByteStream for CursorStream {
    open spec fn contents(&self) -> Seq<u8> {
        self.data@
    }

    open spec fn position(&self) -> int {
        self.pos as int
    }

    open spec fn inv(&self) -> bool {
        self.pos <= self.data@.len()
    }

    fn read(&mut self, buf: &mut Vec<u8>) -> (n: usize) {
        let avail: usize = self.data.len() - self.pos;
        let n: usize = if buf.len() < avail {
            buf.len()
        } else {
            avail
        };
        let mut i: usize = 0;
        while i < n
            invariant
                i <= n,
                n as int == read_len(self.data@, self.pos as int, old(buf)@.len() as int),
                self == old(self),
                self.pos + n <= self.data@.len(),
                self.pos + n <= usize::MAX,
                n <= buf@.len(),
                buf@.len() == old(buf)@.len(),
                forall|j: int| 0 <= j < i ==> buf@[j] == self.data@[self.pos + j],
                forall|j: int| i <= j < buf@.len() ==> buf@[j] == old(buf)@[j],
            decreases n - i,
        {
            buf.set(i, self.data[self.pos + i]);
            i = i + 1;
        }
        self.pos = self.pos + n;
        proof {
            assert(buf@ =~= read_result(old(self).contents(), old(self).position(), old(buf)@));
        }
        n
    }

    fn write(&mut self, buf: &Vec<u8>) -> (n: usize) {
        let start: usize = self.pos;
        let mut i: usize = 0;
        while i < buf.len()
            invariant
                i <= buf@.len(),
                start == old(self).pos,
                start + buf@.len() <= usize::MAX,
                self.pos == old(self).pos,
                self.trace@ == old(self).trace@,
                start + i <= self.data@.len(),
                self.data@.len() == if old(self).data@.len() >= start + i {
                    old(self).data@.len() as int
                } else {
                    start + i
                },
                forall|j: int| 0 <= j < start ==> self.data@[j] == old(self).data@[j],
                forall|j: int| start <= j < start + i ==> self.data@[j] == buf@[j - start],
                forall|j: int|
                    start + i <= j < old(self).data@.len() ==> self.data@[j] == old(self).data@[j],
            decreases buf@.len() - i,
        {
            if start + i < self.data.len() {
                self.data.set(start + i, buf[i]);
            } else {
                self.data.push(buf[i]);
            }
            i = i + 1;
        }
        self.pos = start + buf.len();
        proof {
            assert(self.data@ =~= write_result(old(self).contents(), old(self).position(), buf@));
        }
        buf.len()
    }

    fn flush(&mut self) -> (r: Result<(), StreamError>) {
        Ok(())
    }
}

/// The transformed representation of a transport: the transport itself,
/// wrapped in the layers that forward transitions have put around it, the
/// innermost first. Reads and writes pass through the layers unchanged, so
/// byte I/O against a layered stream behaves exactly like byte I/O against
/// the transport it carries.
pub struct LayeredStream {
    /// The transport the layers wrap.
    pub inner: CursorStream,
    /// The identifiers of the transformers whose layers are active, the
    /// innermost first.
    pub layers: Vec<u64>,
}

impl LayeredStream {
    /// Wrap `inner` in the given layers.
    pub fn new(inner: CursorStream, layers: Vec<u64>) -> (r: Self)
        ensures
            r.inner == inner,
            r.layers@ == layers@,
    {
        LayeredStream { inner, layers }
    }
}

impl ByteStream for LayeredStream {
    open spec fn contents(&self) -> Seq<u8> {
        self.inner.contents()
    }

    open spec fn position(&self) -> int {
        self.inner.position()
    }

    open spec fn inv(&self) -> bool {
        self.inner.inv()
    }

    fn read(&mut self, buf: &mut Vec<u8>) -> (n: usize) {
        self.inner.read(buf)
    }

    fn write(&mut self, buf: &Vec<u8>) -> (n: usize) {
        self.inner.write(buf)
    }

    fn flush(&mut self) -> (r: Result<(), StreamError>) {
        self.inner.flush()
    }
}

} // verus!
