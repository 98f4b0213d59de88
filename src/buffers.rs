//! Output buffers: the reply buffer a connection reuses between calls, and a
//! writer that counts what passed through it.
use vstd::prelude::*;

verus! {

/// The reply of one call, and whether it is to be sent.
pub struct ResponseBuffer {
    buffer: Vec<u8>,
    has_content: bool,
}

impl ResponseBuffer {
    pub closed spec fn view(&self) -> (Seq<u8>, bool) {
        (self.buffer@, self.has_content)
    }

    /// An empty buffer, not marked for sending.
    pub fn with_capacity(capacity: usize) -> (r: ResponseBuffer)
        ensures
            r@ == (Seq::<u8>::empty(), false),
    {
        ResponseBuffer { buffer: Vec::with_capacity(capacity), has_content: false }
    }

    /// Appends reply bytes.
    pub fn extend(&mut self, bytes: &[u8])
        ensures
            final(self)@ == (old(self)@.0 + bytes@, old(self)@.1),
    {
        self.buffer.extend_from_slice(bytes);
    }

    /// Marks the buffer for sending.
    pub fn mark_has_content(&mut self)
        ensures
            final(self)@ == (old(self)@.0, true),
    {
        self.has_content = true;
    }

    pub fn has_content(&self) -> (r: bool)
        ensures
            r == self@.1,
    {
        self.has_content
    }

    /// The reply bytes.
    pub fn into_inner(self) -> (r: Vec<u8>)
        ensures
            r@ == self@.0,
    {
        self.buffer
    }

    /// Empties the buffer and unmarks it, for the next call.
    pub fn clear(&mut self)
        ensures
            final(self)@ == (Seq::<u8>::empty(), false),
    {
        self.buffer.clear();
        self.has_content = false;
        assert(self.buffer@ =~= Seq::<u8>::empty());
    }
}

/// A byte sink that counts the bytes written to it.
pub struct WriteCounter {
    inner: Vec<u8>,
    count: usize,
    base: Ghost<Seq<u8>>,
}

impl WriteCounter {
    pub closed spec fn view(&self) -> Seq<u8> {
        self.inner@
    }

    /// What the sink held before counting began.
    pub closed spec fn base(&self) -> Seq<u8> {
        self.base@
    }

    pub closed spec fn wf(&self) -> bool {
        &&& self.inner@.len() == self.base@.len() + self.count
        &&& self.inner@.take(self.base@.len() as int) == self.base@
    }

    /// Counts from zero the bytes written after `inner`'s contents.
    pub fn new(inner: Vec<u8>) -> (r: WriteCounter)
        ensures
            r.wf(),
            r@ == inner@,
            r.base() == inner@,
    {
        let ghost b = inner@;
        let r = WriteCounter { inner, count: 0, base: Ghost(b) };
        assert(r.inner@.take(b.len() as int) =~= b);
        r
    }

    /// Writes all of `buf`.
    pub fn write(&mut self, buf: &[u8])
        requires
            old(self).wf(),
        ensures
            final(self).wf(),
            final(self)@ == old(self)@ + buf@,
            final(self).base() == old(self).base(),
    {
        let ghost b = self.base@;
        self.inner.extend_from_slice(buf);
        let total = self.inner.len();
        assert(self.count + buf@.len() <= total);
        self.count = self.count + buf.len();
        assert(self.inner@.take(b.len() as int) =~= old(self).inner@.take(b.len() as int));
    }

    /// The number of bytes written since `new`.
    pub fn bytes_written(&self) -> (r: usize)
        requires
            self.wf(),
        ensures
            r == self@.len() - self.base().len(),
    {
        self.count
    }

    pub fn into_inner(self) -> (r: Vec<u8>)
        ensures
            r@ == self@,
    {
        self.inner
    }
}

} // verus!
