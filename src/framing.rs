//! Record marking (RFC 5531 section 11): a record travels as fragments, each
//! behind a 4-byte big-endian header whose top bit marks the last fragment
//! and whose low 31 bits give the fragment's length.
use vstd::prelude::*;
use vstd::slice::slice_subrange;
use crate::xdr::{be32, be32_value, lemma_be32_round_trip, put_u32};

verus! {

/// The largest record accepted (8 MiB); a fragment that would grow a record
/// past it fails the connection.
pub const MAX_RPC_RECORD_LENGTH: usize = 8388608;

/// The largest fragment: 2^31 - 1 bytes.
pub const MAX_FRAGMENT_SIZE: usize = 2147483647;

/// The flag bit of the last fragment.
pub const LAST_FRAGMENT: u32 = 0x8000_0000;

/// The header of a fragment of `len` bytes.
pub open spec fn header_value(len: u32, last: bool) -> u32 {
    if last {
        (len + LAST_FRAGMENT) as u32
    } else {
        len
    }
}

/// The fragments that carry `s`, at most `MAX_FRAGMENT_SIZE` bytes each.
pub open spec fn framed(s: Seq<u8>) -> Seq<u8>
    decreases s.len(),
{
    if s.len() == 0 {
        Seq::empty()
    } else if s.len() <= MAX_FRAGMENT_SIZE {
        be32(header_value(s.len() as u32, true)) + s
    } else {
        be32(header_value(MAX_FRAGMENT_SIZE as u32, false)) + s.take(MAX_FRAGMENT_SIZE as int)
            + framed(s.skip(MAX_FRAGMENT_SIZE as int))
    }
}

/// A fragment header, read: whether it is the last fragment, and its length.
pub struct FragmentHeader {
    pub is_last: bool,
    pub length: u32,
}

/// Splits a header into the last-fragment flag and the 31-bit length.
pub fn decode_fragment_header(header: u32) -> (r: FragmentHeader)
    ensures
        r.is_last == (header >= LAST_FRAGMENT),
        r.length == (if header >= LAST_FRAGMENT { (header - LAST_FRAGMENT) as u32 } else { header }),
        r.length < LAST_FRAGMENT,
        header == header_value(r.length, r.is_last),
{
    let is_last = (header & LAST_FRAGMENT) != 0;
    let length = header & (LAST_FRAGMENT - 1);
    assert(((header & 0x8000_0000u32) != 0) == (header >= 0x8000_0000u32)) by (bit_vector);
    assert(header >= 0x8000_0000u32 ==> (header & 0x7fff_ffffu32) == header - 0x8000_0000u32)
        by (bit_vector);
    assert(header < 0x8000_0000u32 ==> (header & 0x7fff_ffffu32) == header) by (bit_vector);
    FragmentHeader { is_last, length }
}

/// Whether a record of `record_len` bytes may take a fragment of
/// `fragment_len` more: the total must not pass `MAX_RPC_RECORD_LENGTH`.
pub fn fragment_fits(record_len: usize, fragment_len: u32) -> (r: bool)
    ensures
        r == (record_len + fragment_len <= MAX_RPC_RECORD_LENGTH),
{
    record_len <= MAX_RPC_RECORD_LENGTH && (fragment_len as usize) <= MAX_RPC_RECORD_LENGTH
        - record_len
}

/// A record being read from fragments.
pub struct RecordAssembler {
    buf: Vec<u8>,
}

/// What reading a fragment's header decided.
pub enum FragmentStep {
    /// Read this many bytes of body next.
    ReadBody(usize),
    /// The record would pass the limit: fail the connection.
    TooLong,
}

impl RecordAssembler {
    pub closed spec fn view(&self) -> Seq<u8> {
        self.buf@
    }

    pub fn new() -> (r: RecordAssembler)
        ensures
            r@.len() == 0,
    {
        RecordAssembler { buf: Vec::new() }
    }

    /// The bytes of the record read so far.
    pub fn len(&self) -> (r: usize)
        ensures
            r == self@.len(),
    {
        self.buf.len()
    }

    /// Decides what follows a fragment header.
    pub fn on_header(&self, header: u32) -> (r: FragmentStep)
        ensures
            ({
                let len = if header >= LAST_FRAGMENT { header - LAST_FRAGMENT } else { header as int };
                &&& self@.len() + len <= MAX_RPC_RECORD_LENGTH ==> r == FragmentStep::ReadBody(
                    len as usize,
                )
                &&& self@.len() + len > MAX_RPC_RECORD_LENGTH ==> r == FragmentStep::TooLong
            }),
    {
        let h = decode_fragment_header(header);
        if fragment_fits(self.buf.len(), h.length) {
            FragmentStep::ReadBody(h.length as usize)
        } else {
            FragmentStep::TooLong
        }
    }

    /// Appends a fragment's body. After the last fragment the whole record is
    /// handed back and the assembler starts over.
    pub fn on_body(&mut self, body: &[u8], is_last: bool) -> (r: Option<Vec<u8>>)
        ensures
            is_last ==> (r matches Some(rec) && rec@ == old(self)@ + body@ && final(self)@.len() == 0),
            !is_last ==> r is None && final(self)@ == old(self)@ + body@,
    {
        self.buf.extend_from_slice(body);
        if is_last {
            let rec = self.buf.split_off(0);
            Some(rec)
        } else {
            None
        }
    }
}

/// Appends `buf` as record-marked fragments of at most `MAX_FRAGMENT_SIZE`
/// bytes; only the final one has the last-fragment bit. An empty buffer
/// sends nothing.
pub fn write_fragment(dest: &mut Vec<u8>, buf: &[u8])
    ensures
        final(dest)@ == old(dest)@ + framed(buf@),
{
    let mut offset: usize = 0;
    assert(buf@.skip(0) =~= buf@);
    while offset < buf.len()
        invariant
            offset <= buf@.len(),
            dest@ + framed(buf@.skip(offset as int)) == old(dest)@ + framed(buf@),
        decreases buf@.len() - offset,
    {
        let remaining = buf.len() - offset;
        let ghost before = dest@;
        let ghost rest = buf@.skip(offset as int);
        if remaining <= MAX_FRAGMENT_SIZE {
            put_u32(dest, remaining as u32 + LAST_FRAGMENT);
            dest.extend_from_slice(slice_subrange(buf, offset, buf.len()));
            assert(buf@.subrange(offset as int, buf@.len() as int) =~= rest);
            assert(buf@.skip(buf@.len() as int) =~= Seq::<u8>::empty());
            offset = buf.len();
        } else {
            put_u32(dest, MAX_FRAGMENT_SIZE as u32);
            dest.extend_from_slice(slice_subrange(buf, offset, offset + MAX_FRAGMENT_SIZE));
            assert(buf@.subrange(offset as int, offset + MAX_FRAGMENT_SIZE) =~= rest.take(
                MAX_FRAGMENT_SIZE as int,
            ));
            assert(rest.skip(MAX_FRAGMENT_SIZE as int) =~= buf@.skip(offset + MAX_FRAGMENT_SIZE));
            offset = offset + MAX_FRAGMENT_SIZE;
        }
        assert(dest@ + framed(buf@.skip(offset as int)) =~= before + framed(rest));
    }
    assert(buf@.skip(offset as int) =~= Seq::<u8>::empty());
    assert(dest@ =~= old(dest)@ + framed(buf@));
}

/// The record that a stream of fragments carries: each fragment's body in
/// order, up to and including the one marked last.
pub open spec fn unframed(w: Seq<u8>) -> Seq<u8>
    decreases w.len(),
{
    if w.len() < 4 {
        Seq::empty()
    } else {
        let h = be32_value(w.take(4));
        let len: int = if h >= LAST_FRAGMENT { h - LAST_FRAGMENT } else { h as int };
        if 4 + len > w.len() {
            Seq::empty()
        } else if h >= LAST_FRAGMENT {
            w.subrange(4, 4 + len)
        } else if len == 0 {
            Seq::empty()
        } else {
            w.subrange(4, 4 + len) + unframed(w.skip(4 + len))
        }
    }
}

/// Reading back the fragments of a non-empty record gives the record.
pub proof fn lemma_framing_round_trip(s: Seq<u8>)
    requires
        s.len() > 0,
    ensures
        unframed(framed(s)) == s,
    decreases s.len(),
{
    let w = framed(s);
    if s.len() <= MAX_FRAGMENT_SIZE {
        let h = header_value(s.len() as u32, true);
        lemma_be32_round_trip(h);
        assert(w.take(4) =~= be32(h));
        assert(w.subrange(4, 4 + s.len() as int) =~= s);
    } else {
        let h = header_value(MAX_FRAGMENT_SIZE as u32, false);
        lemma_be32_round_trip(h);
        let m = MAX_FRAGMENT_SIZE as int;
        let rest = s.skip(m);
        lemma_framing_round_trip(rest);
        assert(w.take(4) =~= be32(h));
        assert(w.subrange(4, 4 + m) =~= s.take(m));
        assert(w.skip(4 + m) =~= framed(rest));
        assert(s.take(m) + rest =~= s);
    }
}

} // verus!
