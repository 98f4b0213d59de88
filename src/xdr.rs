//! XDR (RFC 1832) encoding: big-endian integers, 4-byte alignment, and
//! length-prefixed opaque data.
//!
//! Encoders append to a `Vec<u8>`. Decoders read a slice at a position and
//! return the value with the position just past it; each decoder is specified
//! by a spec function of the same shape over `Seq<u8>`.
use vstd::prelude::*;
use vstd::slice::slice_subrange;

verus! {

/// Bytes that do not decode as the expected XDR value.
#[derive(Clone, Copy, Debug, PartialEq, Eq, Structural)]
pub struct InvalidData;

/// All XDR items are aligned to this many bytes.
pub const ALIGNMENT: usize = 4;

/// Number of zero bytes that follow `n` bytes of opaque data.
pub open spec fn pad_len(n: nat) -> nat {
    ((4 - (n % 4) as int) % 4) as nat
}

/// `n` zero bytes.
pub open spec fn zeros(n: nat) -> Seq<u8> {
    Seq::new(n, |i: int| 0u8)
}

/// Big-endian bytes of a 32-bit value.
pub open spec fn be32(x: u32) -> Seq<u8> {
    seq![(x >> 24u32) as u8, (x >> 16u32) as u8, (x >> 8u32) as u8, x as u8]
}

/// The 32-bit value whose big-endian bytes are `s[0..4]`.
pub open spec fn be32_value(s: Seq<u8>) -> u32
    recommends
        s.len() >= 4,
{
    ((s[0] as u32) << 24u32) | ((s[1] as u32) << 16u32) | ((s[2] as u32) << 8u32) | (s[3] as u32)
}

/// Big-endian bytes of a 64-bit value.
pub open spec fn be64(x: u64) -> Seq<u8> {
    be32((x >> 32u64) as u32) + be32(x as u32)
}

pub open spec fn join64(hi: u32, lo: u32) -> u64 {
    ((hi as u64) << 32u64) | (lo as u64)
}

/// Encoding of a boolean: the 32-bit value 1 or 0.
pub open spec fn bool_enc(b: bool) -> Seq<u8> {
    be32(if b { 1u32 } else { 0u32 })
}

/// Encoding of variable-length opaque data: a 32-bit length, the bytes, and
/// zero padding to a multiple of four.
pub open spec fn opaque_enc(s: Seq<u8>) -> Seq<u8> {
    be32(s.len() as u32) + s + zeros(pad_len(s.len()))
}

/// Encoding of fixed-length opaque data: the bytes and zero padding.
pub open spec fn fixed_enc(s: Seq<u8>) -> Seq<u8> {
    s + zeros(pad_len(s.len()))
}

/// Encoding of a counted array of 32-bit values.
pub open spec fn u32s_enc(s: Seq<u32>) -> Seq<u8> {
    be32(s.len() as u32) + words_enc(s)
}

/// The 32-bit values one after another, with no count.
pub open spec fn words_enc(s: Seq<u32>) -> Seq<u8>
    decreases s.len(),
{
    if s.len() == 0 {
        Seq::empty()
    } else {
        words_enc(s.drop_last()) + be32(s.last())
    }
}

pub open spec fn dec_u32(s: Seq<u8>, pos: int) -> Option<(u32, int)> {
    if 0 <= pos && pos + 4 <= s.len() {
        Some((be32_value(s.subrange(pos, pos + 4)), pos + 4))
    } else {
        None
    }
}

pub open spec fn dec_u64(s: Seq<u8>, pos: int) -> Option<(u64, int)> {
    match dec_u32(s, pos) {
        Some((hi, p)) => match dec_u32(s, p) {
            Some((lo, q)) => Some((join64(hi, lo), q)),
            None => None,
        },
        None => None,
    }
}

pub open spec fn dec_bool(s: Seq<u8>, pos: int) -> Option<(bool, int)> {
    match dec_u32(s, pos) {
        Some((v, p)) => if v == 0 {
            Some((false, p))
        } else if v == 1 {
            Some((true, p))
        } else {
            None
        },
        None => None,
    }
}

/// Variable-length opaque data. The padding is skipped whatever it holds.
pub open spec fn dec_opaque(s: Seq<u8>, pos: int) -> Option<(Seq<u8>, int)> {
    match dec_u32(s, pos) {
        Some((n, p)) => if p + n + pad_len(n as nat) <= s.len() {
            Some((s.subrange(p, p + n), p + n + pad_len(n as nat)))
        } else {
            None
        },
        None => None,
    }
}

/// Fixed-length opaque data of `n` bytes; the padding is skipped.
pub open spec fn dec_fixed(s: Seq<u8>, pos: int, n: nat) -> Option<(Seq<u8>, int)> {
    if 0 <= pos && pos + n + pad_len(n) <= s.len() {
        Some((s.subrange(pos, pos + n), pos + n + pad_len(n)))
    } else {
        None
    }
}

/// A string: opaque data whose bytes are all 7-bit ASCII.
pub open spec fn dec_string(s: Seq<u8>, pos: int) -> Option<(Seq<u8>, int)> {
    match dec_opaque(s, pos) {
        Some((b, p)) => if is_ascii(b) {
            Some((b, p))
        } else {
            None
        },
        None => None,
    }
}

pub open spec fn is_ascii(b: Seq<u8>) -> bool {
    forall|i: int| 0 <= i < b.len() ==> b[i] < 128
}

/// A counted array of 32-bit values.
pub open spec fn dec_u32s(s: Seq<u8>, pos: int) -> Option<(Seq<u32>, int)> {
    match dec_u32(s, pos) {
        Some((n, p)) => if p + 4 * n <= s.len() {
            Some((Seq::new(n as nat, |i: int| be32_value(s.subrange(p + 4 * i, p + 4 * i + 4))),
                p + 4 * n))
        } else {
            None
        },
        None => None,
    }
}

/// A value that has an XDR encoding.
pub trait Serialize {
    /// The bytes that encode the value.
    spec fn spec_enc(&self) -> Seq<u8>;

    /// Every length inside the value fits its 32-bit prefix.
    spec fn spec_encodable(&self) -> bool;

    /// Appends the encoding of the value to `dest`.
    fn serialize(&self, dest: &mut Vec<u8>)
        requires
            self.spec_encodable(),
        ensures
            final(dest)@ == old(dest)@ + self.spec_enc(),
    ;
}

/// A value that can be read from its XDR encoding.
pub trait Deserialize: Sized {
    /// What decoding at `pos` gives: the value and the position after it.
    spec fn spec_dec(s: Seq<u8>, pos: int) -> Option<(Self, int)>;

    /// Reads a value at `pos`.
    fn deserialize(src: &[u8], pos: usize) -> (r: Option<(Self, usize)>)
        ensures
            r matches Some((v, p)) ==> Self::spec_dec(src@, pos as int) == Some((v, p as int)),
            r is None <==> Self::spec_dec(src@, pos as int) is None,
    ;
}

/// Reads a value of type `T` at `pos`.
pub fn deserialize<T: Deserialize>(src: &[u8], pos: usize) -> (r: Option<(T, usize)>)
    ensures
        r matches Some((v, p)) ==> T::spec_dec(src@, pos as int) == Some((v, p as int)),
        r is None <==> T::spec_dec(src@, pos as int) is None,
{
    T::deserialize(src, pos)
}

impl Deserialize for u32 {
    open spec fn spec_dec(s: Seq<u8>, pos: int) -> Option<(u32, int)> {
        dec_u32(s, pos)
    }

    fn deserialize(src: &[u8], pos: usize) -> (r: Option<(u32, usize)>) {
        get_u32(src, pos)
    }
}

impl Deserialize for u64 {
    open spec fn spec_dec(s: Seq<u8>, pos: int) -> Option<(u64, int)> {
        dec_u64(s, pos)
    }

    fn deserialize(src: &[u8], pos: usize) -> (r: Option<(u64, usize)>) {
        get_u64(src, pos)
    }
}

impl Deserialize for bool {
    open spec fn spec_dec(s: Seq<u8>, pos: int) -> Option<(bool, int)> {
        dec_bool(s, pos)
    }

    fn deserialize(src: &[u8], pos: usize) -> (r: Option<(bool, usize)>) {
        get_bool(src, pos)
    }
}

impl Deserialize for i32 {
    open spec fn spec_dec(s: Seq<u8>, pos: int) -> Option<(i32, int)> {
        match dec_u32(s, pos) {
            Some((u, p)) => Some((u as i32, p)),
            None => None,
        }
    }

    fn deserialize(src: &[u8], pos: usize) -> (r: Option<(i32, usize)>) {
        get_i32(src, pos)
    }
}

impl Deserialize for i64 {
    open spec fn spec_dec(s: Seq<u8>, pos: int) -> Option<(i64, int)> {
        match dec_u64(s, pos) {
            Some((u, p)) => Some((u as i64, p)),
            None => None,
        }
    }

    fn deserialize(src: &[u8], pos: usize) -> (r: Option<(i64, usize)>) {
        get_i64(src, pos)
    }
}

/// Marker for enumerations that decode from the 32-bit value of a variant
/// and refuse other values.
pub trait DeserializeEnum: Deserialize {}

/// Marker for enumerations, which encode as the 32-bit value of their variant.
pub trait SerializeEnum: Serialize {
    spec fn spec_value(&self) -> u32;
}

impl Serialize for u32 {
    open spec fn spec_enc(&self) -> Seq<u8> {
        be32(*self)
    }

    open spec fn spec_encodable(&self) -> bool {
        true
    }

    fn serialize(&self, dest: &mut Vec<u8>) {
        put_u32(dest, *self);
    }
}

impl Serialize for u64 {
    open spec fn spec_enc(&self) -> Seq<u8> {
        be64(*self)
    }

    open spec fn spec_encodable(&self) -> bool {
        true
    }

    fn serialize(&self, dest: &mut Vec<u8>) {
        put_u64(dest, *self);
    }
}

impl Serialize for i32 {
    open spec fn spec_enc(&self) -> Seq<u8> {
        be32(*self as u32)
    }

    open spec fn spec_encodable(&self) -> bool {
        true
    }

    fn serialize(&self, dest: &mut Vec<u8>) {
        put_u32(dest, *self as u32);
    }
}

impl Serialize for i64 {
    open spec fn spec_enc(&self) -> Seq<u8> {
        be64(*self as u64)
    }

    open spec fn spec_encodable(&self) -> bool {
        true
    }

    fn serialize(&self, dest: &mut Vec<u8>) {
        put_u64(dest, *self as u64);
    }
}

impl Serialize for bool {
    open spec fn spec_enc(&self) -> Seq<u8> {
        bool_enc(*self)
    }

    open spec fn spec_encodable(&self) -> bool {
        true
    }

    fn serialize(&self, dest: &mut Vec<u8>) {
        put_bool(dest, *self);
    }
}

pub proof fn lemma_be32_round_trip(x: u32)
    ensures
        be32(x).len() == 4,
        be32_value(be32(x)) == x,
{
    let b0 = (x >> 24u32) as u8;
    let b1 = (x >> 16u32) as u8;
    let b2 = (x >> 8u32) as u8;
    let b3 = x as u8;
    assert((((b0 as u32) << 24u32) | ((b1 as u32) << 16u32) | ((b2 as u32) << 8u32) | (b3 as u32))
        == x) by (bit_vector)
        requires
            b0 == (x >> 24u32) as u8,
            b1 == (x >> 16u32) as u8,
            b2 == (x >> 8u32) as u8,
            b3 == x as u8,
    ;
}

pub proof fn lemma_join64(x: u64)
    ensures
        join64((x >> 32u64) as u32, x as u32) == x,
{
    assert((((((x >> 32u64) as u32) as u64) << 32u64) | ((x as u32) as u64)) == x) by (bit_vector);
}

/// Padding after `src_len` bytes: `(4 - src_len mod 4) mod 4`.
pub fn padding_len(src_len: usize) -> (r: usize)
    ensures
        r as nat == pad_len(src_len as nat),
        r < 4,
{
    (ALIGNMENT - (src_len % ALIGNMENT)) % ALIGNMENT
}

/// Appends the zero padding that follows `src_len` bytes of opaque data.
pub fn write_padding(src_len: usize, dest: &mut Vec<u8>)
    ensures
        final(dest)@ == old(dest)@ + zeros(pad_len(src_len as nat)),
{
    let n = padding_len(src_len);
    let mut i: usize = 0;
    while i < n
        invariant
            i <= n,
            n == pad_len(src_len as nat),
            dest@ == old(dest)@ + zeros(i as nat),
        decreases n - i,
    {
        dest.push(0u8);
        i = i + 1;
        assert(dest@ =~= old(dest)@ + zeros(i as nat));
    }
}

/// Skips the padding that follows `src_len` bytes of opaque data at `pos`;
/// returns the position after it, or `None` where the input ends first.
pub fn read_padding(src_len: usize, src: &[u8], pos: usize) -> (r: Option<usize>)
    ensures
        r == (if pos + pad_len(src_len as nat) <= src@.len() {
            Some((pos + pad_len(src_len as nat)) as usize)
        } else {
            None::<usize>
        }),
{
    let n = padding_len(src_len);
    if pos <= src.len() && n <= src.len() - pos {
        Some(pos + n)
    } else {
        None
    }
}

/// Appends the big-endian bytes of `x`.
pub fn put_u32(dest: &mut Vec<u8>, x: u32)
    ensures
        final(dest)@ == old(dest)@ + be32(x),
{
    dest.push((x >> 24u32) as u8);
    dest.push((x >> 16u32) as u8);
    dest.push((x >> 8u32) as u8);
    dest.push(x as u8);
    assert(dest@ =~= old(dest)@ + be32(x));
}

/// Appends the big-endian bytes of `x`.
pub fn put_u64(dest: &mut Vec<u8>, x: u64)
    ensures
        final(dest)@ == old(dest)@ + be64(x),
{
    put_u32(dest, (x >> 32u64) as u32);
    put_u32(dest, x as u32);
    assert(dest@ =~= old(dest)@ + be64(x));
}

pub fn put_bool(dest: &mut Vec<u8>, b: bool)
    ensures
        final(dest)@ == old(dest)@ + bool_enc(b),
{
    put_u32(dest, if b { 1 } else { 0 });
}

/// Appends variable-length opaque data. Its length must fit the 32-bit prefix.
pub fn put_opaque(dest: &mut Vec<u8>, data: &[u8])
    requires
        data@.len() <= u32::MAX,
    ensures
        final(dest)@ == old(dest)@ + opaque_enc(data@),
{
    put_u32(dest, data.len() as u32);
    dest.extend_from_slice(data);
    write_padding(data.len(), dest);
    assert(dest@ =~= old(dest)@ + opaque_enc(data@));
}

/// Appends fixed-length opaque data: no length prefix.
pub fn put_fixed(dest: &mut Vec<u8>, data: &[u8])
    ensures
        final(dest)@ == old(dest)@ + fixed_enc(data@),
{
    dest.extend_from_slice(data);
    write_padding(data.len(), dest);
    assert(dest@ =~= old(dest)@ + fixed_enc(data@));
}

/// Appends a counted array of 32-bit values.
pub fn put_u32s(dest: &mut Vec<u8>, data: &[u32])
    requires
        data@.len() <= u32::MAX,
    ensures
        final(dest)@ == old(dest)@ + u32s_enc(data@),
{
    put_u32(dest, data.len() as u32);
    let ghost start = dest@;
    let mut i: usize = 0;
    while i < data.len()
        invariant
            i <= data@.len(),
            start == old(dest)@ + be32(data@.len() as u32),
            dest@ == start + words_enc(data@.subrange(0, i as int)),
        decreases data@.len() - i,
    {
        put_u32(dest, data[i]);
        assert(data@.subrange(0, i + 1).drop_last() =~= data@.subrange(0, i as int));
        i = i + 1;
        assert(dest@ =~= start + words_enc(data@.subrange(0, i as int)));
    }
    assert(data@.subrange(0, i as int) =~= data@);
    assert(dest@ =~= old(dest)@ + u32s_enc(data@));
}

/// Reads a big-endian 32-bit value at `pos`.
pub fn get_u32(src: &[u8], pos: usize) -> (r: Option<(u32, usize)>)
    ensures
        r matches Some((v, p)) ==> dec_u32(src@, pos as int) == Some((v, p as int)),
        r is None <==> dec_u32(src@, pos as int) is None,
{
    if pos <= src.len() && 4 <= src.len() - pos {
        let v = ((src[pos] as u32) << 24u32) | ((src[pos + 1] as u32) << 16u32) | ((src[pos + 2]
            as u32) << 8u32) | (src[pos + 3] as u32);
        assert(src@.subrange(pos as int, pos + 4)[0] == src@[pos as int]);
        assert(src@.subrange(pos as int, pos + 4)[1] == src@[pos + 1]);
        assert(src@.subrange(pos as int, pos + 4)[2] == src@[pos + 2]);
        assert(src@.subrange(pos as int, pos + 4)[3] == src@[pos + 3]);
        Some((v, pos + 4))
    } else {
        None
    }
}

/// Reads a big-endian 64-bit value at `pos`.
pub fn get_u64(src: &[u8], pos: usize) -> (r: Option<(u64, usize)>)
    ensures
        r matches Some((v, p)) ==> dec_u64(src@, pos as int) == Some((v, p as int)),
        r is None <==> dec_u64(src@, pos as int) is None,
{
    match get_u32(src, pos) {
        Some((hi, p)) => match get_u32(src, p) {
            Some((lo, q)) => {
                Some((((hi as u64) << 32u64) | (lo as u64), q))
            },
            None => None,
        },
        None => None,
    }
}

/// Reads a big-endian two's-complement 32-bit value.
pub fn get_i32(src: &[u8], pos: usize) -> (r: Option<(i32, usize)>)
    ensures
        r matches Some((v, p)) ==> (dec_u32(src@, pos as int) matches Some((u, q)) && v == u as i32
            && p == q),
        r is None <==> dec_u32(src@, pos as int) is None,
{
    match get_u32(src, pos) {
        Some((u, p)) => Some((u as i32, p)),
        None => None,
    }
}

/// Reads a big-endian two's-complement 64-bit value.
pub fn get_i64(src: &[u8], pos: usize) -> (r: Option<(i64, usize)>)
    ensures
        r matches Some((v, p)) ==> (dec_u64(src@, pos as int) matches Some((u, q)) && v == u as i64
            && p == q),
        r is None <==> dec_u64(src@, pos as int) is None,
{
    match get_u64(src, pos) {
        Some((u, p)) => Some((u as i64, p)),
        None => None,
    }
}

/// Reads a boolean; values other than 0 and 1 are refused.
pub fn get_bool(src: &[u8], pos: usize) -> (r: Option<(bool, usize)>)
    ensures
        r matches Some((v, p)) ==> dec_bool(src@, pos as int) == Some((v, p as int)),
        r is None <==> dec_bool(src@, pos as int) is None,
{
    match get_u32(src, pos) {
        Some((0, p)) => Some((false, p)),
        Some((1, p)) => Some((true, p)),
        _ => None,
    }
}

/// Reads variable-length opaque data and skips its padding.
pub fn get_opaque(src: &[u8], pos: usize) -> (r: Option<(Vec<u8>, usize)>)
    ensures
        r matches Some((w, q)) ==> dec_opaque(src@, pos as int) == Some((w@, q as int)),
        r is None <==> dec_opaque(src@, pos as int) is None,
{
    match get_u32(src, pos) {
        Some((n, p)) => {
            let n = n as usize;
            if n <= src.len() - p {
                let end = p + n;
                match read_padding(n, src, end) {
                    Some(q) => {
                        let mut data: Vec<u8> = Vec::new();
                        data.extend_from_slice(slice_subrange(src, p, end));
                        Some((data, q))
                    },
                    None => None,
                }
            } else {
                None
            }
        },
        None => None,
    }
}

/// Reads `n` bytes of fixed-length opaque data and skips their padding.
pub fn get_fixed(src: &[u8], pos: usize, n: usize) -> (r: Option<(Vec<u8>, usize)>)
    ensures
        r matches Some((w, q)) ==> dec_fixed(src@, pos as int, n as nat) == Some((w@, q as int)),
        r is None <==> dec_fixed(src@, pos as int, n as nat) is None,
{
    if pos <= src.len() && n <= src.len() - pos {
        let end = pos + n;
        match read_padding(n, src, end) {
            Some(q) => {
                let mut data: Vec<u8> = Vec::new();
                data.extend_from_slice(slice_subrange(src, pos, end));
                Some((data, q))
            },
            None => None,
        }
    } else {
        None
    }
}

/// Whether every byte is 7-bit ASCII.
pub fn all_ascii(b: &[u8]) -> (r: bool)
    ensures
        r == is_ascii(b@),
{
    let mut i: usize = 0;
    while i < b.len()
        invariant
            i <= b@.len(),
            forall|j: int| 0 <= j < i ==> b@[j] < 128,
        decreases b@.len() - i,
    {
        if b[i] >= 128 {
            return false;
        }
        i = i + 1;
    }
    true
}

/// Reads a string: opaque data that must be 7-bit ASCII.
pub fn get_string(src: &[u8], pos: usize) -> (r: Option<(Vec<u8>, usize)>)
    ensures
        r matches Some((w, q)) ==> dec_string(src@, pos as int) == Some((w@, q as int)),
        r is None <==> dec_string(src@, pos as int) is None,
{
    match get_opaque(src, pos) {
        Some((b, p)) => if all_ascii(b.as_slice()) {
            Some((b, p))
        } else {
            None
        },
        None => None,
    }
}

/// Reads a counted array of 32-bit values.
pub fn get_u32s(src: &[u8], pos: usize) -> (r: Option<(Vec<u32>, usize)>)
    ensures
        r matches Some((w, q)) ==> dec_u32s(src@, pos as int) == Some((w@, q as int)),
        r is None <==> dec_u32s(src@, pos as int) is None,
{
    match get_u32(src, pos) {
        Some((n, p)) => {
            let len = src.len();
            if (n as usize) <= (len - p) / 4 {
                let mut out: Vec<u32> = Vec::new();
                let mut i: usize = 0;
                let n = n as usize;
                while i < n
                    invariant
                        i <= n,
                        p + 4 * n <= src@.len(),
                        src@.len() <= usize::MAX,
                        out@.len() == i,
                        forall|k: int|
                            0 <= k < i ==> out@[k] == be32_value(
                                src@.subrange(p + 4 * k, p + 4 * k + 4),
                            ),
                    decreases n - i,
                {
                    assert(4 * i + 4 <= 4 * n) by (nonlinear_arith)
                        requires
                            i < n,
                    ;
                    let q = p + 4 * i;
                    let got = get_u32(src, q);
                    match got {
                        Some((v, _)) => out.push(v),
                        None => {
                            return None;
                        },
                    }
                    i = i + 1;
                }
                let ghost want = Seq::new(
                    n as nat,
                    |k: int| be32_value(src@.subrange(p + 4 * k, p + 4 * k + 4)),
                );
                assert(out@ =~= want);
                Some((out, p + 4 * n))
            } else {
                None
            }
        },
        None => None,
    }
}

/// Decoding a 32-bit value reads back what was encoded, wherever it stands.
pub proof fn lemma_u32_round_trip(pre: Seq<u8>, x: u32, rest: Seq<u8>)
    ensures
        dec_u32(pre + be32(x) + rest, pre.len() as int) == Some((x, pre.len() + 4int)),
{
    lemma_be32_round_trip(x);
    let s = pre + be32(x) + rest;
    assert(s.subrange(pre.len() as int, pre.len() + 4 as int) =~= be32(x));
}

/// Decoding a 64-bit value reads back what was encoded.
pub proof fn lemma_u64_round_trip(pre: Seq<u8>, x: u64, rest: Seq<u8>)
    ensures
        dec_u64(pre + be64(x) + rest, pre.len() as int) == Some((x, pre.len() + 8int)),
{
    let hi = (x >> 32u64) as u32;
    let lo = x as u32;
    let s = pre + be64(x) + rest;
    assert(s =~= pre + be32(hi) + (be32(lo) + rest));
    lemma_u32_round_trip(pre, hi, be32(lo) + rest);
    assert(s =~= (pre + be32(hi)) + be32(lo) + rest);
    lemma_u32_round_trip(pre + be32(hi), lo, rest);
    lemma_join64(x);
}

/// Decoding a boolean reads back what was encoded.
pub proof fn lemma_bool_round_trip(pre: Seq<u8>, b: bool, rest: Seq<u8>)
    ensures
        dec_bool(pre + bool_enc(b) + rest, pre.len() as int) == Some((b, pre.len() + 4int)),
{
    lemma_u32_round_trip(pre, if b { 1u32 } else { 0u32 }, rest);
}

/// Variable-length opaque data takes exactly `4 + L + pad(L)` bytes, and
/// decoding it reads back the payload whatever the padding bytes hold.
pub proof fn lemma_opaque_any_padding(pre: Seq<u8>, data: Seq<u8>, pad: Seq<u8>, rest: Seq<u8>)
    requires
        data.len() <= u32::MAX,
        pad.len() == pad_len(data.len()),
    ensures
        dec_opaque(pre + be32(data.len() as u32) + data + pad + rest, pre.len() as int) == Some(
            (data, (pre.len() + 4 + data.len() + pad_len(data.len())) as int),
        ),
{
    let s = pre + be32(data.len() as u32) + data + pad + rest;
    assert(s =~= pre + be32(data.len() as u32) + (data + pad + rest));
    lemma_u32_round_trip(pre, data.len() as u32, data + pad + rest);
    let p = pre.len() + 4;
    assert(s.subrange(p as int, (p + data.len()) as int) =~= data);
}

/// Decoding variable-length opaque data reads back what was encoded; the
/// encoding is exactly `4 + L + (4 - L mod 4) mod 4` bytes long.
pub proof fn lemma_opaque_round_trip(pre: Seq<u8>, data: Seq<u8>, rest: Seq<u8>)
    requires
        data.len() <= u32::MAX,
    ensures
        opaque_enc(data).len() == 4 + data.len() + pad_len(data.len()),
        dec_opaque(pre + opaque_enc(data) + rest, pre.len() as int) == Some(
            (data, (pre.len() + opaque_enc(data).len()) as int),
        ),
{
    let pad = zeros(pad_len(data.len()));
    let h = be32(data.len() as u32);
    assert(h.len() == 4);
    assert(opaque_enc(data) == h + data + pad);
    assert(pre + (h + data + pad) + rest =~= pre + h + data + pad + rest);
    lemma_opaque_any_padding(pre, data, pad, rest);
}

/// Decoding a string reads back an ASCII payload that was encoded.
pub proof fn lemma_string_round_trip(pre: Seq<u8>, data: Seq<u8>, rest: Seq<u8>)
    requires
        data.len() <= u32::MAX,
        is_ascii(data),
    ensures
        dec_string(pre + opaque_enc(data) + rest, pre.len() as int) == Some(
            (data, (pre.len() + opaque_enc(data).len()) as int),
        ),
{
    lemma_opaque_round_trip(pre, data, rest);
}

/// Fixed-length opaque data has no length prefix and reads back what was encoded.
pub proof fn lemma_fixed_round_trip(pre: Seq<u8>, data: Seq<u8>, rest: Seq<u8>)
    ensures
        fixed_enc(data).len() == data.len() + pad_len(data.len()),
        dec_fixed(pre + fixed_enc(data) + rest, pre.len() as int, data.len()) == Some(
            (data, (pre.len() + fixed_enc(data).len()) as int),
        ),
{
    let s = pre + fixed_enc(data) + rest;
    assert(s.subrange(pre.len() as int, (pre.len() + data.len()) as int) =~= data);
}

/// An empty opaque value encodes to four zero bytes; four bytes take no
/// padding and three bytes take one.
pub proof fn lemma_opaque_sizes()
    ensures
        opaque_enc(Seq::<u8>::empty()) == seq![0u8, 0u8, 0u8, 0u8],
        pad_len(4) == 0,
        pad_len(3) == 1,
{
    assert(be32(0u32) =~= seq![0u8, 0u8, 0u8, 0u8]) by {
        assert((0u32 >> 24u32) as u8 == 0u8) by (bit_vector);
        assert((0u32 >> 16u32) as u8 == 0u8) by (bit_vector);
        assert((0u32 >> 8u32) as u8 == 0u8) by (bit_vector);
    }
    assert(opaque_enc(Seq::<u8>::empty()) =~= seq![0u8, 0u8, 0u8, 0u8]);
}

} // verus!
