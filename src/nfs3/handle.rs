//! File handles: 8 bytes of little-endian server generation followed by 8
//! bytes of little-endian file id. The generation tells a handle of an
//! earlier server instance (stale) from one that was never issued (bad).
use vstd::prelude::*;
use crate::nfs3::types::{nfs_fh3, nfsstat3, nfstime3};

verus! {

/// Little-endian bytes of a 64-bit value.
pub open spec fn le64(x: u64) -> Seq<u8> {
    seq![
        x as u8,
        (x >> 8u64) as u8,
        (x >> 16u64) as u8,
        (x >> 24u64) as u8,
        (x >> 32u64) as u8,
        (x >> 40u64) as u8,
        (x >> 48u64) as u8,
        (x >> 56u64) as u8,
    ]
}

/// The 64-bit value whose little-endian bytes are `s[at..at + 8]`.
pub open spec fn le64_value(s: Seq<u8>, at: int) -> u64 {
    (s[at] as u64) | ((s[at + 1] as u64) << 8u64) | ((s[at + 2] as u64) << 16u64) | ((s[at + 3]
        as u64) << 24u64) | ((s[at + 4] as u64) << 32u64) | ((s[at + 5] as u64) << 40u64) | ((s[at
        + 6] as u64) << 48u64) | ((s[at + 7] as u64) << 56u64)
}

/// The bytes of the handle for `id` under `generation`.
pub open spec fn fh_bytes(generation: u64, id: u64) -> Seq<u8> {
    le64(generation) + le64(id)
}

/// What decoding a handle gives under the server's `generation`.
pub open spec fn spec_fh_to_id(generation: u64, fh: Seq<u8>) -> Result<u64, nfsstat3> {
    if fh.len() != 16 {
        Err(nfsstat3::NFS3ERR_BADHANDLE)
    } else if le64_value(fh, 0) < generation {
        Err(nfsstat3::NFS3ERR_STALE)
    } else if le64_value(fh, 0) > generation {
        Err(nfsstat3::NFS3ERR_BADHANDLE)
    } else {
        Ok(le64_value(fh, 8))
    }
}

pub proof fn lemma_le64_round_trip(x: u64)
    ensures
        le64(x).len() == 8,
        le64_value(le64(x), 0) == x,
{
    assert(((x as u8) as u64) | ((((x >> 8u64) as u8) as u64) << 8u64) | ((((x >> 16u64) as u8)
        as u64) << 16u64) | ((((x >> 24u64) as u8) as u64) << 24u64) | ((((x >> 32u64) as u8)
        as u64) << 32u64) | ((((x >> 40u64) as u8) as u64) << 40u64) | ((((x >> 48u64) as u8)
        as u64) << 48u64) | ((((x >> 56u64) as u8) as u64) << 56u64) == x) by (bit_vector);
}

/// Appends the little-endian bytes of `x`.
pub fn put_le64(dest: &mut Vec<u8>, x: u64)
    ensures
        final(dest)@ == old(dest)@ + le64(x),
{
    dest.push(x as u8);
    dest.push((x >> 8u64) as u8);
    dest.push((x >> 16u64) as u8);
    dest.push((x >> 24u64) as u8);
    dest.push((x >> 32u64) as u8);
    dest.push((x >> 40u64) as u8);
    dest.push((x >> 48u64) as u8);
    dest.push((x >> 56u64) as u8);
    assert(dest@ =~= old(dest)@ + le64(x));
}

/// Reads the little-endian 64-bit value at `at`.
pub fn read_le64(s: &[u8], at: usize) -> (r: u64)
    requires
        at + 8 <= s@.len(),
    ensures
        r == le64_value(s@, at as int),
{
    (s[at] as u64) | ((s[at + 1] as u64) << 8u64) | ((s[at + 2] as u64) << 16u64) | ((s[at + 3]
        as u64) << 24u64) | ((s[at + 4] as u64) << 32u64) | ((s[at + 5] as u64) << 40u64) | ((s[at
        + 6] as u64) << 48u64) | ((s[at + 7] as u64) << 56u64)
}

/// The handle of file `id` on a server of generation `generation`.
pub fn id_to_fh(generation: u64, id: u64) -> (r: nfs_fh3)
    ensures
        r.data@ == fh_bytes(generation, id),
{
    let mut data: Vec<u8> = Vec::new();
    put_le64(&mut data, generation);
    put_le64(&mut data, id);
    assert(data@ =~= fh_bytes(generation, id));
    nfs_fh3 { data }
}

/// The file id a handle names. A handle of the wrong length, or of a later
/// generation, is `BADHANDLE`; one of an earlier generation is `STALE`.
pub fn fh_to_id(generation: u64, fh: &nfs_fh3) -> (r: Result<u64, nfsstat3>)
    ensures
        r == spec_fh_to_id(generation, fh.data@),
{
    if fh.data.len() != 16 {
        return Err(nfsstat3::NFS3ERR_BADHANDLE);
    }
    let gen = read_le64(fh.data.as_slice(), 0);
    let id = read_le64(fh.data.as_slice(), 8);
    if gen < generation {
        Err(nfsstat3::NFS3ERR_STALE)
    } else if gen > generation {
        Err(nfsstat3::NFS3ERR_BADHANDLE)
    } else {
        Ok(id)
    }
}

/// The write verifier: the little-endian generation.
pub fn server_id(generation: u64) -> (r: [u8; 8])
    ensures
        r@ == le64(generation),
{
    let r = [
        generation as u8,
        (generation >> 8u64) as u8,
        (generation >> 16u64) as u8,
        (generation >> 24u64) as u8,
        (generation >> 32u64) as u8,
        (generation >> 40u64) as u8,
        (generation >> 48u64) as u8,
        (generation >> 56u64) as u8,
    ];
    assert(r@ =~= le64(generation));
    r
}

/// The cookie verifier of a directory: the big-endian bytes of
/// `(mtime.seconds << 32) | mtime.nseconds`, or zeros without attributes.
pub fn cookie_verifier(mtime: Option<nfstime3>) -> (r: [u8; 8])
    ensures
        r@ == match mtime {
            Some(t) => crate::xdr::be64(crate::xdr::join64(t.seconds, t.nseconds)),
            None => crate::xdr::zeros(8),
        },
{
    match mtime {
        Some(t) => {
            let s = t.seconds;
            let n = t.nseconds;
            let r = [
                (s >> 24u32) as u8,
                (s >> 16u32) as u8,
                (s >> 8u32) as u8,
                s as u8,
                (n >> 24u32) as u8,
                (n >> 16u32) as u8,
                (n >> 8u32) as u8,
                n as u8,
            ];
            let ghost v = crate::xdr::join64(s, n);
            assert((v >> 32u64) as u32 == s && v as u32 == n) by (bit_vector)
                requires
                    v == ((s as u64) << 32u64) | (n as u64),
            ;
            assert(r@ =~= crate::xdr::be64(v));
            r
        },
        None => {
            let r = [0u8; 8];
            assert(r@ =~= crate::xdr::zeros(8));
            r
        },
    }
}

/// A handle issued by `id_to_fh` decodes to the same id on the same server.
pub proof fn lemma_fh_round_trip(generation: u64, id: u64)
    ensures
        spec_fh_to_id(generation, fh_bytes(generation, id)) == Ok::<u64, nfsstat3>(id),
{
    let s = fh_bytes(generation, id);
    lemma_le64_round_trip(generation);
    lemma_le64_round_trip(id);
    assert(le64_value(s, 0) == le64_value(le64(generation), 0));
    assert(le64_value(s, 8) == le64_value(le64(id), 0));
}

/// A handle issued by an earlier server instance is stale on a later one.
pub proof fn lemma_fh_older_is_stale(old_gen: u64, new_gen: u64, id: u64)
    requires
        old_gen < new_gen,
    ensures
        spec_fh_to_id(new_gen, fh_bytes(old_gen, id)) == Err::<u64, nfsstat3>(nfsstat3::NFS3ERR_STALE),
{
    let s = fh_bytes(old_gen, id);
    lemma_le64_round_trip(old_gen);
    assert(le64_value(s, 0) == le64_value(le64(old_gen), 0));
}

/// A handle of a generation later than the server's was never issued by it.
pub proof fn lemma_fh_newer_is_bad(handle_gen: u64, server_gen: u64, id: u64)
    requires
        handle_gen > server_gen,
    ensures
        spec_fh_to_id(server_gen, fh_bytes(handle_gen, id)) == Err::<u64, nfsstat3>(
            nfsstat3::NFS3ERR_BADHANDLE,
        ),
{
    let s = fh_bytes(handle_gen, id);
    lemma_le64_round_trip(handle_gen);
    assert(le64_value(s, 0) == le64_value(le64(handle_gen), 0));
}

/// Every handle that decodes carries the server's current generation.
pub proof fn lemma_fh_decoded_is_current(generation: u64, fh: Seq<u8>)
    requires
        spec_fh_to_id(generation, fh) is Ok,
    ensures
        fh.len() == 16,
        le64_value(fh, 0) == generation,
{
}

} // verus!
