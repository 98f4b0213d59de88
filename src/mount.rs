//! MOUNT v3 (RFC 1813 appendix I): the export check, path canonicalisation,
//! and the replies. Resolving a path to a file id is the file system's work:
//! `handle_mount` hands the canonical path back, and `mnt_reply` encodes the
//! outcome.
#![allow(non_camel_case_types)]

use vstd::prelude::*;
use crate::nfs3::handle::{fh_bytes, id_to_fh};
use crate::nfs3::types::nfsstat3;
use crate::rpc::{accept_body, accepted_bytes, call_body, success_bytes, write_accepted, write_success};
use crate::xdr::{
    InvalidData, Serialize, be32, bool_enc, dec_opaque, get_opaque, opaque_enc, put_bool, put_opaque, put_u32,
    put_u32s, u32s_enc,
};

verus! {

/// RPC program number of MOUNT.
pub const PROGRAM: u32 = 100005;

/// The MOUNT version served.
pub const VERSION: u32 = 3;

/// Status of a MOUNT procedure.
#[derive(Clone, Copy, Debug, PartialEq, Eq, Structural)]
pub enum mountstat3 {
    MNT3_OK,
    MNT3ERR_PERM,
    MNT3ERR_NOENT,
    MNT3ERR_IO,
    MNT3ERR_ACCES,
    MNT3ERR_NOTDIR,
    MNT3ERR_INVAL,
    MNT3ERR_NAMETOOLONG,
    MNT3ERR_NOTSUPP,
    MNT3ERR_SERVERFAULT,
}

impl mountstat3 {
    pub open spec fn value(&self) -> u32 {
        match self {
            mountstat3::MNT3_OK => 0,
            mountstat3::MNT3ERR_PERM => 1,
            mountstat3::MNT3ERR_NOENT => 2,
            mountstat3::MNT3ERR_IO => 5,
            mountstat3::MNT3ERR_ACCES => 13,
            mountstat3::MNT3ERR_NOTDIR => 20,
            mountstat3::MNT3ERR_INVAL => 22,
            mountstat3::MNT3ERR_NAMETOOLONG => 63,
            mountstat3::MNT3ERR_NOTSUPP => 10004,
            mountstat3::MNT3ERR_SERVERFAULT => 10006,
        }
    }

    pub fn to_u32(&self) -> (r: u32)
        ensures
            r == self.value(),
    {
        match self {
            mountstat3::MNT3_OK => 0,
            mountstat3::MNT3ERR_PERM => 1,
            mountstat3::MNT3ERR_NOENT => 2,
            mountstat3::MNT3ERR_IO => 5,
            mountstat3::MNT3ERR_ACCES => 13,
            mountstat3::MNT3ERR_NOTDIR => 20,
            mountstat3::MNT3ERR_INVAL => 22,
            mountstat3::MNT3ERR_NAMETOOLONG => 63,
            mountstat3::MNT3ERR_NOTSUPP => 10004,
            mountstat3::MNT3ERR_SERVERFAULT => 10006,
        }
    }
}

/// The MOUNT procedures.
#[derive(Clone, Copy, Debug, PartialEq, Eq, Structural)]
pub enum MountProgram {
    MOUNTPROC3_NULL,
    MOUNTPROC3_MNT,
    MOUNTPROC3_DUMP,
    MOUNTPROC3_UMNT,
    MOUNTPROC3_UMNTALL,
    MOUNTPROC3_EXPORT,
    INVALID,
}

/// A successful MNT: the root handle and the accepted flavors.
#[derive(Clone, Debug)]
pub struct mountres3_ok {
    pub fhandle: Vec<u8>,
    pub auth_flavors: Vec<u32>,
}

pub open spec fn is_slash(b: u8) -> bool {
    b == 47u8
}

/// `s` without leading `'/'`.
pub open spec fn trim_start(s: Seq<u8>) -> Seq<u8>
    decreases s.len(),
{
    if s.len() > 0 && is_slash(s[0]) {
        trim_start(s.skip(1))
    } else {
        s
    }
}

/// `s` without trailing `'/'`.
pub open spec fn trim_end(s: Seq<u8>) -> Seq<u8>
    decreases s.len(),
{
    if s.len() > 0 && is_slash(s.last()) {
        trim_end(s.drop_last())
    } else {
        s
    }
}

/// The path a MNT of `path` names: `None` unless `path` starts with the
/// export name; else the rest, trimmed of `'/'` at both ends, after one `'/'`.
pub open spec fn canonical_path(export_name: Seq<u8>, path: Seq<u8>) -> Option<Seq<u8>> {
    if export_name.len() <= path.len() && path.take(export_name.len() as int) == export_name {
        Some(seq![47u8] + trim_end(trim_start(path.skip(export_name.len() as int))))
    } else {
        None
    }
}

/// The canonical path of a MNT request; see `canonical_path`.
pub fn mnt_path(export_name: &[u8], path: &[u8]) -> (r: Option<Vec<u8>>)
    ensures
        r matches Some(p) ==> canonical_path(export_name@, path@) == Some(p@),
        r is None <==> canonical_path(export_name@, path@) is None,
{
    let n = export_name.len();
    if n > path.len() {
        return None;
    }
    let mut i: usize = 0;
    while i < n
        invariant
            n == export_name@.len(),
            n <= path@.len(),
            i <= n,
            forall|j: int| 0 <= j < i ==> path@[j] == export_name@[j],
        decreases n - i,
    {
        if path[i] != export_name[i] {
            assert(path@.take(n as int)[i as int] != export_name@[i as int]);
            return None;
        }
        i = i + 1;
    }
    assert(path@.take(n as int) =~= export_name@);
    let ghost rest = path@.skip(n as int);
    let mut start: usize = n;
    assert(path@.skip(start as int) =~= rest);
    while start < path.len() && path[start] == 47u8
        invariant
            n <= start <= path@.len(),
            trim_start(path@.skip(start as int)) == trim_start(rest),
        decreases path@.len() - start,
    {
        assert(path@.skip(start as int).skip(1) =~= path@.skip(start + 1));
        start = start + 1;
    }
    let ghost t = trim_start(rest);
    assert(t =~= path@.subrange(start as int, path@.len() as int));
    let mut end: usize = path.len();
    while end > start && path[end - 1] == 47u8
        invariant
            start <= end <= path@.len(),
            trim_end(path@.subrange(start as int, end as int)) == trim_end(t),
        decreases end - start,
    {
        assert(path@.subrange(start as int, end as int).drop_last() =~= path@.subrange(
            start as int,
            end - 1,
        ));
        end = end - 1;
    }
    assert(path@.subrange(start as int, end as int) =~= trim_end(t));
    let mut out: Vec<u8> = Vec::new();
    out.push(47u8);
    out.extend_from_slice(vstd::slice::slice_subrange(path, start, end));
    assert(out@ =~= seq![47u8] + trim_end(t));
    Some(out)
}

/// The bytes of a MNT reply: the root handle and `[AUTH_NULL, AUTH_UNIX]` on
/// success; `MNT3ERR_NOENT` when the path did not resolve.
pub open spec fn mnt_reply_bytes(xid: u32, resolved: Result<u64, nfsstat3>, generation: u64) -> Seq<u8> {
    match resolved {
        Ok(id) => success_bytes(xid) + be32(0) + opaque_enc(fh_bytes(generation, id)) + u32s_enc(
            seq![0u32, 1u32],
        ),
        Err(_) => success_bytes(xid) + be32(2),
    }
}

/// The MNT reply once the file system resolved the canonical path.
pub fn mnt_reply(xid: u32, resolved: Result<u64, nfsstat3>, generation: u64) -> (r: Vec<u8>)
    ensures
        r@ == mnt_reply_bytes(xid, resolved, generation),
{
    let mut out: Vec<u8> = Vec::new();
    write_success(&mut out, xid);
    match resolved {
        Ok(id) => {
            put_u32(&mut out, mountstat3::MNT3_OK.to_u32());
            let res = mountres3_ok { fhandle: id_to_fh(generation, id).data, auth_flavors: vec![0u32, 1u32] };
            put_opaque(&mut out, res.fhandle.as_slice());
            put_u32s(&mut out, res.auth_flavors.as_slice());
            assert(res.auth_flavors@ =~= seq![0u32, 1u32]);
        },
        Err(_) => {
            put_u32(&mut out, mountstat3::MNT3ERR_NOENT.to_u32());
        },
    }
    out
}

/// NULL: an empty success reply.
pub fn mountproc3_null(xid: u32, output: &mut Vec<u8>)
    ensures
        final(output)@ == old(output)@ + success_bytes(xid),
{
    write_success(output, xid);
}

/// EXPORT: a single export, the export name, with no groups.
pub fn mountproc3_export(xid: u32, output: &mut Vec<u8>, export_name: &[u8])
    requires
        export_name@.len() <= u32::MAX,
    ensures
        final(output)@ == old(output)@ + success_bytes(xid) + bool_enc(true) + opaque_enc(export_name@)
            + bool_enc(false) + bool_enc(false),
{
    write_success(output, xid);
    put_bool(output, true);
    put_opaque(output, export_name);
    put_bool(output, false);
    put_bool(output, false);
}

/// UMNT and UMNTALL: `MNT3_OK`.
pub fn mountproc3_umnt_reply(xid: u32, output: &mut Vec<u8>)
    ensures
        final(output)@ == old(output)@ + success_bytes(xid) + be32(0),
{
    write_success(output, xid);
    put_u32(output, mountstat3::MNT3_OK.to_u32());
}

/// What a MOUNT call leaves to do.
pub enum MountStep {
    /// The reply is written; `signal` is what to send on the mount-event
    /// channel, if one is configured.
    Replied { signal: Option<bool> },
    /// Resolve this canonical path, then reply with `mnt_reply` and send
    /// `true` on success.
    Resolve(Vec<u8>),
}

/// The work of a MOUNT call: by procedure. A MNT path outside the export is
/// answered `MNT3ERR_NOENT` at once.
pub fn handle_mount(xid: u32, call: &call_body, input: &[u8], pos: usize, output: &mut Vec<u8>, export_name: &[u8]) -> (r: Result<MountStep, InvalidData>)
    requires
        export_name@.len() <= u32::MAX,
    ensures
        r is Err ==> final(output)@ == old(output)@,
        call.proc == 0 ==> (r matches Ok(MountStep::Replied { signal: None }) && final(output)@ == old(output)@ + success_bytes(xid)),
        call.proc == 1 ==> (r is Ok <==> dec_opaque(input@, pos as int) is Some),
        call.proc == 1 ==> (dec_opaque(input@, pos as int) matches Some((path, _)) ==> match canonical_path(export_name@, path) {
            Some(c) => (r matches Ok(MountStep::Resolve(p)) && p@ == c && final(output)@ == old(output)@),
            None => (r matches Ok(MountStep::Replied { signal: None }) && final(output)@ == old(output)@ + success_bytes(xid) + be32(2)),
        }),
        call.proc == 3 ==> (r is Ok <==> dec_opaque(input@, pos as int) is Some),
        call.proc == 3 && r is Ok ==> (r matches Ok(MountStep::Replied { signal: Some(false) }) && final(output)@ == old(output)@ + success_bytes(xid) + be32(0)),
        call.proc == 4 ==> (r matches Ok(MountStep::Replied { signal: Some(false) }) && final(output)@ == old(output)@ + success_bytes(xid) + be32(0)),
        call.proc == 5 ==> (r matches Ok(MountStep::Replied { signal: None }) && final(output)@ == old(output)@ + success_bytes(xid) + bool_enc(true) + opaque_enc(export_name@) + bool_enc(false) + bool_enc(false)),
        (call.proc == 2 || call.proc > 5) ==> (r matches Ok(MountStep::Replied { signal: None }) && final(output)@ == old(output)@ + accepted_bytes(xid, accept_body::PROC_UNAVAIL.spec_enc())),
{
    match call.proc {
        0 => {
            mountproc3_null(xid, output);
            Ok(MountStep::Replied { signal: None })
        },
        1 => {
            let (path, _) = match get_opaque(input, pos) { Some(x) => x, None => { return Err(InvalidData); } };
            match mnt_path(export_name, path.as_slice()) {
                Some(p) => Ok(MountStep::Resolve(p)),
                None => {
                    write_success(output, xid);
                    put_u32(output, mountstat3::MNT3ERR_NOENT.to_u32());
                    Ok(MountStep::Replied { signal: None })
                },
            }
        },
        3 => {
            match get_opaque(input, pos) { Some(_) => {}, None => { return Err(InvalidData); } };
            mountproc3_umnt_reply(xid, output);
            Ok(MountStep::Replied { signal: Some(false) })
        },
        4 => {
            mountproc3_umnt_reply(xid, output);
            Ok(MountStep::Replied { signal: Some(false) })
        },
        5 => {
            mountproc3_export(xid, output, export_name);
            Ok(MountStep::Replied { signal: None })
        },
        _ => {
            write_accepted(output, xid, accept_body::PROC_UNAVAIL);
            Ok(MountStep::Replied { signal: None })
        },
    }
}

} // verus!
