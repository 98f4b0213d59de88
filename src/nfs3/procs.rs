//! The NFSv3 procedures' decisions and replies. The file system's calls are
//! made by the caller; these functions decide from their results and encode
//! the reply. Every reply of a procedure that changes a directory carries one
//! `wcc_data` for each directory it touched, on failure as on success.
use vstd::prelude::*;
use crate::nfs3::args::{createmode3, mknoddata3, sattr3, sattrguard3};
use crate::nfs3::types::specdata3;
use crate::nfs3::handle::{fh_bytes, id_to_fh, server_id, le64};
use crate::nfs3::types::{
    ACCESS3_DELETE, ACCESS3_EXECUTE, ACCESS3_EXTEND, ACCESS3_LOOKUP, ACCESS3_MODIFY, ACCESS3_READ,
    NFSProgram, fattr3, ftype3, nfsstat3, nfstime3, post_op_attr, post_op_fh3, pre_op_attr,
    put_verf, wcc_attr, wcc_data,
};
use crate::nfs3::args::stable_how;
use crate::nfs3::results::{COMMIT3resok, FSSTAT3resok, PATHCONF3resok, READ3resok, WRITE3resok, fsinfo3};
use crate::rpc::{success_bytes, write_success};
use crate::xdr::{Serialize, be32, be64, bool_enc, fixed_enc, opaque_enc, put_bool, put_opaque, put_u32, put_u64};

verus! {

/// Whether the file system accepts changes.
#[derive(Clone, Copy, Debug, PartialEq, Eq, Structural)]
pub enum Capabilities {
    ReadOnly,
    ReadWrite,
}

impl NFSProgram {
    pub open spec fn spec_from_u32(v: u32) -> NFSProgram {
        if v == 0 { NFSProgram::NFSPROC3_NULL }
        else if v == 1 { NFSProgram::NFSPROC3_GETATTR }
        else if v == 2 { NFSProgram::NFSPROC3_SETATTR }
        else if v == 3 { NFSProgram::NFSPROC3_LOOKUP }
        else if v == 4 { NFSProgram::NFSPROC3_ACCESS }
        else if v == 5 { NFSProgram::NFSPROC3_READLINK }
        else if v == 6 { NFSProgram::NFSPROC3_READ }
        else if v == 7 { NFSProgram::NFSPROC3_WRITE }
        else if v == 8 { NFSProgram::NFSPROC3_CREATE }
        else if v == 9 { NFSProgram::NFSPROC3_MKDIR }
        else if v == 10 { NFSProgram::NFSPROC3_SYMLINK }
        else if v == 11 { NFSProgram::NFSPROC3_MKNOD }
        else if v == 12 { NFSProgram::NFSPROC3_REMOVE }
        else if v == 13 { NFSProgram::NFSPROC3_RMDIR }
        else if v == 14 { NFSProgram::NFSPROC3_RENAME }
        else if v == 15 { NFSProgram::NFSPROC3_LINK }
        else if v == 16 { NFSProgram::NFSPROC3_READDIR }
        else if v == 17 { NFSProgram::NFSPROC3_READDIRPLUS }
        else if v == 18 { NFSProgram::NFSPROC3_FSSTAT }
        else if v == 19 { NFSProgram::NFSPROC3_FSINFO }
        else if v == 20 { NFSProgram::NFSPROC3_PATHCONF }
        else if v == 21 { NFSProgram::NFSPROC3_COMMIT }
        else { NFSProgram::INVALID }
    }

    /// The procedure numbered `v`; unknown numbers are `INVALID`, which is
    /// answered with `PROC_UNAVAIL`.
    pub fn from_u32(v: u32) -> (r: NFSProgram)
        ensures
            r == Self::spec_from_u32(v),
    {
        match v {
            0 => NFSProgram::NFSPROC3_NULL,
            1 => NFSProgram::NFSPROC3_GETATTR,
            2 => NFSProgram::NFSPROC3_SETATTR,
            3 => NFSProgram::NFSPROC3_LOOKUP,
            4 => NFSProgram::NFSPROC3_ACCESS,
            5 => NFSProgram::NFSPROC3_READLINK,
            6 => NFSProgram::NFSPROC3_READ,
            7 => NFSProgram::NFSPROC3_WRITE,
            8 => NFSProgram::NFSPROC3_CREATE,
            9 => NFSProgram::NFSPROC3_MKDIR,
            10 => NFSProgram::NFSPROC3_SYMLINK,
            11 => NFSProgram::NFSPROC3_MKNOD,
            12 => NFSProgram::NFSPROC3_REMOVE,
            13 => NFSProgram::NFSPROC3_RMDIR,
            14 => NFSProgram::NFSPROC3_RENAME,
            15 => NFSProgram::NFSPROC3_LINK,
            16 => NFSProgram::NFSPROC3_READDIR,
            17 => NFSProgram::NFSPROC3_READDIRPLUS,
            18 => NFSProgram::NFSPROC3_FSSTAT,
            19 => NFSProgram::NFSPROC3_FSINFO,
            20 => NFSProgram::NFSPROC3_PATHCONF,
            21 => NFSProgram::NFSPROC3_COMMIT,
            _ => NFSProgram::INVALID,
        }
    }
}

/// The access bits an object of type `t` allows: LOOKUP always; read and
/// execute for files, directories and others; changes to files and
/// directories only when writable; read alone for symbolic links.
pub open spec fn allowed_access(t: ftype3, writable: bool) -> u32 {
    let change = if writable { ACCESS3_MODIFY | ACCESS3_EXTEND | ACCESS3_DELETE } else { 0u32 };
    match t {
        ftype3::NF3REG => ACCESS3_LOOKUP | ACCESS3_READ | ACCESS3_EXECUTE | change,
        ftype3::NF3DIR => ACCESS3_LOOKUP | ACCESS3_READ | ACCESS3_EXECUTE | change,
        ftype3::NF3LNK => ACCESS3_LOOKUP | ACCESS3_READ,
        _ => ACCESS3_LOOKUP | ACCESS3_READ | ACCESS3_EXECUTE,
    }
}

/// The access granted: the requested bits that the object's type allows.
pub fn granted_access(requested: u32, ftype: ftype3, caps: Capabilities) -> (r: u32)
    ensures
        r == requested & allowed_access(ftype, caps == Capabilities::ReadWrite),
{
    let writable = match caps {
        Capabilities::ReadWrite => true,
        Capabilities::ReadOnly => false,
    };
    let change: u32 = if writable { ACCESS3_MODIFY | ACCESS3_EXTEND | ACCESS3_DELETE } else { 0 };
    let allowed: u32 = match ftype {
        ftype3::NF3REG => ACCESS3_LOOKUP | ACCESS3_READ | ACCESS3_EXECUTE | change,
        ftype3::NF3DIR => ACCESS3_LOOKUP | ACCESS3_READ | ACCESS3_EXECUTE | change,
        ftype3::NF3LNK => ACCESS3_LOOKUP | ACCESS3_READ,
        _ => ACCESS3_LOOKUP | ACCESS3_READ | ACCESS3_EXECUTE,
    };
    requested & allowed
}

/// Granted access never holds a bit that was not requested.
pub proof fn lemma_access_within_request(requested: u32, t: ftype3, writable: bool)
    ensures
        (requested & allowed_access(t, writable)) & !requested == 0,
{
    let a = allowed_access(t, writable);
    assert((requested & a) & !requested == 0) by (bit_vector);
}

/// The reply head of every NFS result: RPC success and the status.
pub open spec fn status_head(xid: u32, stat: nfsstat3) -> Seq<u8> {
    success_bytes(xid) + stat.spec_enc()
}

fn write_status(out: &mut Vec<u8>, xid: u32, stat: nfsstat3)
    ensures
        final(out)@ == old(out)@ + status_head(xid, stat),
{
    write_success(out, xid);
    stat.serialize(out);
}

/// ACCESS: the object's attributes and the granted mask; on failure, the
/// status and no attributes.
pub fn access_reply(xid: u32, attr: Result<fattr3, nfsstat3>, requested: u32, caps: Capabilities) -> (r: Vec<u8>)
    ensures
        r@ == match attr {
            Ok(a) => status_head(xid, nfsstat3::NFS3_OK) + post_op_attr::attributes(a).spec_enc()
                + be32(requested & allowed_access(a.ftype, caps == Capabilities::ReadWrite)),
            Err(e) => status_head(xid, e) + post_op_attr::Void.spec_enc(),
        },
{
    let mut out: Vec<u8> = Vec::new();
    match attr {
        Ok(a) => {
            write_status(&mut out, xid, nfsstat3::NFS3_OK);
            post_op_attr::attributes(a).serialize(&mut out);
            put_u32(&mut out, granted_access(requested, a.ftype, caps));
        },
        Err(e) => {
            write_status(&mut out, xid, e);
            post_op_attr::Void.serialize(&mut out);
        },
    }
    out
}

/// The cached part of attributes, if they were read.
pub open spec fn spec_pre_op(a: Option<fattr3>) -> pre_op_attr {
    match a {
        Some(a) => pre_op_attr::attributes(wcc_attr { size: a.size, mtime: a.mtime, ctime: a.ctime }),
        None => pre_op_attr::Void,
    }
}

pub open spec fn spec_post_op(a: Option<fattr3>) -> post_op_attr {
    match a {
        Some(a) => post_op_attr::attributes(a),
        None => post_op_attr::Void,
    }
}

/// The wcc data of a directory from its attributes before and after.
pub fn make_wcc(before: Option<fattr3>, after: Option<fattr3>) -> (r: wcc_data)
    ensures
        r == (wcc_data { before: spec_pre_op(before), after: spec_post_op(after) }),
{
    let b = match before {
        Some(a) => pre_op_attr::attributes(wcc_attr::from_fattr3(&a)),
        None => pre_op_attr::Void,
    };
    let f = match after {
        Some(a) => post_op_attr::attributes(a),
        None => post_op_attr::Void,
    };
    wcc_data { before: b, after: f }
}

/// The wcc data units one after another.
pub open spec fn wccs_enc(w: Seq<wcc_data>) -> Seq<u8>
    decreases w.len(),
{
    if w.len() == 0 {
        Seq::empty()
    } else {
        wccs_enc(w.drop_last()) + w.last().spec_enc()
    }
}

/// A reply of status and one wcc data unit per touched directory: REMOVE,
/// RMDIR and SETATTR touch one, RENAME two (from-directory, to-directory).
pub fn wcc_reply(xid: u32, stat: nfsstat3, wccs: &Vec<wcc_data>) -> (r: Vec<u8>)
    ensures
        r@ == status_head(xid, stat) + wccs_enc(wccs@),
{
    let mut out: Vec<u8> = Vec::new();
    write_status(&mut out, xid, stat);
    let ghost head = out@;
    let mut i: usize = 0;
    while i < wccs.len()
        invariant
            i <= wccs@.len(),
            head == status_head(xid, stat),
            out@ == head + wccs_enc(wccs@.take(i as int)),
        decreases wccs@.len() - i,
    {
        wccs[i].serialize(&mut out);
        assert(wccs@.take(i + 1).drop_last() =~= wccs@.take(i as int));
        i = i + 1;
    }
    assert(wccs@.take(i as int) =~= wccs@);
    out
}

/// The bytes of a reply that creates an object (CREATE, MKDIR, SYMLINK,
/// MKNOD): on success its handle and attributes, then the directory's wcc
/// data; on failure the status and the wcc data.
pub open spec fn create_reply_bytes(xid: u32, generation: u64, res: Result<(u64, fattr3), nfsstat3>, dir_wcc: wcc_data) -> Seq<u8> {
    match res {
        Ok((id, a)) => status_head(xid, nfsstat3::NFS3_OK) + bool_enc(true) + opaque_enc(
            fh_bytes(generation, id),
        ) + post_op_attr::attributes(a).spec_enc() + dir_wcc.spec_enc(),
        Err(e) => status_head(xid, e) + dir_wcc.spec_enc(),
    }
}

pub fn create_reply(xid: u32, generation: u64, res: Result<(u64, fattr3), nfsstat3>, dir_wcc: &wcc_data) -> (r: Vec<u8>)
    ensures
        r@ == create_reply_bytes(xid, generation, res, *dir_wcc),
{
    let mut out: Vec<u8> = Vec::new();
    match res {
        Ok((id, a)) => {
            write_status(&mut out, xid, nfsstat3::NFS3_OK);
            let fh = post_op_fh3::handle(id_to_fh(generation, id));
            fh.serialize(&mut out);
            post_op_attr::attributes(a).serialize(&mut out);
        },
        Err(e) => {
            write_status(&mut out, xid, e);
        },
    }
    dir_wcc.serialize(&mut out);
    out
}

/// A guarded CREATE of a name that already resolves fails with `EXIST`;
/// other modes go on to the file system.
pub fn create_guard(mode: createmode3, name_exists: bool) -> (r: Option<nfsstat3>)
    ensures
        r == (if mode == createmode3::GUARDED && name_exists {
            Some(nfsstat3::NFS3ERR_EXIST)
        } else {
            None::<nfsstat3>
        }),
{
    if mode == createmode3::GUARDED && name_exists {
        Some(nfsstat3::NFS3ERR_EXIST)
    } else {
        None
    }
}

/// SETATTR's guard: a ctime that differs from the object's fails with
/// `NOT_SYNC`.
pub fn setattr_guard(guard: sattrguard3, current_ctime: nfstime3) -> (r: Option<nfsstat3>)
    ensures
        r == (match guard {
            sattrguard3::obj_ctime(t) => if t != current_ctime {
                Some(nfsstat3::NFS3ERR_NOT_SYNC)
            } else {
                None::<nfsstat3>
            },
            sattrguard3::Void => None::<nfsstat3>,
        }),
{
    match guard {
        sattrguard3::obj_ctime(t) => if t.seconds != current_ctime.seconds || t.nseconds
            != current_ctime.nseconds {
            Some(nfsstat3::NFS3ERR_NOT_SYNC)
        } else {
            None
        },
        sattrguard3::Void => None,
    }
}

/// A mutating procedure on a read-only file system fails with `ROFS`.
pub fn check_writable(caps: Capabilities) -> (r: Option<nfsstat3>)
    ensures
        r == (if caps == Capabilities::ReadOnly { Some(nfsstat3::NFS3ERR_ROFS) } else { None::<nfsstat3> }),
{
    match caps {
        Capabilities::ReadOnly => Some(nfsstat3::NFS3ERR_ROFS),
        Capabilities::ReadWrite => None,
    }
}

/// WRITE's data must be exactly `count` bytes; otherwise the arguments are
/// garbage.
pub fn write_count_ok(count: u32, data_len: usize) -> (r: bool)
    ensures
        r == (data_len == count),
{
    data_len == count as usize
}

/// The bytes of a WRITE reply: on success the file's wcc data, the count,
/// how the data was committed and the write verifier (the generation,
/// little-endian); on failure the status and the wcc data.
pub open spec fn write_reply_bytes(xid: u32, generation: u64, res: Result<(u32, stable_how), nfsstat3>, file_wcc: wcc_data) -> Seq<u8> {
    match res {
        Ok((count, committed)) => status_head(xid, nfsstat3::NFS3_OK) + file_wcc.spec_enc() + be32(count)
            + be32(committed.value()) + fixed_enc(le64(generation)),
        Err(e) => status_head(xid, e) + file_wcc.spec_enc(),
    }
}

pub fn write_reply(xid: u32, generation: u64, res: Result<(u32, stable_how), nfsstat3>, file_wcc: &wcc_data) -> (r: Vec<u8>)
    ensures
        r@ == write_reply_bytes(xid, generation, res, *file_wcc),
{
    let mut out: Vec<u8> = Vec::new();
    match res {
        Ok((count, committed)) => {
            write_status(&mut out, xid, nfsstat3::NFS3_OK);
            let res = WRITE3resok { file_wcc: *file_wcc, count, committed, verf: server_id(generation) };
            res.serialize(&mut out);
        },
        Err(e) => {
            write_status(&mut out, xid, e);
            file_wcc.serialize(&mut out);
        },
    }
    out
}

/// The bytes of a COMMIT reply: the file's wcc data and the write verifier.
pub fn commit_reply(xid: u32, generation: u64, res: Result<(), nfsstat3>, file_wcc: &wcc_data) -> (r: Vec<u8>)
    ensures
        r@ == match res {
            Ok(()) => status_head(xid, nfsstat3::NFS3_OK) + file_wcc.spec_enc() + fixed_enc(le64(generation)),
            Err(e) => status_head(xid, e) + file_wcc.spec_enc(),
        },
{
    let mut out: Vec<u8> = Vec::new();
    match res {
        Ok(()) => {
            write_status(&mut out, xid, nfsstat3::NFS3_OK);
            let res = COMMIT3resok { file_wcc: *file_wcc, verf: server_id(generation) };
            res.serialize(&mut out);
        },
        Err(e) => {
            write_status(&mut out, xid, e);
            file_wcc.serialize(&mut out);
        },
    }
    out
}

/// GETATTR: the attributes, or a bare status.
pub fn getattr_reply(xid: u32, res: Result<fattr3, nfsstat3>) -> (r: Vec<u8>)
    ensures
        r@ == match res {
            Ok(a) => status_head(xid, nfsstat3::NFS3_OK) + a.spec_enc(),
            Err(e) => status_head(xid, e),
        },
{
    let mut out: Vec<u8> = Vec::new();
    match res {
        Ok(a) => {
            write_status(&mut out, xid, nfsstat3::NFS3_OK);
            a.serialize(&mut out);
        },
        Err(e) => write_status(&mut out, xid, e),
    }
    out
}

/// LOOKUP: the object's handle and attributes and the directory's
/// attributes; on failure the directory's attributes alone.
pub fn lookup_reply(xid: u32, generation: u64, res: Result<(u64, Option<fattr3>), nfsstat3>, dir_attr: Option<fattr3>) -> (r: Vec<u8>)
    ensures
        r@ == match res {
            Ok((id, a)) => status_head(xid, nfsstat3::NFS3_OK) + opaque_enc(fh_bytes(generation, id))
                + spec_post_op(a).spec_enc() + spec_post_op(dir_attr).spec_enc(),
            Err(e) => status_head(xid, e) + spec_post_op(dir_attr).spec_enc(),
        },
{
    let mut out: Vec<u8> = Vec::new();
    let d = make_wcc(None, dir_attr).after;
    match res {
        Ok((id, a)) => {
            write_status(&mut out, xid, nfsstat3::NFS3_OK);
            let fh = id_to_fh(generation, id);
            fh.serialize(&mut out);
            make_wcc(None, a).after.serialize(&mut out);
            d.serialize(&mut out);
        },
        Err(e) => {
            write_status(&mut out, xid, e);
            d.serialize(&mut out);
        },
    }
    out
}

/// READ: the attributes, the count, the end flag and the data. Reading at or
/// past the end returns no data and `eof = true`.
pub fn read_reply(xid: u32, res: Result<(Vec<u8>, bool), nfsstat3>, attr: Option<fattr3>) -> (r: Vec<u8>)
    requires
        res matches Ok((d, _)) ==> d@.len() <= u32::MAX,
    ensures
        r@ == match res {
            Ok((d, eof)) => status_head(xid, nfsstat3::NFS3_OK) + spec_post_op(attr).spec_enc()
                + be32(d@.len() as u32) + bool_enc(eof) + opaque_enc(d@),
            Err(e) => status_head(xid, e) + spec_post_op(attr).spec_enc(),
        },
{
    let mut out: Vec<u8> = Vec::new();
    let a = make_wcc(None, attr).after;
    match res {
        Ok((data, eof)) => {
            write_status(&mut out, xid, nfsstat3::NFS3_OK);
            let res = READ3resok { file_attributes: a, count: data.len() as u32, eof, data };
            res.serialize(&mut out);
        },
        Err(e) => {
            write_status(&mut out, xid, e);
            a.serialize(&mut out);
        },
    }
    out
}

/// FSSTAT: fixed large totals (1 TiB of space, 1 Gi file slots).
pub fn fsstat_reply(xid: u32, attr: Option<fattr3>) -> (r: Vec<u8>)
    ensures
        r@ == status_head(xid, nfsstat3::NFS3_OK) + spec_post_op(attr).spec_enc() + be64(
            1099511627776,
        ) + be64(1099511627776) + be64(1099511627776) + be64(1073741824) + be64(1073741824)
            + be64(1073741824) + be32(u32::MAX),
{
    let mut out: Vec<u8> = Vec::new();
    write_status(&mut out, xid, nfsstat3::NFS3_OK);
    let res = FSSTAT3resok {
        obj_attributes: make_wcc(None, attr).after,
        tbytes: 1099511627776,
        fbytes: 1099511627776,
        abytes: 1099511627776,
        tfiles: 1073741824,
        ffiles: 1073741824,
        afiles: 1073741824,
        invarsec: u32::MAX,
    };
    res.serialize(&mut out);
    out
}

/// FSINFO's property bits: SYMLINK, HOMOGENEOUS and CANSETTIME.
pub const FSF_PROPERTIES: u32 = 0x0002 | 0x0008 | 0x0010;

/// FSINFO: 1 MiB transfers, 128 GiB files, 1 ms time resolution.
pub fn fsinfo_reply(xid: u32, attr: Option<fattr3>) -> (r: Vec<u8>)
    ensures
        r@ == status_head(xid, nfsstat3::NFS3_OK) + spec_post_op(attr).spec_enc() + be32(1048576)
            + be32(126976) + be32(1048576) + be32(1048576) + be32(1048576) + be32(1048576) + be32(
            1048576,
        ) + be64(137438953472) + be32(0) + be32(1000000) + be32(FSF_PROPERTIES),
{
    let mut out: Vec<u8> = Vec::new();
    write_status(&mut out, xid, nfsstat3::NFS3_OK);
    let res = fsinfo3 {
        obj_attributes: make_wcc(None, attr).after,
        rtmax: 1048576,
        rtpref: 126976,
        rtmult: 1048576,
        wtmax: 1048576,
        wtpref: 1048576,
        wtmult: 1048576,
        dtpref: 1048576,
        maxfilesize: 137438953472,
        time_delta: nfstime3 { seconds: 0, nseconds: 1000000 },
        properties: FSF_PROPERTIES,
    };
    res.serialize(&mut out);
    out
}

/// PATHCONF: no hard links counted, 32768-byte names, no truncation,
/// restricted chown, case-sensitive and case-preserving.
pub fn pathconf_reply(xid: u32, attr: Option<fattr3>) -> (r: Vec<u8>)
    ensures
        r@ == status_head(xid, nfsstat3::NFS3_OK) + spec_post_op(attr).spec_enc() + be32(0) + be32(
            32768,
        ) + bool_enc(true) + bool_enc(true) + bool_enc(false) + bool_enc(true),
{
    let mut out: Vec<u8> = Vec::new();
    write_status(&mut out, xid, nfsstat3::NFS3_OK);
    let res = PATHCONF3resok {
        obj_attributes: make_wcc(None, attr).after,
        linkmax: 0,
        name_max: 32768,
        no_trunc: true,
        chown_restricted: true,
        case_insensitive: false,
        case_preserving: true,
    };
    res.serialize(&mut out);
    out
}

/// A reply that carries only the object's attributes after a failure
/// (READLINK, FSSTAT, FSINFO, PATHCONF).
pub fn attr_error_reply(xid: u32, stat: nfsstat3, attr: Option<fattr3>) -> (r: Vec<u8>)
    ensures
        r@ == status_head(xid, stat) + spec_post_op(attr).spec_enc(),
{
    let mut out: Vec<u8> = Vec::new();
    write_status(&mut out, xid, stat);
    make_wcc(None, attr).after.serialize(&mut out);
    out
}

/// READLINK: the attributes and the link's target.
pub fn readlink_reply(xid: u32, attr: Option<fattr3>, target: &[u8]) -> (r: Vec<u8>)
    requires
        target@.len() <= u32::MAX,
    ensures
        r@ == status_head(xid, nfsstat3::NFS3_OK) + spec_post_op(attr).spec_enc() + opaque_enc(target@),
{
    let mut out: Vec<u8> = Vec::new();
    write_status(&mut out, xid, nfsstat3::NFS3_OK);
    make_wcc(None, attr).after.serialize(&mut out);
    put_opaque(&mut out, target);
    out
}

/// LINK: the file's attributes and the directory's wcc data, on failure too.
pub fn link_reply(xid: u32, stat: nfsstat3, file_attr: Option<fattr3>, dir_wcc: &wcc_data) -> (r: Vec<u8>)
    ensures
        r@ == status_head(xid, stat) + spec_post_op(file_attr).spec_enc() + dir_wcc.spec_enc(),
{
    let mut out: Vec<u8> = Vec::new();
    write_status(&mut out, xid, stat);
    make_wcc(None, file_attr).after.serialize(&mut out);
    dir_wcc.serialize(&mut out);
    out
}

/// NULL: an empty success reply.
pub fn nfsproc3_null(xid: u32, output: &mut Vec<u8>)
    ensures
        final(output)@ == old(output)@ + success_bytes(xid),
{
    write_success(output, xid);
}

/// Whether two attribute sets differ in what identifies a version of a file:
/// file id, mtime, size or type.
pub fn fattr3_differ(lhs: &fattr3, rhs: &fattr3) -> (r: bool)
    ensures
        r == (lhs.fileid != rhs.fileid || lhs.mtime != rhs.mtime || lhs.size != rhs.size
            || lhs.ftype != rhs.ftype),
{
    lhs.fileid != rhs.fileid || lhs.mtime.seconds != rhs.mtime.seconds || lhs.mtime.nseconds
        != rhs.mtime.nseconds || lhs.size != rhs.size || lhs.ftype.to_u32() != rhs.ftype.to_u32()
}

/// REMOVE refuses a directory with `ISDIR`; RMDIR refuses anything else
/// with `NOTDIR`.
pub fn remove_check(rmdir: bool, target: ftype3) -> (r: Option<nfsstat3>)
    ensures
        r == (if rmdir && target != ftype3::NF3DIR {
            Some(nfsstat3::NFS3ERR_NOTDIR)
        } else if !rmdir && target == ftype3::NF3DIR {
            Some(nfsstat3::NFS3ERR_ISDIR)
        } else {
            None::<nfsstat3>
        }),
{
    let is_dir = target == ftype3::NF3DIR;
    if rmdir && !is_dir {
        Some(nfsstat3::NFS3ERR_NOTDIR)
    } else if !rmdir && is_dir {
        Some(nfsstat3::NFS3ERR_ISDIR)
    } else {
        None
    }
}

/// LINK refuses a directory with `ISDIR`, and a name that exists with `EXIST`.
pub fn link_check(file_type: Option<ftype3>, name_exists: bool) -> (r: Option<nfsstat3>)
    ensures
        r == (if file_type == Some(ftype3::NF3DIR) {
            Some(nfsstat3::NFS3ERR_ISDIR)
        } else if name_exists {
            Some(nfsstat3::NFS3ERR_EXIST)
        } else {
            None::<nfsstat3>
        }),
{
    match file_type {
        Some(ftype3::NF3DIR) => Some(nfsstat3::NFS3ERR_ISDIR),
        _ => if name_exists {
            Some(nfsstat3::NFS3ERR_EXIST)
        } else {
            None
        },
    }
}

/// READLINK of anything but a symbolic link is `INVAL`.
pub fn readlink_check(t: ftype3) -> (r: Option<nfsstat3>)
    ensures
        r == (if t != ftype3::NF3LNK { Some(nfsstat3::NFS3ERR_INVAL) } else { None::<nfsstat3> }),
{
    if t != ftype3::NF3LNK {
        Some(nfsstat3::NFS3ERR_INVAL)
    } else {
        None
    }
}

/// What a MKNOD asks of the file system.
pub enum MknodAction {
    /// A directory: as MKDIR.
    Mkdir,
    /// A regular file: as CREATE, with no attributes set.
    Create,
    /// A device, socket or pipe.
    Mknod { ftype: ftype3, device: specdata3, attributes: sattr3 },
    /// Refused with this status.
    Refuse(nfsstat3),
}

/// MKNOD by type: directories and regular files fall back to MKDIR and
/// CREATE; character and block devices, sockets and pipes go to the file
/// system's `mknod`; symbolic links are `BADTYPE`.
pub fn mknod_action(what: &mknoddata3) -> (r: MknodAction)
    ensures
        what.mknod_type == ftype3::NF3DIR ==> r is Mkdir,
        what.mknod_type == ftype3::NF3REG ==> r is Create,
        what.mknod_type != ftype3::NF3DIR && what.mknod_type != ftype3::NF3REG && what.attributes
            is Some ==> r == (MknodAction::Mknod {
            ftype: what.mknod_type,
            device: what.device,
            attributes: what.attributes->Some_0,
        }),
        what.mknod_type != ftype3::NF3DIR && what.mknod_type != ftype3::NF3REG && what.attributes
            is None ==> r == MknodAction::Refuse(nfsstat3::NFS3ERR_BADTYPE),
{
    match what.mknod_type {
        ftype3::NF3DIR => MknodAction::Mkdir,
        ftype3::NF3REG => MknodAction::Create,
        t => match what.attributes {
            Some(a) => MknodAction::Mknod { ftype: t, device: what.device, attributes: a },
            None => MknodAction::Refuse(nfsstat3::NFS3ERR_BADTYPE),
        },
    }
}

/// How many entries to ask the file system for: one per 16 bytes of
/// `dircount`.
pub fn estimated_max_results(dircount: u32) -> (r: usize)
    ensures
        r == dircount / 16,
{
    (dircount / 16) as usize
}

/// The permission bits a mode keeps: owner-write always set, then the low
/// nine bits.
pub fn mode_unmask(mode: u32) -> (r: u32)
    ensures
        r == (mode | 0x80) & 0x1FF,
        r <= 0x1FF,
{
    let r = (mode | 0x80) & 0x1FF;
    assert(((mode | 0x80u32) & 0x1FFu32) <= 0x1FFu32) by (bit_vector);
    r
}

/// What a local file is: a regular file, a symbolic link, or else a
/// directory.
#[derive(Clone, Copy, Debug, PartialEq, Eq, Structural)]
pub enum LocalKind {
    File,
    Symlink,
    Directory,
}

/// The attributes of a local file from its status: the type by kind, one
/// link (two for a directory), the unmasked mode, and `used` equal to `size`.
pub fn attr_from_stat(
    fileid: u64,
    kind: LocalKind,
    mode: u32,
    uid: u32,
    gid: u32,
    size: u64,
    atime: nfstime3,
    mtime: nfstime3,
    ctime: nfstime3,
) -> (r: fattr3)
    ensures
        r.ftype == (match kind {
            LocalKind::File => ftype3::NF3REG,
            LocalKind::Symlink => ftype3::NF3LNK,
            LocalKind::Directory => ftype3::NF3DIR,
        }),
        r.nlink == (if kind == LocalKind::Directory { 2u32 } else { 1u32 }),
        r.mode == (mode | 0x80) & 0x1FF,
        r.uid == uid && r.gid == gid,
        r.size == size && r.used == size,
        r.rdev == (specdata3 { specdata1: 0, specdata2: 0 }),
        r.fsid == 0 && r.fileid == fileid,
        r.atime == atime && r.mtime == mtime && r.ctime == ctime,
{
    let (ftype, nlink) = match kind {
        LocalKind::File => (ftype3::NF3REG, 1u32),
        LocalKind::Symlink => (ftype3::NF3LNK, 1u32),
        LocalKind::Directory => (ftype3::NF3DIR, 2u32),
    };
    fattr3 {
        ftype,
        mode: mode_unmask(mode),
        nlink,
        uid,
        gid,
        size,
        used: size,
        rdev: specdata3 { specdata1: 0, specdata2: 0 },
        fsid: 0,
        fileid,
        atime,
        mtime,
        ctime,
    }
}

} // verus!
