//! NFSv3 (RFC 1813) wire types and their XDR encoding.
#![allow(non_camel_case_types)]

use vstd::prelude::*;
use crate::xdr::{
    Serialize, SerializeEnum, be32, be64, bool_enc, dec_opaque, fixed_enc, opaque_enc, get_opaque,
    put_bool, put_fixed, put_opaque, put_u32, put_u64,
};

verus! {

/// RPC program number of NFS.
pub const PROGRAM: u32 = 100003;

/// The NFS version served.
pub const VERSION: u32 = 3;

/// Largest file handle on the wire.
pub const NFS3_FHSIZE: u32 = 64;

pub const ACCESS3_READ: u32 = 0x0001;
pub const ACCESS3_LOOKUP: u32 = 0x0002;
pub const ACCESS3_MODIFY: u32 = 0x0004;
pub const ACCESS3_EXTEND: u32 = 0x0008;
pub const ACCESS3_DELETE: u32 = 0x0010;
pub const ACCESS3_EXECUTE: u32 = 0x0020;

/// A file or path name: opaque bytes.
#[derive(Clone, Debug)]
pub struct nfsstring(pub Vec<u8>);

impl nfsstring {
    pub fn len(&self) -> (r: usize)
        ensures
            r == self.0@.len(),
    {
        self.0.len()
    }

    pub fn is_empty(&self) -> (r: bool)
        ensures
            r == (self.0@.len() == 0),
    {
        self.0.len() == 0
    }
}

impl Serialize for nfsstring {
    open spec fn spec_enc(&self) -> Seq<u8> {
        opaque_enc(self.0@)
    }

    open spec fn spec_encodable(&self) -> bool {
        self.0@.len() <= u32::MAX
    }

    fn serialize(&self, dest: &mut Vec<u8>) {
        put_opaque(dest, self.0.as_slice());
    }
}

/// The NFSv3 procedures.
#[derive(Clone, Copy, Debug, PartialEq, Eq, Structural)]
pub enum NFSProgram {
    NFSPROC3_NULL,
    NFSPROC3_GETATTR,
    NFSPROC3_SETATTR,
    NFSPROC3_LOOKUP,
    NFSPROC3_ACCESS,
    NFSPROC3_READLINK,
    NFSPROC3_READ,
    NFSPROC3_WRITE,
    NFSPROC3_CREATE,
    NFSPROC3_MKDIR,
    NFSPROC3_SYMLINK,
    NFSPROC3_MKNOD,
    NFSPROC3_REMOVE,
    NFSPROC3_RMDIR,
    NFSPROC3_RENAME,
    NFSPROC3_LINK,
    NFSPROC3_READDIR,
    NFSPROC3_READDIRPLUS,
    NFSPROC3_FSSTAT,
    NFSPROC3_FSINFO,
    NFSPROC3_PATHCONF,
    NFSPROC3_COMMIT,
    INVALID,
}

/// Status of an NFSv3 procedure.
#[derive(Clone, Copy, Debug, PartialEq, Eq, Structural)]
pub enum nfsstat3 {
    NFS3_OK,
    NFS3ERR_PERM,
    NFS3ERR_NOENT,
    NFS3ERR_IO,
    NFS3ERR_NXIO,
    NFS3ERR_ACCES,
    NFS3ERR_EXIST,
    NFS3ERR_XDEV,
    NFS3ERR_NODEV,
    NFS3ERR_NOTDIR,
    NFS3ERR_ISDIR,
    NFS3ERR_INVAL,
    NFS3ERR_FBIG,
    NFS3ERR_NOSPC,
    NFS3ERR_ROFS,
    NFS3ERR_MLINK,
    NFS3ERR_NAMETOOLONG,
    NFS3ERR_NOTEMPTY,
    NFS3ERR_DQUOT,
    NFS3ERR_STALE,
    NFS3ERR_REMOTE,
    NFS3ERR_BADHANDLE,
    NFS3ERR_NOT_SYNC,
    NFS3ERR_BAD_COOKIE,
    NFS3ERR_NOTSUPP,
    NFS3ERR_TOOSMALL,
    NFS3ERR_SERVERFAULT,
    NFS3ERR_BADTYPE,
    NFS3ERR_JUKEBOX,
}

impl nfsstat3 {
    pub open spec fn value(&self) -> u32 {
        match self {
            nfsstat3::NFS3_OK => 0,
            nfsstat3::NFS3ERR_PERM => 1,
            nfsstat3::NFS3ERR_NOENT => 2,
            nfsstat3::NFS3ERR_IO => 5,
            nfsstat3::NFS3ERR_NXIO => 6,
            nfsstat3::NFS3ERR_ACCES => 13,
            nfsstat3::NFS3ERR_EXIST => 17,
            nfsstat3::NFS3ERR_XDEV => 18,
            nfsstat3::NFS3ERR_NODEV => 19,
            nfsstat3::NFS3ERR_NOTDIR => 20,
            nfsstat3::NFS3ERR_ISDIR => 21,
            nfsstat3::NFS3ERR_INVAL => 22,
            nfsstat3::NFS3ERR_FBIG => 27,
            nfsstat3::NFS3ERR_NOSPC => 28,
            nfsstat3::NFS3ERR_ROFS => 30,
            nfsstat3::NFS3ERR_MLINK => 31,
            nfsstat3::NFS3ERR_NAMETOOLONG => 63,
            nfsstat3::NFS3ERR_NOTEMPTY => 66,
            nfsstat3::NFS3ERR_DQUOT => 69,
            nfsstat3::NFS3ERR_STALE => 70,
            nfsstat3::NFS3ERR_REMOTE => 71,
            nfsstat3::NFS3ERR_BADHANDLE => 10001,
            nfsstat3::NFS3ERR_NOT_SYNC => 10002,
            nfsstat3::NFS3ERR_BAD_COOKIE => 10003,
            nfsstat3::NFS3ERR_NOTSUPP => 10004,
            nfsstat3::NFS3ERR_TOOSMALL => 10005,
            nfsstat3::NFS3ERR_SERVERFAULT => 10006,
            nfsstat3::NFS3ERR_BADTYPE => 10007,
            nfsstat3::NFS3ERR_JUKEBOX => 10008,
        }
    }

    pub fn to_u32(&self) -> (r: u32)
        ensures
            r == self.value(),
    {
        match self {
            nfsstat3::NFS3_OK => 0,
            nfsstat3::NFS3ERR_PERM => 1,
            nfsstat3::NFS3ERR_NOENT => 2,
            nfsstat3::NFS3ERR_IO => 5,
            nfsstat3::NFS3ERR_NXIO => 6,
            nfsstat3::NFS3ERR_ACCES => 13,
            nfsstat3::NFS3ERR_EXIST => 17,
            nfsstat3::NFS3ERR_XDEV => 18,
            nfsstat3::NFS3ERR_NODEV => 19,
            nfsstat3::NFS3ERR_NOTDIR => 20,
            nfsstat3::NFS3ERR_ISDIR => 21,
            nfsstat3::NFS3ERR_INVAL => 22,
            nfsstat3::NFS3ERR_FBIG => 27,
            nfsstat3::NFS3ERR_NOSPC => 28,
            nfsstat3::NFS3ERR_ROFS => 30,
            nfsstat3::NFS3ERR_MLINK => 31,
            nfsstat3::NFS3ERR_NAMETOOLONG => 63,
            nfsstat3::NFS3ERR_NOTEMPTY => 66,
            nfsstat3::NFS3ERR_DQUOT => 69,
            nfsstat3::NFS3ERR_STALE => 70,
            nfsstat3::NFS3ERR_REMOTE => 71,
            nfsstat3::NFS3ERR_BADHANDLE => 10001,
            nfsstat3::NFS3ERR_NOT_SYNC => 10002,
            nfsstat3::NFS3ERR_BAD_COOKIE => 10003,
            nfsstat3::NFS3ERR_NOTSUPP => 10004,
            nfsstat3::NFS3ERR_TOOSMALL => 10005,
            nfsstat3::NFS3ERR_SERVERFAULT => 10006,
            nfsstat3::NFS3ERR_BADTYPE => 10007,
            nfsstat3::NFS3ERR_JUKEBOX => 10008,
        }
    }
}

impl Serialize for nfsstat3 {
    open spec fn spec_enc(&self) -> Seq<u8> {
        be32(self.value())
    }

    open spec fn spec_encodable(&self) -> bool {
        true
    }

    fn serialize(&self, dest: &mut Vec<u8>) {
        put_u32(dest, self.to_u32());
    }
}

impl SerializeEnum for nfsstat3 {
    open spec fn spec_value(&self) -> u32 {
        self.value()
    }
}

/// Type of a file system object.
#[derive(Clone, Copy, Debug, PartialEq, Eq, Structural)]
pub enum ftype3 {
    NF3REG,
    NF3DIR,
    NF3BLK,
    NF3CHR,
    NF3LNK,
    NF3SOCK,
    NF3FIFO,
}

impl ftype3 {
    pub open spec fn value(&self) -> u32 {
        match self {
            ftype3::NF3REG => 1,
            ftype3::NF3DIR => 2,
            ftype3::NF3BLK => 3,
            ftype3::NF3CHR => 4,
            ftype3::NF3LNK => 5,
            ftype3::NF3SOCK => 6,
            ftype3::NF3FIFO => 7,
        }
    }

    pub fn to_u32(&self) -> (r: u32)
        ensures
            r == self.value(),
    {
        match self {
            ftype3::NF3REG => 1,
            ftype3::NF3DIR => 2,
            ftype3::NF3BLK => 3,
            ftype3::NF3CHR => 4,
            ftype3::NF3LNK => 5,
            ftype3::NF3SOCK => 6,
            ftype3::NF3FIFO => 7,
        }
    }
}

impl Serialize for ftype3 {
    open spec fn spec_enc(&self) -> Seq<u8> {
        be32(self.value())
    }

    open spec fn spec_encodable(&self) -> bool {
        true
    }

    fn serialize(&self, dest: &mut Vec<u8>) {
        put_u32(dest, self.to_u32());
    }
}

impl SerializeEnum for ftype3 {
    open spec fn spec_value(&self) -> u32 {
        self.value()
    }
}

/// Major and minor device numbers.
#[derive(Clone, Copy, Debug, PartialEq, Eq, Structural)]
pub struct specdata3 {
    pub specdata1: u32,
    pub specdata2: u32,
}

impl Serialize for specdata3 {
    open spec fn spec_enc(&self) -> Seq<u8> {
        be32(self.specdata1) + be32(self.specdata2)
    }

    open spec fn spec_encodable(&self) -> bool {
        true
    }

    fn serialize(&self, dest: &mut Vec<u8>) {
        put_u32(dest, self.specdata1);
        put_u32(dest, self.specdata2);
        assert(dest@ =~= old(dest)@ + self.spec_enc());
    }
}

/// A time: seconds and nanoseconds since the epoch.
#[derive(Clone, Copy, Debug, PartialEq, Eq, Structural)]
pub struct nfstime3 {
    pub seconds: u32,
    pub nseconds: u32,
}

impl Serialize for nfstime3 {
    open spec fn spec_enc(&self) -> Seq<u8> {
        be32(self.seconds) + be32(self.nseconds)
    }

    open spec fn spec_encodable(&self) -> bool {
        true
    }

    fn serialize(&self, dest: &mut Vec<u8>) {
        put_u32(dest, self.seconds);
        put_u32(dest, self.nseconds);
        assert(dest@ =~= old(dest)@ + self.spec_enc());
    }
}

/// The attributes of a file system object.
#[derive(Clone, Copy, Debug, PartialEq, Eq, Structural)]
pub struct fattr3 {
    pub ftype: ftype3,
    pub mode: u32,
    pub nlink: u32,
    pub uid: u32,
    pub gid: u32,
    pub size: u64,
    pub used: u64,
    pub rdev: specdata3,
    pub fsid: u64,
    pub fileid: u64,
    pub atime: nfstime3,
    pub mtime: nfstime3,
    pub ctime: nfstime3,
}

impl Serialize for fattr3 {
    open spec fn spec_enc(&self) -> Seq<u8> {
        be32(self.ftype.value()) + be32(self.mode) + be32(self.nlink) + be32(self.uid) + be32(
            self.gid,
        ) + be64(self.size) + be64(self.used) + self.rdev.spec_enc() + be64(self.fsid) + be64(
            self.fileid,
        ) + self.atime.spec_enc() + self.mtime.spec_enc() + self.ctime.spec_enc()
    }

    open spec fn spec_encodable(&self) -> bool {
        true
    }

    fn serialize(&self, dest: &mut Vec<u8>) {
        put_u32(dest, self.ftype.to_u32());
        put_u32(dest, self.mode);
        put_u32(dest, self.nlink);
        put_u32(dest, self.uid);
        put_u32(dest, self.gid);
        put_u64(dest, self.size);
        put_u64(dest, self.used);
        self.rdev.serialize(dest);
        put_u64(dest, self.fsid);
        put_u64(dest, self.fileid);
        self.atime.serialize(dest);
        self.mtime.serialize(dest);
        self.ctime.serialize(dest);
        assert(dest@ =~= old(dest)@ + self.spec_enc());
    }
}

/// The attributes a client caches to detect change: size, mtime, ctime.
#[derive(Clone, Copy, Debug, PartialEq, Eq, Structural)]
pub struct wcc_attr {
    pub size: u64,
    pub mtime: nfstime3,
    pub ctime: nfstime3,
}

impl wcc_attr {
    /// The cached part of full attributes.
    pub fn from_fattr3(a: &fattr3) -> (r: wcc_attr)
        ensures
            r == (wcc_attr { size: a.size, mtime: a.mtime, ctime: a.ctime }),
    {
        wcc_attr { size: a.size, mtime: a.mtime, ctime: a.ctime }
    }
}

impl Serialize for wcc_attr {
    open spec fn spec_enc(&self) -> Seq<u8> {
        be64(self.size) + self.mtime.spec_enc() + self.ctime.spec_enc()
    }

    open spec fn spec_encodable(&self) -> bool {
        true
    }

    fn serialize(&self, dest: &mut Vec<u8>) {
        put_u64(dest, self.size);
        self.mtime.serialize(dest);
        self.ctime.serialize(dest);
        assert(dest@ =~= old(dest)@ + self.spec_enc());
    }
}

/// Attributes before an operation, if known.
#[derive(Clone, Copy, Debug, PartialEq, Eq, Structural)]
pub enum pre_op_attr {
    Void,
    attributes(wcc_attr),
}

impl Serialize for pre_op_attr {
    open spec fn spec_enc(&self) -> Seq<u8> {
        match self {
            pre_op_attr::Void => bool_enc(false),
            pre_op_attr::attributes(a) => bool_enc(true) + a.spec_enc(),
        }
    }

    open spec fn spec_encodable(&self) -> bool {
        true
    }

    fn serialize(&self, dest: &mut Vec<u8>) {
        match self {
            pre_op_attr::Void => put_bool(dest, false),
            pre_op_attr::attributes(a) => {
                put_bool(dest, true);
                a.serialize(dest);
            },
        }
        assert(dest@ =~= old(dest)@ + self.spec_enc());
    }
}

/// Attributes after an operation, if known.
#[derive(Clone, Copy, Debug, PartialEq, Eq, Structural)]
pub enum post_op_attr {
    Void,
    attributes(fattr3),
}

impl Serialize for post_op_attr {
    open spec fn spec_enc(&self) -> Seq<u8> {
        match self {
            post_op_attr::Void => bool_enc(false),
            post_op_attr::attributes(a) => bool_enc(true) + a.spec_enc(),
        }
    }

    open spec fn spec_encodable(&self) -> bool {
        true
    }

    fn serialize(&self, dest: &mut Vec<u8>) {
        match self {
            post_op_attr::Void => put_bool(dest, false),
            post_op_attr::attributes(a) => {
                put_bool(dest, true);
                a.serialize(dest);
            },
        }
        assert(dest@ =~= old(dest)@ + self.spec_enc());
    }
}

/// Weak cache consistency data: attributes before and after an operation.
#[derive(Clone, Copy, Debug, PartialEq, Eq, Structural)]
pub struct wcc_data {
    pub before: pre_op_attr,
    pub after: post_op_attr,
}

impl Serialize for wcc_data {
    open spec fn spec_enc(&self) -> Seq<u8> {
        self.before.spec_enc() + self.after.spec_enc()
    }

    open spec fn spec_encodable(&self) -> bool {
        true
    }

    fn serialize(&self, dest: &mut Vec<u8>) {
        self.before.serialize(dest);
        self.after.serialize(dest);
        assert(dest@ =~= old(dest)@ + self.spec_enc());
    }
}

/// A file handle: opaque bytes.
#[derive(Clone, Debug)]
pub struct nfs_fh3 {
    pub data: Vec<u8>,
}

impl Serialize for nfs_fh3 {
    open spec fn spec_enc(&self) -> Seq<u8> {
        opaque_enc(self.data@)
    }

    open spec fn spec_encodable(&self) -> bool {
        self.data@.len() <= u32::MAX
    }

    fn serialize(&self, dest: &mut Vec<u8>) {
        put_opaque(dest, self.data.as_slice());
    }
}

impl nfs_fh3 {
    pub fn deserialize(src: &[u8], pos: usize) -> (r: Option<(nfs_fh3, usize)>)
        ensures
            r matches Some((h, p)) ==> dec_opaque(src@, pos as int) == Some((h.data@, p as int)),
            r is None <==> dec_opaque(src@, pos as int) is None,
    {
        match get_opaque(src, pos) {
            Some((data, p)) => Some((nfs_fh3 { data }, p)),
            None => None,
        }
    }
}

/// A file handle, if one is returned.
#[derive(Clone, Debug)]
pub enum post_op_fh3 {
    Void,
    handle(nfs_fh3),
}

impl Serialize for post_op_fh3 {
    open spec fn spec_enc(&self) -> Seq<u8> {
        match self {
            post_op_fh3::Void => bool_enc(false),
            post_op_fh3::handle(h) => bool_enc(true) + h.spec_enc(),
        }
    }

    open spec fn spec_encodable(&self) -> bool {
        match self {
            post_op_fh3::Void => true,
            post_op_fh3::handle(h) => h.spec_encodable(),
        }
    }

    fn serialize(&self, dest: &mut Vec<u8>) {
        match self {
            post_op_fh3::Void => put_bool(dest, false),
            post_op_fh3::handle(h) => {
                put_bool(dest, true);
                h.serialize(dest);
            },
        }
        assert(dest@ =~= old(dest)@ + self.spec_enc());
    }
}

/// An 8-byte verifier (cookie, create or write verifier).
pub open spec fn verf_enc(v: [u8; 8]) -> Seq<u8> {
    fixed_enc(v@)
}

/// Appends an 8-byte verifier.
pub fn put_verf(dest: &mut Vec<u8>, v: &[u8; 8])
    ensures
        final(dest)@ == old(dest)@ + verf_enc(*v),
{
    put_fixed(dest, v.as_slice());
}

/// The handle of the export root in the MOUNT protocol's own format.
pub fn get_root_mount_handle() -> (r: Vec<u8>)
    ensures
        r@ == seq![0u8],
{
    let r = vec![0u8];
    assert(r@ =~= seq![0u8]);
    r
}

} // verus!
