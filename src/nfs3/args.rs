//! Decoding of NFSv3 procedure arguments. Each decoder is specified by a
//! spec function over the bytes; composite arguments read their fields in
//! declaration order.
#![allow(non_camel_case_types)]

use vstd::prelude::*;
use crate::nfs3::types::{ftype3, nfs_fh3, nfsstring, nfstime3, specdata3};
use crate::xdr::{
    Deserialize, DeserializeEnum, dec_bool, dec_fixed, dec_opaque, dec_string, dec_u32, dec_u64, get_bool, get_fixed, get_opaque,
    get_string, get_u32, get_u64,
};

verus! {

/// A name within a directory.
#[derive(Clone, Debug)]
pub struct diropargs3 {
    pub dir: nfs_fh3,
    pub name: nfsstring,
}

pub open spec fn dec_diropargs(s: Seq<u8>, pos: int) -> Option<((Seq<u8>, Seq<u8>), int)> {
    match dec_opaque(s, pos) {
        None => None,
        Some((dir, p)) => match dec_opaque(s, p) {
            None => None,
            Some((name, q)) => Some(((dir, name), q)),
        },
    }
}

impl diropargs3 {
    pub open spec fn view(&self) -> (Seq<u8>, Seq<u8>) {
        (self.dir.data@, self.name.0@)
    }

    pub fn deserialize(src: &[u8], pos: usize) -> (r: Option<(diropargs3, usize)>)
        ensures
            r matches Some((a, p)) ==> dec_diropargs(src@, pos as int) == Some((a.view(), p as int)),
            r is None <==> dec_diropargs(src@, pos as int) is None,
    {
        let (dir, p) = match get_opaque(src, pos) { Some(x) => x, None => { return None; } };
        let (name, q) = match get_opaque(src, p) { Some(x) => x, None => { return None; } };
        Some((diropargs3 { dir: nfs_fh3 { data: dir }, name: nfsstring(name) }, q))
    }
}

/// Arguments of READDIR.
#[derive(Clone, Debug)]
pub struct READDIR3args {
    pub dir: nfs_fh3,
    pub cookie: u64,
    pub cookieverf: Vec<u8>,
    pub dircount: u32,
}

/// The fields of READDIR arguments: handle, cookie, verifier, count.
pub open spec fn dec_readdir_args(s: Seq<u8>, pos: int) -> Option<((Seq<u8>, u64, Seq<u8>, u32), int)> {
    match dec_opaque(s, pos) {
        None => None,
        Some((dir, p)) => match dec_u64(s, p) {
            None => None,
            Some((cookie, p)) => match dec_fixed(s, p, 8) {
                None => None,
                Some((verf, p)) => match dec_u32(s, p) {
                    None => None,
                    Some((count, p)) => Some(((dir, cookie, verf, count), p)),
                },
            },
        },
    }
}

impl READDIR3args {
    pub fn deserialize(src: &[u8], pos: usize) -> (r: Option<(READDIR3args, usize)>)
        ensures
            r matches Some((a, p)) ==> dec_readdir_args(src@, pos as int) == Some(
                ((a.dir.data@, a.cookie, a.cookieverf@, a.dircount), p as int),
            ),
            r is None <==> dec_readdir_args(src@, pos as int) is None,
    {
        let (dir, p) = match get_opaque(src, pos) { Some(x) => x, None => { return None; } };
        let (cookie, p) = match get_u64(src, p) { Some(x) => x, None => { return None; } };
        let (cookieverf, p) = match get_fixed(src, p, 8) { Some(x) => x, None => { return None; } };
        let (dircount, p) = match get_u32(src, p) { Some(x) => x, None => { return None; } };
        Some((READDIR3args { dir: nfs_fh3 { data: dir }, cookie, cookieverf, dircount }, p))
    }
}

/// Arguments of READDIRPLUS.
#[derive(Clone, Debug)]
pub struct READDIRPLUS3args {
    pub dir: nfs_fh3,
    pub cookie: u64,
    pub cookieverf: Vec<u8>,
    pub dircount: u32,
    pub maxcount: u32,
}

impl READDIRPLUS3args {
    /// Decodes READDIRPLUS arguments: the READDIR fields, then `maxcount`.
    pub fn deserialize(src: &[u8], pos: usize) -> (r: Option<(READDIRPLUS3args, usize)>)
        ensures
            r matches Some((a, p)) ==> (dec_readdir_args(src@, pos as int) matches Some((f, q))
                && f == (a.dir.data@, a.cookie, a.cookieverf@, a.dircount) && dec_u32(src@, q)
                == Some((a.maxcount, p as int))),
            r is None <==> (dec_readdir_args(src@, pos as int) is None || dec_u32(
                src@,
                dec_readdir_args(src@, pos as int)->Some_0.1,
            ) is None),
    {
        let (a, p) = match READDIR3args::deserialize(src, pos) { Some(x) => x, None => { return None; } };
        let (maxcount, q) = match get_u32(src, p) { Some(x) => x, None => { return None; } };
        Some((READDIRPLUS3args { dir: a.dir, cookie: a.cookie, cookieverf: a.cookieverf, dircount: a.dircount, maxcount }, q))
    }
}

/// How durably a WRITE must be stored.
#[derive(Clone, Copy, Debug, PartialEq, Eq, Structural)]
pub enum stable_how {
    UNSTABLE,
    DATA_SYNC,
    FILE_SYNC,
}

impl stable_how {
    pub open spec fn value(&self) -> u32 {
        match self {
            stable_how::UNSTABLE => 0,
            stable_how::DATA_SYNC => 1,
            stable_how::FILE_SYNC => 2,
        }
    }

    pub fn to_u32(&self) -> (r: u32)
        ensures
            r == self.value(),
    {
        match self {
            stable_how::UNSTABLE => 0,
            stable_how::DATA_SYNC => 1,
            stable_how::FILE_SYNC => 2,
        }
    }

    pub fn from_u32(v: u32) -> (r: Option<stable_how>)
        ensures
            r matches Some(s) ==> s.value() == v,
            r is None <==> v > 2,
    {
        match v {
            0 => Some(stable_how::UNSTABLE),
            1 => Some(stable_how::DATA_SYNC),
            2 => Some(stable_how::FILE_SYNC),
            _ => None,
        }
    }
}

/// Arguments of WRITE.
#[derive(Clone, Debug)]
pub struct WRITE3args {
    pub file: nfs_fh3,
    pub offset: u64,
    pub count: u32,
    pub stable: u32,
    pub data: Vec<u8>,
}

/// The fields of WRITE arguments: handle, offset, count, stable, data.
pub open spec fn dec_write_args(s: Seq<u8>, pos: int) -> Option<((Seq<u8>, u64, u32, u32, Seq<u8>), int)> {
    match dec_opaque(s, pos) {
        None => None,
        Some((file, p)) => match dec_u64(s, p) {
            None => None,
            Some((offset, p)) => match dec_u32(s, p) {
                None => None,
                Some((count, p)) => match dec_u32(s, p) {
                    None => None,
                    Some((stable, p)) => match dec_opaque(s, p) {
                        None => None,
                        Some((data, p)) => Some(((file, offset, count, stable, data), p)),
                    },
                },
            },
        },
    }
}

impl WRITE3args {
    pub fn deserialize(src: &[u8], pos: usize) -> (r: Option<(WRITE3args, usize)>)
        ensures
            r matches Some((a, p)) ==> dec_write_args(src@, pos as int) == Some(
                ((a.file.data@, a.offset, a.count, a.stable, a.data@), p as int),
            ),
            r is None <==> dec_write_args(src@, pos as int) is None,
    {
        let (file, p) = match get_opaque(src, pos) { Some(x) => x, None => { return None; } };
        let (offset, p) = match get_u64(src, p) { Some(x) => x, None => { return None; } };
        let (count, p) = match get_u32(src, p) { Some(x) => x, None => { return None; } };
        let (stable, p) = match get_u32(src, p) { Some(x) => x, None => { return None; } };
        let (data, p) = match get_opaque(src, p) { Some(x) => x, None => { return None; } };
        Some((WRITE3args { file: nfs_fh3 { data: file }, offset, count, stable, data }, p))
    }
}

/// Arguments of READ.
#[derive(Clone, Debug)]
pub struct READ3args {
    pub file: nfs_fh3,
    pub offset: u64,
    pub count: u32,
}

/// Arguments of COMMIT: the same fields as READ.
#[derive(Clone, Debug)]
pub struct COMMIT3args {
    pub file: nfs_fh3,
    pub offset: u64,
    pub count: u32,
}

/// The fields of READ and COMMIT arguments: handle, offset, count.
pub open spec fn dec_range_args(s: Seq<u8>, pos: int) -> Option<((Seq<u8>, u64, u32), int)> {
    match dec_opaque(s, pos) {
        None => None,
        Some((file, p)) => match dec_u64(s, p) {
            None => None,
            Some((offset, p)) => match dec_u32(s, p) {
                None => None,
                Some((count, p)) => Some(((file, offset, count), p)),
            },
        },
    }
}

impl READ3args {
    pub fn deserialize(src: &[u8], pos: usize) -> (r: Option<(READ3args, usize)>)
        ensures
            r matches Some((a, p)) ==> dec_range_args(src@, pos as int) == Some(
                ((a.file.data@, a.offset, a.count), p as int),
            ),
            r is None <==> dec_range_args(src@, pos as int) is None,
    {
        let (file, p) = match get_opaque(src, pos) { Some(x) => x, None => { return None; } };
        let (offset, p) = match get_u64(src, p) { Some(x) => x, None => { return None; } };
        let (count, p) = match get_u32(src, p) { Some(x) => x, None => { return None; } };
        Some((READ3args { file: nfs_fh3 { data: file }, offset, count }, p))
    }
}

impl COMMIT3args {
    pub fn deserialize(src: &[u8], pos: usize) -> (r: Option<(COMMIT3args, usize)>)
        ensures
            r matches Some((a, p)) ==> dec_range_args(src@, pos as int) == Some(
                ((a.file.data@, a.offset, a.count), p as int),
            ),
            r is None <==> dec_range_args(src@, pos as int) is None,
    {
        let (a, p) = match READ3args::deserialize(src, pos) { Some(x) => x, None => { return None; } };
        Some((COMMIT3args { file: a.file, offset: a.offset, count: a.count }, p))
    }
}

/// The mode to set, if any.
#[derive(Clone, Copy, Debug, PartialEq, Eq, Structural)]
pub enum set_mode3 {
    Void,
    mode(u32),
}

/// The owner to set, if any.
#[derive(Clone, Copy, Debug, PartialEq, Eq, Structural)]
pub enum set_uid3 {
    Void,
    uid(u32),
}

/// The group to set, if any.
#[derive(Clone, Copy, Debug, PartialEq, Eq, Structural)]
pub enum set_gid3 {
    Void,
    gid(u32),
}

/// The size to set, if any.
#[derive(Clone, Copy, Debug, PartialEq, Eq, Structural)]
pub enum set_size3 {
    Void,
    size(u64),
}

/// How to set the access time.
#[derive(Clone, Copy, Debug, PartialEq, Eq, Structural)]
pub enum set_atime {
    DONT_CHANGE,
    SET_TO_SERVER_TIME,
    SET_TO_CLIENT_TIME(nfstime3),
}

/// How to set the modification time.
#[derive(Clone, Copy, Debug, PartialEq, Eq, Structural)]
pub enum set_mtime {
    DONT_CHANGE,
    SET_TO_SERVER_TIME,
    SET_TO_CLIENT_TIME(nfstime3),
}

/// A boolean-discriminated 32-bit value.
pub open spec fn dec_opt_u32(s: Seq<u8>, pos: int) -> Option<(Option<u32>, int)> {
    match dec_bool(s, pos) {
        None => None,
        Some((false, p)) => Some((None, p)),
        Some((true, p)) => match dec_u32(s, p) {
            None => None,
            Some((v, q)) => Some((Some(v), q)),
        },
    }
}

/// A boolean-discriminated 64-bit value.
pub open spec fn dec_opt_u64(s: Seq<u8>, pos: int) -> Option<(Option<u64>, int)> {
    match dec_bool(s, pos) {
        None => None,
        Some((false, p)) => Some((None, p)),
        Some((true, p)) => match dec_u64(s, p) {
            None => None,
            Some((v, q)) => Some((Some(v), q)),
        },
    }
}

fn get_opt_u32(src: &[u8], pos: usize) -> (r: Option<(Option<u32>, usize)>)
    ensures
        r matches Some((v, p)) ==> dec_opt_u32(src@, pos as int) == Some((v, p as int)),
        r is None <==> dec_opt_u32(src@, pos as int) is None,
{
    match get_bool(src, pos) {
        None => None,
        Some((false, p)) => Some((None, p)),
        Some((true, p)) => match get_u32(src, p) {
            None => None,
            Some((v, q)) => Some((Some(v), q)),
        },
    }
}

fn get_opt_u64(src: &[u8], pos: usize) -> (r: Option<(Option<u64>, usize)>)
    ensures
        r matches Some((v, p)) ==> dec_opt_u64(src@, pos as int) == Some((v, p as int)),
        r is None <==> dec_opt_u64(src@, pos as int) is None,
{
    match get_bool(src, pos) {
        None => None,
        Some((false, p)) => Some((None, p)),
        Some((true, p)) => match get_u64(src, p) {
            None => None,
            Some((v, q)) => Some((Some(v), q)),
        },
    }
}

/// A time to set: 0 leaves it, 1 takes the server's clock, 2 carries a time.
pub open spec fn dec_time_how(s: Seq<u8>, pos: int) -> Option<((u32, nfstime3), int)> {
    match dec_u32(s, pos) {
        None => None,
        Some((d, p)) => if d == 0 || d == 1 {
            Some(((d, nfstime3 { seconds: 0, nseconds: 0 }), p))
        } else if d == 2 {
            match dec_u32(s, p) {
                None => None,
                Some((seconds, q)) => match dec_u32(s, q) {
                    None => None,
                    Some((nseconds, e)) => Some(((d, nfstime3 { seconds, nseconds }), e)),
                },
            }
        } else {
            None
        },
    }
}

fn get_time_how(src: &[u8], pos: usize) -> (r: Option<((u32, nfstime3), usize)>)
    ensures
        r matches Some((v, p)) ==> dec_time_how(src@, pos as int) == Some((v, p as int)),
        r is None <==> dec_time_how(src@, pos as int) is None,
{
    let zero = nfstime3 { seconds: 0, nseconds: 0 };
    match get_u32(src, pos) {
        None => None,
        Some((0, p)) => Some(((0, zero), p)),
        Some((1, p)) => Some(((1, zero), p)),
        Some((2, p)) => match get_u32(src, p) {
            None => None,
            Some((seconds, q)) => match get_u32(src, q) {
                None => None,
                Some((nseconds, e)) => Some(((2, nfstime3 { seconds, nseconds }), e)),
            },
        },
        _ => None,
    }
}

pub open spec fn atime_of(d: (u32, nfstime3)) -> set_atime {
    if d.0 == 0 {
        set_atime::DONT_CHANGE
    } else if d.0 == 1 {
        set_atime::SET_TO_SERVER_TIME
    } else {
        set_atime::SET_TO_CLIENT_TIME(d.1)
    }
}

pub open spec fn mtime_of(d: (u32, nfstime3)) -> set_mtime {
    if d.0 == 0 {
        set_mtime::DONT_CHANGE
    } else if d.0 == 1 {
        set_mtime::SET_TO_SERVER_TIME
    } else {
        set_mtime::SET_TO_CLIENT_TIME(d.1)
    }
}

/// Attributes a client asks to set.
#[derive(Clone, Copy, Debug, PartialEq, Eq, Structural)]
pub struct sattr3 {
    pub mode: set_mode3,
    pub uid: set_uid3,
    pub gid: set_gid3,
    pub size: set_size3,
    pub atime: set_atime,
    pub mtime: set_mtime,
}

pub open spec fn dec_sattr3(s: Seq<u8>, pos: int) -> Option<(sattr3, int)> {
    match dec_opt_u32(s, pos) {
        None => None,
        Some((mode, p)) => match dec_opt_u32(s, p) {
            None => None,
            Some((uid, p)) => match dec_opt_u32(s, p) {
                None => None,
                Some((gid, p)) => match dec_opt_u64(s, p) {
                    None => None,
                    Some((size, p)) => match dec_time_how(s, p) {
                        None => None,
                        Some((atime, p)) => match dec_time_how(s, p) {
                            None => None,
                            Some((mtime, p)) => Some(
                                (
                                    sattr3 {
                                        mode: match mode { Some(v) => set_mode3::mode(v), None => set_mode3::Void },
                                        uid: match uid { Some(v) => set_uid3::uid(v), None => set_uid3::Void },
                                        gid: match gid { Some(v) => set_gid3::gid(v), None => set_gid3::Void },
                                        size: match size { Some(v) => set_size3::size(v), None => set_size3::Void },
                                        atime: atime_of(atime),
                                        mtime: mtime_of(mtime),
                                    },
                                    p,
                                ),
                            ),
                        },
                    },
                },
            },
        },
    }
}

impl sattr3 {
    /// Attributes that change nothing.
    pub fn unchanged() -> (r: sattr3)
        ensures
            r == (sattr3 {
                mode: set_mode3::Void,
                uid: set_uid3::Void,
                gid: set_gid3::Void,
                size: set_size3::Void,
                atime: set_atime::DONT_CHANGE,
                mtime: set_mtime::DONT_CHANGE,
            }),
    {
        sattr3 {
            mode: set_mode3::Void,
            uid: set_uid3::Void,
            gid: set_gid3::Void,
            size: set_size3::Void,
            atime: set_atime::DONT_CHANGE,
            mtime: set_mtime::DONT_CHANGE,
        }
    }

    pub fn deserialize(src: &[u8], pos: usize) -> (r: Option<(sattr3, usize)>)
        ensures
            r matches Some((v, p)) ==> dec_sattr3(src@, pos as int) == Some((v, p as int)),
            r is None <==> dec_sattr3(src@, pos as int) is None,
    {
        let (mode, p) = match get_opt_u32(src, pos) { Some(x) => x, None => { return None; } };
        let (uid, p) = match get_opt_u32(src, p) { Some(x) => x, None => { return None; } };
        let (gid, p) = match get_opt_u32(src, p) { Some(x) => x, None => { return None; } };
        let (size, p) = match get_opt_u64(src, p) { Some(x) => x, None => { return None; } };
        let (atime, p) = match get_time_how(src, p) { Some(x) => x, None => { return None; } };
        let (mtime, p) = match get_time_how(src, p) { Some(x) => x, None => { return None; } };
        let a = sattr3 {
            mode: match mode { Some(v) => set_mode3::mode(v), None => set_mode3::Void },
            uid: match uid { Some(v) => set_uid3::uid(v), None => set_uid3::Void },
            gid: match gid { Some(v) => set_gid3::gid(v), None => set_gid3::Void },
            size: match size { Some(v) => set_size3::size(v), None => set_size3::Void },
            atime: match atime.0 {
                0 => set_atime::DONT_CHANGE,
                1 => set_atime::SET_TO_SERVER_TIME,
                _ => set_atime::SET_TO_CLIENT_TIME(atime.1),
            },
            mtime: match mtime.0 {
                0 => set_mtime::DONT_CHANGE,
                1 => set_mtime::SET_TO_SERVER_TIME,
                _ => set_mtime::SET_TO_CLIENT_TIME(mtime.1),
            },
        };
        Some((a, p))
    }
}

/// How CREATE treats an existing name.
#[derive(Clone, Copy, Debug, PartialEq, Eq, Structural)]
pub enum createmode3 {
    UNCHECKED,
    GUARDED,
    EXCLUSIVE,
}

/// The mode of a CREATE with what it carries: attributes, or a verifier.
#[derive(Clone, Debug)]
pub enum createhow3 {
    UNCHECKED(sattr3),
    GUARDED(sattr3),
    EXCLUSIVE(Vec<u8>),
}

pub open spec fn dec_createhow(s: Seq<u8>, pos: int) -> Option<((u32, Option<sattr3>, Seq<u8>), int)> {
    match dec_u32(s, pos) {
        None => None,
        Some((mode, p)) => if mode == 0 || mode == 1 {
            match dec_sattr3(s, p) {
                None => None,
                Some((a, q)) => Some(((mode, Some(a), Seq::empty()), q)),
            }
        } else if mode == 2 {
            match dec_fixed(s, p, 8) {
                None => None,
                Some((v, q)) => Some(((mode, None, v), q)),
            }
        } else {
            None
        },
    }
}

impl createhow3 {
    pub open spec fn view(&self) -> (u32, Option<sattr3>, Seq<u8>) {
        match self {
            createhow3::UNCHECKED(a) => (0, Some(*a), Seq::empty()),
            createhow3::GUARDED(a) => (1, Some(*a), Seq::empty()),
            createhow3::EXCLUSIVE(v) => (2, None, v@),
        }
    }

    pub fn mode(&self) -> (r: createmode3)
        ensures
            self is UNCHECKED ==> r == createmode3::UNCHECKED,
            self is GUARDED ==> r == createmode3::GUARDED,
            self is EXCLUSIVE ==> r == createmode3::EXCLUSIVE,
    {
        match self {
            createhow3::UNCHECKED(_) => createmode3::UNCHECKED,
            createhow3::GUARDED(_) => createmode3::GUARDED,
            createhow3::EXCLUSIVE(_) => createmode3::EXCLUSIVE,
        }
    }

    pub fn deserialize(src: &[u8], pos: usize) -> (r: Option<(createhow3, usize)>)
        ensures
            r matches Some((v, p)) ==> dec_createhow(src@, pos as int) == Some((v.view(), p as int)),
            r is None <==> dec_createhow(src@, pos as int) is None,
    {
        match get_u32(src, pos) {
            None => None,
            Some((0, p)) => match sattr3::deserialize(src, p) {
                None => None,
                Some((a, q)) => Some((createhow3::UNCHECKED(a), q)),
            },
            Some((1, p)) => match sattr3::deserialize(src, p) {
                None => None,
                Some((a, q)) => Some((createhow3::GUARDED(a), q)),
            },
            Some((2, p)) => match get_fixed(src, p, 8) {
                None => None,
                Some((v, q)) => Some((createhow3::EXCLUSIVE(v), q)),
            },
            _ => None,
        }
    }
}

/// SETATTR's guard: the ctime the client expects, if any.
#[derive(Clone, Copy, Debug, PartialEq, Eq, Structural)]
pub enum sattrguard3 {
    Void,
    obj_ctime(nfstime3),
}

pub open spec fn dec_guard(s: Seq<u8>, pos: int) -> Option<(sattrguard3, int)> {
    match dec_bool(s, pos) {
        None => None,
        Some((false, p)) => Some((sattrguard3::Void, p)),
        Some((true, p)) => match dec_u32(s, p) {
            None => None,
            Some((seconds, q)) => match dec_u32(s, q) {
                None => None,
                Some((nseconds, e)) => Some((sattrguard3::obj_ctime(nfstime3 { seconds, nseconds }), e)),
            },
        },
    }
}

impl sattrguard3 {
    pub fn deserialize(src: &[u8], pos: usize) -> (r: Option<(sattrguard3, usize)>)
        ensures
            r matches Some((v, p)) ==> dec_guard(src@, pos as int) == Some((v, p as int)),
            r is None <==> dec_guard(src@, pos as int) is None,
    {
        match get_bool(src, pos) {
            None => None,
            Some((false, p)) => Some((sattrguard3::Void, p)),
            Some((true, p)) => match get_u32(src, p) {
                None => None,
                Some((seconds, q)) => match get_u32(src, q) {
                    None => None,
                    Some((nseconds, e)) => Some((sattrguard3::obj_ctime(nfstime3 { seconds, nseconds }), e)),
                },
            },
        }
    }
}

/// What SYMLINK creates: the link's attributes and its target.
#[derive(Clone, Debug)]
pub struct symlinkdata3 {
    pub symlink_attributes: sattr3,
    pub symlink_data: nfsstring,
}

impl symlinkdata3 {
    /// Decodes the attributes, then the target as a string.
    pub fn deserialize(src: &[u8], pos: usize) -> (r: Option<(symlinkdata3, usize)>)
        ensures
            r matches Some((v, p)) ==> (dec_sattr3(src@, pos as int) matches Some((a, q))
                && a == v.symlink_attributes && dec_string(src@, q) == Some((v.symlink_data.0@, p as int))),
            r is None <==> (dec_sattr3(src@, pos as int) is None || dec_string(
                src@,
                dec_sattr3(src@, pos as int)->Some_0.1,
            ) is None),
    {
        let (a, q) = match sattr3::deserialize(src, pos) { Some(x) => x, None => { return None; } };
        let (target, p) = match get_string(src, q) { Some(x) => x, None => { return None; } };
        Some((symlinkdata3 { symlink_attributes: a, symlink_data: nfsstring(target) }, p))
    }
}

pub open spec fn spec_ftype(v: u32) -> Option<ftype3> {
    if v == 1 { Some(ftype3::NF3REG) }
    else if v == 2 { Some(ftype3::NF3DIR) }
    else if v == 3 { Some(ftype3::NF3BLK) }
    else if v == 4 { Some(ftype3::NF3CHR) }
    else if v == 5 { Some(ftype3::NF3LNK) }
    else if v == 6 { Some(ftype3::NF3SOCK) }
    else if v == 7 { Some(ftype3::NF3FIFO) }
    else { None }
}

impl Deserialize for ftype3 {
    open spec fn spec_dec(s: Seq<u8>, pos: int) -> Option<(ftype3, int)> {
        match dec_u32(s, pos) {
            Some((v, p)) => match spec_ftype(v) {
                Some(t) => Some((t, p)),
                None => None,
            },
            None => None,
        }
    }

    fn deserialize(src: &[u8], pos: usize) -> (r: Option<(ftype3, usize)>) {
        let (t, p) = match get_u32(src, pos) { Some(x) => x, None => { return None; } };
        let ft = match t {
            1 => ftype3::NF3REG,
            2 => ftype3::NF3DIR,
            3 => ftype3::NF3BLK,
            4 => ftype3::NF3CHR,
            5 => ftype3::NF3LNK,
            6 => ftype3::NF3SOCK,
            7 => ftype3::NF3FIFO,
            _ => { return None; },
        };
        Some((ft, p))
    }
}

impl DeserializeEnum for ftype3 {}

/// What MKNOD creates: character and block devices carry attributes and
/// device numbers; sockets and pipes attributes alone; other types nothing.
#[derive(Clone, Copy, Debug, PartialEq, Eq, Structural)]
pub struct mknoddata3 {
    pub mknod_type: ftype3,
    pub attributes: Option<sattr3>,
    pub device: specdata3,
}

pub open spec fn dec_mknoddata(s: Seq<u8>, pos: int) -> Option<(mknoddata3, int)> {
    match dec_u32(s, pos) {
        None => None,
        Some((t, p)) => match spec_ftype(t) {
            None => None,
            Some(ft) => if ft == ftype3::NF3CHR || ft == ftype3::NF3BLK {
                match dec_sattr3(s, p) {
                    None => None,
                    Some((a, q)) => match dec_u32(s, q) {
                        None => None,
                        Some((d1, q)) => match dec_u32(s, q) {
                            None => None,
                            Some((d2, e)) => Some((mknoddata3 { mknod_type: ft, attributes: Some(a), device: specdata3 { specdata1: d1, specdata2: d2 } }, e)),
                        },
                    },
                }
            } else if ft == ftype3::NF3SOCK || ft == ftype3::NF3FIFO {
                match dec_sattr3(s, p) {
                    None => None,
                    Some((a, e)) => Some((mknoddata3 { mknod_type: ft, attributes: Some(a), device: specdata3 { specdata1: 0, specdata2: 0 } }, e)),
                }
            } else {
                Some((mknoddata3 { mknod_type: ft, attributes: None, device: specdata3 { specdata1: 0, specdata2: 0 } }, p))
            },
        },
    }
}

impl mknoddata3 {
    pub fn deserialize(src: &[u8], pos: usize) -> (r: Option<(mknoddata3, usize)>)
        ensures
            r matches Some((v, p)) ==> dec_mknoddata(src@, pos as int) == Some((v, p as int)),
            r is None <==> dec_mknoddata(src@, pos as int) is None,
    {
        let (ft, p) = match ftype3::deserialize(src, pos) { Some(x) => x, None => { return None; } };
        let none = specdata3 { specdata1: 0, specdata2: 0 };
        match ft {
            ftype3::NF3CHR | ftype3::NF3BLK => {
                let (a, q) = match sattr3::deserialize(src, p) { Some(x) => x, None => { return None; } };
                let (d1, q) = match get_u32(src, q) { Some(x) => x, None => { return None; } };
                let (d2, e) = match get_u32(src, q) { Some(x) => x, None => { return None; } };
                Some((mknoddata3 { mknod_type: ft, attributes: Some(a), device: specdata3 { specdata1: d1, specdata2: d2 } }, e))
            },
            ftype3::NF3SOCK | ftype3::NF3FIFO => {
                let (a, e) = match sattr3::deserialize(src, p) { Some(x) => x, None => { return None; } };
                Some((mknoddata3 { mknod_type: ft, attributes: Some(a), device: none }, e))
            },
            _ => Some((mknoddata3 { mknod_type: ft, attributes: None, device: none }, p)),
        }
    }
}

/// Arguments of SETATTR.
#[derive(Clone, Debug)]
pub struct SETATTR3args {
    pub object: nfs_fh3,
    pub new_attribute: sattr3,
    pub guard: sattrguard3,
}

impl SETATTR3args {
    /// Decodes the handle, the attributes, then the guard.
    pub fn deserialize(src: &[u8], pos: usize) -> (r: Option<(SETATTR3args, usize)>)
        ensures
            r matches Some((a, p)) ==> (dec_opaque(src@, pos as int) matches Some((h, q1)) && h
                == a.object.data@ && (dec_sattr3(src@, q1) matches Some((s, q2)) && s
                == a.new_attribute && dec_guard(src@, q2) == Some((a.guard, p as int)))),
            r is None ==> (dec_opaque(src@, pos as int) is None || dec_sattr3(
                src@,
                dec_opaque(src@, pos as int)->Some_0.1,
            ) is None || dec_guard(
                src@,
                dec_sattr3(src@, dec_opaque(src@, pos as int)->Some_0.1)->Some_0.1,
            ) is None),
    {
        let (data, p) = match get_opaque(src, pos) { Some(x) => x, None => { return None; } };
        let (new_attribute, p) = match sattr3::deserialize(src, p) { Some(x) => x, None => { return None; } };
        let (guard, p) = match sattrguard3::deserialize(src, p) { Some(x) => x, None => { return None; } };
        Some((SETATTR3args { object: nfs_fh3 { data }, new_attribute, guard }, p))
    }
}

/// Arguments of LINK: the file, and where the new name goes.
#[derive(Clone, Debug)]
pub struct LINK3args {
    pub file: nfs_fh3,
    pub link: diropargs3,
}

impl LINK3args {
    pub fn deserialize(src: &[u8], pos: usize) -> (r: Option<(LINK3args, usize)>)
        ensures
            r matches Some((a, p)) ==> (dec_opaque(src@, pos as int) matches Some((h, q)) && h
                == a.file.data@ && dec_diropargs(src@, q) == Some((a.link.view(), p as int))),
            r is None ==> (dec_opaque(src@, pos as int) is None || dec_diropargs(
                src@,
                dec_opaque(src@, pos as int)->Some_0.1,
            ) is None),
    {
        let (data, p) = match get_opaque(src, pos) { Some(x) => x, None => { return None; } };
        let (link, p) = match diropargs3::deserialize(src, p) { Some(x) => x, None => { return None; } };
        Some((LINK3args { file: nfs_fh3 { data }, link }, p))
    }
}

/// Arguments of MKDIR.
#[derive(Clone, Debug)]
pub struct MKDIR3args {
    pub dirops: diropargs3,
    pub attributes: sattr3,
}

impl MKDIR3args {
    pub fn deserialize(src: &[u8], pos: usize) -> (r: Option<(MKDIR3args, usize)>)
        ensures
            r matches Some((a, p)) ==> (dec_diropargs(src@, pos as int) matches Some((d, q)) && d
                == a.dirops.view() && dec_sattr3(src@, q) == Some((a.attributes, p as int))),
            r is None ==> (dec_diropargs(src@, pos as int) is None || dec_sattr3(
                src@,
                dec_diropargs(src@, pos as int)->Some_0.1,
            ) is None),
    {
        let (dirops, p) = match diropargs3::deserialize(src, pos) { Some(x) => x, None => { return None; } };
        let (attributes, p) = match sattr3::deserialize(src, p) { Some(x) => x, None => { return None; } };
        Some((MKDIR3args { dirops, attributes }, p))
    }
}

/// Arguments of SYMLINK.
#[derive(Clone, Debug)]
pub struct SYMLINK3args {
    pub dirops: diropargs3,
    pub symlink: symlinkdata3,
}

impl SYMLINK3args {
    pub fn deserialize(src: &[u8], pos: usize) -> (r: Option<(SYMLINK3args, usize)>)
        ensures
            r matches Some((a, p)) ==> (dec_diropargs(src@, pos as int) matches Some((d, q)) && d
                == a.dirops.view() && (dec_sattr3(src@, q) matches Some((s, q2)) && s
                == a.symlink.symlink_attributes && dec_string(src@, q2) == Some(
                (a.symlink.symlink_data.0@, p as int),
            ))),
    {
        let (dirops, p) = match diropargs3::deserialize(src, pos) { Some(x) => x, None => { return None; } };
        let (symlink, p) = match symlinkdata3::deserialize(src, p) { Some(x) => x, None => { return None; } };
        Some((SYMLINK3args { dirops, symlink }, p))
    }
}

/// Arguments of MKNOD.
#[derive(Clone, Debug)]
pub struct MKNOD3args {
    pub where_dir: diropargs3,
    pub what: mknoddata3,
}

impl MKNOD3args {
    pub fn deserialize(src: &[u8], pos: usize) -> (r: Option<(MKNOD3args, usize)>)
        ensures
            r matches Some((a, p)) ==> (dec_diropargs(src@, pos as int) matches Some((d, q)) && d
                == a.where_dir.view() && dec_mknoddata(src@, q) == Some((a.what, p as int))),
            r is None ==> (dec_diropargs(src@, pos as int) is None || dec_mknoddata(
                src@,
                dec_diropargs(src@, pos as int)->Some_0.1,
            ) is None),
    {
        let (where_dir, p) = match diropargs3::deserialize(src, pos) { Some(x) => x, None => { return None; } };
        let (what, p) = match mknoddata3::deserialize(src, p) { Some(x) => x, None => { return None; } };
        Some((MKNOD3args { where_dir, what }, p))
    }
}

} // verus!
