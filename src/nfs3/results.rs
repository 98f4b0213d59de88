//! Result records of NFSv3 procedures and their XDR encoding.
#![allow(non_camel_case_types)]

use vstd::prelude::*;
use crate::nfs3::args::stable_how;
use crate::nfs3::types::{nfs_fh3, nfsstring, nfstime3, post_op_attr, post_op_fh3, put_verf, wcc_data};
use crate::xdr::{Serialize, be32, be64, bool_enc, fixed_enc, opaque_enc, put_bool, put_opaque, put_u32, put_u64};

verus! {

/// A READDIR entry.
#[derive(Clone, Debug)]
pub struct entry3 {
    pub fileid: u64,
    pub name: nfsstring,
    pub cookie: u64,
}

impl Serialize for entry3 {
    open spec fn spec_enc(&self) -> Seq<u8> {
        be64(self.fileid) + opaque_enc(self.name.0@) + be64(self.cookie)
    }

    open spec fn spec_encodable(&self) -> bool {
        self.name.0@.len() <= u32::MAX
    }

    fn serialize(&self, dest: &mut Vec<u8>) {
        put_u64(dest, self.fileid);
        self.name.serialize(dest);
        put_u64(dest, self.cookie);
        assert(dest@ =~= old(dest)@ + self.spec_enc());
    }
}

/// A READDIRPLUS entry: a READDIR entry with attributes and handle.
#[derive(Clone, Debug)]
pub struct entryplus3 {
    pub fileid: u64,
    pub name: nfsstring,
    pub cookie: u64,
    pub name_attributes: post_op_attr,
    pub name_handle: post_op_fh3,
}

impl Serialize for entryplus3 {
    open spec fn spec_enc(&self) -> Seq<u8> {
        be64(self.fileid) + opaque_enc(self.name.0@) + be64(self.cookie)
            + self.name_attributes.spec_enc() + self.name_handle.spec_enc()
    }

    open spec fn spec_encodable(&self) -> bool {
        self.name.0@.len() <= u32::MAX && self.name_handle.spec_encodable()
    }

    fn serialize(&self, dest: &mut Vec<u8>) {
        put_u64(dest, self.fileid);
        self.name.serialize(dest);
        put_u64(dest, self.cookie);
        self.name_attributes.serialize(dest);
        self.name_handle.serialize(dest);
        assert(dest@ =~= old(dest)@ + self.spec_enc());
    }
}

/// A successful READ.
#[derive(Clone, Debug)]
pub struct READ3resok {
    pub file_attributes: post_op_attr,
    pub count: u32,
    pub eof: bool,
    pub data: Vec<u8>,
}

impl Serialize for READ3resok {
    open spec fn spec_enc(&self) -> Seq<u8> {
        self.file_attributes.spec_enc() + be32(self.count) + bool_enc(self.eof) + opaque_enc(
            self.data@,
        )
    }

    open spec fn spec_encodable(&self) -> bool {
        self.data@.len() <= u32::MAX
    }

    fn serialize(&self, dest: &mut Vec<u8>) {
        self.file_attributes.serialize(dest);
        put_u32(dest, self.count);
        put_bool(dest, self.eof);
        put_opaque(dest, self.data.as_slice());
        assert(dest@ =~= old(dest)@ + self.spec_enc());
    }
}

/// A successful WRITE.
#[derive(Clone, Copy, Debug)]
pub struct WRITE3resok {
    pub file_wcc: wcc_data,
    pub count: u32,
    pub committed: stable_how,
    pub verf: [u8; 8],
}

impl Serialize for WRITE3resok {
    open spec fn spec_enc(&self) -> Seq<u8> {
        self.file_wcc.spec_enc() + be32(self.count) + be32(self.committed.value()) + fixed_enc(
            self.verf@,
        )
    }

    open spec fn spec_encodable(&self) -> bool {
        true
    }

    fn serialize(&self, dest: &mut Vec<u8>) {
        self.file_wcc.serialize(dest);
        put_u32(dest, self.count);
        put_u32(dest, self.committed.to_u32());
        put_verf(dest, &self.verf);
        assert(dest@ =~= old(dest)@ + self.spec_enc());
    }
}

/// A successful COMMIT.
#[derive(Clone, Copy, Debug)]
pub struct COMMIT3resok {
    pub file_wcc: wcc_data,
    pub verf: [u8; 8],
}

impl Serialize for COMMIT3resok {
    open spec fn spec_enc(&self) -> Seq<u8> {
        self.file_wcc.spec_enc() + fixed_enc(self.verf@)
    }

    open spec fn spec_encodable(&self) -> bool {
        true
    }

    fn serialize(&self, dest: &mut Vec<u8>) {
        self.file_wcc.serialize(dest);
        put_verf(dest, &self.verf);
        assert(dest@ =~= old(dest)@ + self.spec_enc());
    }
}

/// File system information: transfer sizes and properties.
#[derive(Clone, Copy, Debug)]
pub struct fsinfo3 {
    pub obj_attributes: post_op_attr,
    pub rtmax: u32,
    pub rtpref: u32,
    pub rtmult: u32,
    pub wtmax: u32,
    pub wtpref: u32,
    pub wtmult: u32,
    pub dtpref: u32,
    pub maxfilesize: u64,
    pub time_delta: nfstime3,
    pub properties: u32,
}

impl Serialize for fsinfo3 {
    open spec fn spec_enc(&self) -> Seq<u8> {
        self.obj_attributes.spec_enc() + self.rest_enc()
    }

    open spec fn spec_encodable(&self) -> bool {
        true
    }

    fn serialize(&self, dest: &mut Vec<u8>) {
        self.obj_attributes.serialize(dest);
        self.put_rest(dest);
        proof {
            vstd::seq_lib::lemma_concat_associative(
                old(dest)@,
                self.obj_attributes.spec_enc(),
                self.rest_enc(),
            );
        }
    }
}

impl fsinfo3 {
    /// The fields after the attributes.
    pub open spec fn rest_enc(&self) -> Seq<u8> {
        be32(self.rtmax) + be32(self.rtpref) + be32(self.rtmult) + be32(self.wtmax) + be32(
            self.wtpref,
        ) + be32(self.wtmult) + be32(self.dtpref) + be64(self.maxfilesize)
            + self.time_delta.spec_enc() + be32(self.properties)
    }

    fn put_rest(&self, dest: &mut Vec<u8>)
        ensures
            final(dest)@ == old(dest)@ + self.rest_enc(),
    {
        put_u32(dest, self.rtmax);
        put_u32(dest, self.rtpref);
        put_u32(dest, self.rtmult);
        put_u32(dest, self.wtmax);
        put_u32(dest, self.wtpref);
        put_u32(dest, self.wtmult);
        put_u32(dest, self.dtpref);
        put_u64(dest, self.maxfilesize);
        self.time_delta.serialize(dest);
        put_u32(dest, self.properties);
        assert(dest@ =~= old(dest)@ + self.rest_enc());
    }
}

/// File system statistics.
#[derive(Clone, Copy, Debug)]
pub struct FSSTAT3resok {
    pub obj_attributes: post_op_attr,
    pub tbytes: u64,
    pub fbytes: u64,
    pub abytes: u64,
    pub tfiles: u64,
    pub ffiles: u64,
    pub afiles: u64,
    pub invarsec: u32,
}

impl Serialize for FSSTAT3resok {
    open spec fn spec_enc(&self) -> Seq<u8> {
        self.obj_attributes.spec_enc() + self.rest_enc()
    }

    open spec fn spec_encodable(&self) -> bool {
        true
    }

    fn serialize(&self, dest: &mut Vec<u8>) {
        self.obj_attributes.serialize(dest);
        self.put_rest(dest);
        proof {
            vstd::seq_lib::lemma_concat_associative(
                old(dest)@,
                self.obj_attributes.spec_enc(),
                self.rest_enc(),
            );
        }
    }
}

impl FSSTAT3resok {
    /// The fields after the attributes.
    pub open spec fn rest_enc(&self) -> Seq<u8> {
        be64(self.tbytes) + be64(self.fbytes) + be64(self.abytes) + be64(self.tfiles) + be64(
            self.ffiles,
        ) + be64(self.afiles) + be32(self.invarsec)
    }

    fn put_rest(&self, dest: &mut Vec<u8>)
        ensures
            final(dest)@ == old(dest)@ + self.rest_enc(),
    {
        put_u64(dest, self.tbytes);
        put_u64(dest, self.fbytes);
        put_u64(dest, self.abytes);
        put_u64(dest, self.tfiles);
        put_u64(dest, self.ffiles);
        put_u64(dest, self.afiles);
        put_u32(dest, self.invarsec);
        assert(dest@ =~= old(dest)@ + self.rest_enc());
    }
}

/// Limits on names and links.
#[derive(Clone, Copy, Debug)]
pub struct PATHCONF3resok {
    pub obj_attributes: post_op_attr,
    pub linkmax: u32,
    pub name_max: u32,
    pub no_trunc: bool,
    pub chown_restricted: bool,
    pub case_insensitive: bool,
    pub case_preserving: bool,
}

impl Serialize for PATHCONF3resok {
    open spec fn spec_enc(&self) -> Seq<u8> {
        self.obj_attributes.spec_enc() + self.limits_enc()
    }

    open spec fn spec_encodable(&self) -> bool {
        true
    }

    fn serialize(&self, dest: &mut Vec<u8>) {
        self.obj_attributes.serialize(dest);
        self.put_limits(dest);
        proof {
            vstd::seq_lib::lemma_concat_associative(
                old(dest)@,
                self.obj_attributes.spec_enc(),
                self.limits_enc(),
            );
        }
    }
}

impl PATHCONF3resok {
    /// The limits after the attributes.
    pub open spec fn limits_enc(&self) -> Seq<u8> {
        be32(self.linkmax) + be32(self.name_max) + bool_enc(self.no_trunc) + bool_enc(
            self.chown_restricted,
        ) + bool_enc(self.case_insensitive) + bool_enc(self.case_preserving)
    }

    fn put_limits(&self, dest: &mut Vec<u8>)
        ensures
            final(dest)@ == old(dest)@ + self.limits_enc(),
    {
        let ghost mid = dest@;
        put_u32(dest, self.linkmax);
        put_u32(dest, self.name_max);
        put_bool(dest, self.no_trunc);
        put_bool(dest, self.chown_restricted);
        put_bool(dest, self.case_insensitive);
        put_bool(dest, self.case_preserving);
        assert(dest@ =~= mid + self.limits_enc());
    }
}

} // verus!
