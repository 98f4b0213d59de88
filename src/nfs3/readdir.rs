//! READDIR and READDIRPLUS: index cookies and the byte-budgeted reply.
//!
//! The reply lists entries as a chain of `(true, entry)` items closed by
//! `false` and the end-of-directory flag. Entries are taken in order while
//! each one still fits the budget; the first that does not ends the list and
//! the reply then says `eof = false`.
#![allow(non_camel_case_types)]

use vstd::prelude::*;
use crate::nfs3::handle::{fh_bytes, id_to_fh};
use crate::nfs3::types::{
    fattr3, nfsstat3, nfsstring, post_op_attr, post_op_fh3, put_verf, verf_enc,
};
use crate::rpc::{success_bytes, write_success};
use crate::nfs3::results::{entry3, entryplus3};
use crate::xdr::{Serialize, be32, be64, bool_enc, opaque_enc, put_bool, put_u32};

verus! {

/// Space the reply reserves for its own framing.
pub const REPLY_RESERVE: u32 = 128;

/// A directory entry as the file system lists it.
#[derive(Clone, Debug)]
pub struct DirEntrySimple {
    pub fileid: u64,
    pub name: nfsstring,
}

/// A directory entry with its attributes.
#[derive(Clone, Debug)]
pub struct DirEntry {
    pub fileid: u64,
    pub name: nfsstring,
    pub attr: fattr3,
}

/// Entries of a directory from some index on, and whether they reach its end.
#[derive(Clone, Debug)]
pub struct ReadDirResult {
    pub entries: Vec<DirEntry>,
    pub end: bool,
}

/// Entries without attributes, and whether they reach the directory's end.
#[derive(Clone, Debug)]
pub struct ReadDirSimpleResult {
    pub entries: Vec<DirEntrySimple>,
    pub end: bool,
}

impl ReadDirSimpleResult {
    /// The same listing without attributes.
    pub fn from_readdir_result(result: &ReadDirResult) -> (r: ReadDirSimpleResult)
        ensures
            r.end == result.end,
            r.entries@.len() == result.entries@.len(),
            forall|i: int|
                0 <= i < r.entries@.len() ==> r.entries@[i].fileid == result.entries@[i].fileid
                    && r.entries@[i].name.0@ == result.entries@[i].name.0@,
    {
        let mut entries: Vec<DirEntrySimple> = Vec::new();
        let mut i: usize = 0;
        while i < result.entries.len()
            invariant
                i <= result.entries@.len(),
                entries@.len() == i,
                forall|j: int|
                    0 <= j < i ==> entries@[j].fileid == result.entries@[j].fileid
                        && entries@[j].name.0@ == result.entries@[j].name.0@,
            decreases result.entries@.len() - i,
        {
            let e = &result.entries[i];
            let mut name: Vec<u8> = Vec::new();
            name.extend_from_slice(e.name.0.as_slice());
            entries.push(DirEntrySimple { fileid: e.fileid, name: nfsstring(name) });
            i = i + 1;
        }
        ReadDirSimpleResult { entries, end: result.end }
    }
}

/// The listing seen from index `start`: the entries from `start` on. An index
/// past the last entry, or at it while the listing did not reach the end, is
/// `BAD_COOKIE`.
pub open spec fn window_ok(len: nat, end: bool, start: nat) -> bool {
    start < len || (start == len && end)
}

/// Cuts a listing that starts at index 0 down to the entries from `start_index`
/// on; index `n` of an `n`-entry directory is its end.
pub fn readdir_window(result: ReadDirResult, start_index: usize) -> (r: Result<ReadDirResult, nfsstat3>)
    ensures
        window_ok(result.entries@.len(), result.end, start_index as nat) ==> (r matches Ok(w) && w.end
            == result.end && w.entries@ == result.entries@.skip(start_index as int)),
        !window_ok(result.entries@.len(), result.end, start_index as nat) ==> r == Err::<
            ReadDirResult,
            nfsstat3,
        >(nfsstat3::NFS3ERR_BAD_COOKIE),
{
    let n = result.entries.len();
    if start_index > n || (start_index == n && !result.end) {
        return Err(nfsstat3::NFS3ERR_BAD_COOKIE);
    }
    let end = result.end;
    let mut all = result.entries;
    let entries = all.split_off(start_index);
    assert(entries@ =~= result.entries@.skip(start_index as int));
    Ok(ReadDirResult { entries, end })
}

/// The items one after another.
pub open spec fn flat(items: Seq<Seq<u8>>) -> Seq<u8>
    decreases items.len(),
{
    if items.len() == 0 {
        Seq::empty()
    } else {
        flat(items.drop_last()) + items.last()
    }
}

pub open spec fn total(s: Seq<usize>) -> int
    decreases s.len(),
{
    if s.len() == 0 {
        0
    } else {
        total(s.drop_last()) + s.last()
    }
}

/// Entry `j` fits: the reply so far (`base` bytes and the entries before it)
/// plus its item stays under `max_bytes`, and, where a directory budget is
/// given, the directory sizes so far plus its own stay under it.
pub open spec fn entry_fits(
    base: int,
    items: Seq<Seq<u8>>,
    dsizes: Seq<usize>,
    max_bytes: int,
    max_dir: Option<usize>,
    j: int,
) -> bool {
    &&& base + flat(items.take(j)).len() + items[j].len() < max_bytes
    &&& match max_dir {
        None => true,
        Some(m) => total(dsizes.take(j)) + dsizes[j] < m,
    }
}

/// `k` entries are taken: every one of them fits, and the next does not.
pub open spec fn taken(
    base: int,
    items: Seq<Seq<u8>>,
    dsizes: Seq<usize>,
    max_bytes: int,
    max_dir: Option<usize>,
    k: int,
) -> bool {
    &&& 0 <= k <= items.len()
    &&& forall|j: int| 0 <= j < k ==> entry_fits(base, items, dsizes, max_bytes, max_dir, j)
    &&& k < items.len() ==> !entry_fits(base, items, dsizes, max_bytes, max_dir, k)
}

pub open spec fn views(items: Seq<Vec<u8>>) -> Seq<Seq<u8>> {
    items.map_values(|v: Vec<u8>| v@)
}

/// Appends items in order while each fits the budget; returns how many.
fn append_within_budget(
    out: &mut Vec<u8>,
    items: &Vec<Vec<u8>>,
    dsizes: &Vec<usize>,
    max_bytes: usize,
    max_dir: Option<usize>,
) -> (k: usize)
    requires
        items@.len() == dsizes@.len(),
    ensures
        taken(old(out)@.len() as int, views(items@), dsizes@, max_bytes as int, max_dir, k as int),
        final(out)@ == old(out)@ + flat(views(items@).take(k as int)),
{
    let ghost base = out@.len() as int;
    let ghost its = views(items@);
    let mut used_dir: usize = 0;
    let mut i: usize = 0;
    while i < items.len()
        invariant
            i <= items@.len(),
            items@.len() == dsizes@.len(),
            its == views(items@),
            base == old(out)@.len(),
            out@ == old(out)@ + flat(its.take(i as int)),
            max_dir is Some ==> used_dir == total(dsizes@.take(i as int)),
            max_dir matches Some(m) ==> used_dir <= m,
            forall|j: int|
                0 <= j < i ==> entry_fits(base, its, dsizes@, max_bytes as int, max_dir, j),
        decreases items@.len() - i,
    {
        let item = &items[i];
        let len = out.len();
        let bytes_ok = len < max_bytes && item.len() < max_bytes - len;
        let dir_ok = match max_dir {
            None => true,
            Some(m) => dsizes[i] < m - used_dir,
        };
        assert(its[i as int] == item@);
        assert(its.take(i + 1).drop_last() =~= its.take(i as int));
        assert(dsizes@.take(i + 1).drop_last() =~= dsizes@.take(i as int));
        if !(bytes_ok && dir_ok) {
            return i;
        }
        out.extend_from_slice(item.as_slice());
        if max_dir.is_some() {
            used_dir = used_dir + dsizes[i];
        }
        i = i + 1;
        assert(out@ =~= old(out)@ + flat(its.take(i as int)));
    }
    assert(its.take(i as int) =~= its);
    i
}

/// The encoding of an `entry3`.
pub open spec fn entry3_enc(fileid: u64, name: Seq<u8>, cookie: u64) -> Seq<u8> {
    be64(fileid) + opaque_enc(name) + be64(cookie)
}

/// The list item of a READDIR entry: `true` and the entry.
pub open spec fn dir_item(e: DirEntrySimple, cookie: u64) -> Seq<u8> {
    bool_enc(true) + entry3_enc(e.fileid, e.name.0@, cookie)
}

/// The list item of a READDIRPLUS entry: `true`, the entry, its attributes and
/// its handle.
pub open spec fn dir_item_plus(e: DirEntry, cookie: u64, generation: u64) -> Seq<u8> {
    bool_enc(true) + entry3_enc(e.fileid, e.name.0@, cookie) + post_op_attr::attributes(
        e.attr,
    ).spec_enc() + bool_enc(true) + opaque_enc(fh_bytes(generation, e.fileid))
}

/// The directory size of an entry: file id, name length and name, cookie.
pub open spec fn dir_size(name_len: nat) -> int {
    (8 + 4 + name_len + 8) as int
}

/// The reply's fixed head: RPC success, `NFS3_OK`, directory attributes and
/// the cookie verifier.
pub open spec fn readdir_head(xid: u32, dir_attr: post_op_attr, verf: [u8; 8]) -> Seq<u8> {
    success_bytes(xid) + be32(0) + dir_attr.spec_enc() + verf_enc(verf)
}

/// The reply's tail after `k` of `n` entries: `false`, then the end flag,
/// which is the file system's only when every entry was included.
pub open spec fn readdir_tail(k: int, n: int, vfs_end: bool) -> Seq<u8> {
    bool_enc(false) + bool_enc(k == n && vfs_end)
}

pub open spec fn zero_sizes(n: nat) -> Seq<usize> {
    Seq::new(n, |j: int| 0usize)
}

pub open spec fn budget(count: u32) -> int {
    if count >= REPLY_RESERVE {
        count - REPLY_RESERVE
    } else {
        0
    }
}

pub open spec fn names_fit(entries: Seq<DirEntrySimple>) -> bool {
    forall|i: int| 0 <= i < entries.len() ==> entries[i].name.0@.len() <= u32::MAX
}

pub open spec fn names_fit_plus(entries: Seq<DirEntry>) -> bool {
    forall|i: int| 0 <= i < entries.len() ==> entries[i].name.0@.len() <= u32::MAX
}

pub open spec fn readdir_items(entries: Seq<DirEntrySimple>, start: u64) -> Seq<Seq<u8>> {
    Seq::new(entries.len(), |j: int| dir_item(entries[j], (start + j + 1) as u64))
}

pub open spec fn readdirplus_items(entries: Seq<DirEntry>, start: u64, generation: u64) -> Seq<Seq<u8>> {
    Seq::new(entries.len(), |j: int| dir_item_plus(entries[j], (start + j + 1) as u64, generation))
}

pub open spec fn readdirplus_dsizes(entries: Seq<DirEntry>) -> Seq<usize> {
    Seq::new(entries.len(), |j: int| dir_size(entries[j].name.0@.len()) as usize)
}

/// A READDIR reply. The entries were listed from index `start_cookie`; entry
/// `j` gets cookie `start_cookie + j + 1`, so a client that echoes the last
/// cookie continues after it. The budget is `dircount - 128` bytes for the
/// whole reply. Returns the reply and the number of entries it holds.
pub fn readdir_reply(
    xid: u32,
    dir_attr: &post_op_attr,
    verf: &[u8; 8],
    start_cookie: u64,
    entries: &Vec<DirEntrySimple>,
    vfs_end: bool,
    dircount: u32,
) -> (r: (Vec<u8>, usize))
    requires
        start_cookie + entries@.len() <= u64::MAX,
        names_fit(entries@),
    ensures
        taken(
            readdir_head(xid, *dir_attr, *verf).len() as int,
            readdir_items(entries@, start_cookie),
            zero_sizes(entries@.len()),
            budget(dircount),
            None,
            r.1 as int,
        ),
        r.0@ == readdir_head(xid, *dir_attr, *verf) + flat(
            readdir_items(entries@, start_cookie).take(r.1 as int),
        ) + readdir_tail(r.1 as int, entries@.len() as int, vfs_end),
{
    let mut out: Vec<u8> = Vec::new();
    write_success(&mut out, xid);
    put_u32(&mut out, 0);
    dir_attr.serialize(&mut out);
    put_verf(&mut out, verf);
    assert(out@ =~= readdir_head(xid, *dir_attr, *verf));
    let ghost want = readdir_items(entries@, start_cookie);
    let mut items: Vec<Vec<u8>> = Vec::new();
    let mut dsizes: Vec<usize> = Vec::new();
    let mut i: usize = 0;
    while i < entries.len()
        invariant
            i <= entries@.len(),
            start_cookie + entries@.len() <= u64::MAX,
            names_fit(entries@),
            want == readdir_items(entries@, start_cookie),
            items@.len() == i,
            dsizes@.len() == i,
            forall|j: int| 0 <= j < i ==> items@[j]@ == want[j],
            forall|j: int| 0 <= j < i ==> dsizes@[j] == 0usize,
        decreases entries@.len() - i,
    {
        let e = &entries[i];
        let mut name: Vec<u8> = Vec::new();
        name.extend_from_slice(e.name.0.as_slice());
        let entry = entry3 { fileid: e.fileid, name: nfsstring(name), cookie: start_cookie + i as u64 + 1 };
        let mut item: Vec<u8> = Vec::new();
        put_bool(&mut item, true);
        entry.serialize(&mut item);
        assert(item@ =~= want[i as int]);
        items.push(item);
        dsizes.push(0);
        i = i + 1;
    }
    assert(views(items@) =~= want);
    assert(dsizes@ =~= zero_sizes(entries@.len()));
    let max_bytes: usize = if dircount >= REPLY_RESERVE {
        (dircount - REPLY_RESERVE) as usize
    } else {
        0
    };
    let k = append_within_budget(&mut out, &items, &dsizes, max_bytes, None);
    put_bool(&mut out, false);
    put_bool(&mut out, k == entries.len() && vfs_end);
    (out, k)
}

/// A READDIRPLUS reply. As READDIR, with each entry's attributes and handle;
/// the budget is `maxcount - 128` bytes for the whole reply, and the entries'
/// directory sizes (file id, name, cookie) must stay under `dircount`.
pub fn readdirplus_reply(
    xid: u32,
    generation: u64,
    dir_attr: &post_op_attr,
    verf: &[u8; 8],
    start_cookie: u64,
    entries: &Vec<DirEntry>,
    vfs_end: bool,
    dircount: u32,
    maxcount: u32,
) -> (r: (Vec<u8>, usize))
    requires
        start_cookie + entries@.len() <= u64::MAX,
        names_fit_plus(entries@),
        forall|i: int| 0 <= i < entries@.len() ==> entries@[i].name.0@.len() <= u32::MAX - 20,
    ensures
        taken(
            readdir_head(xid, *dir_attr, *verf).len() as int,
            readdirplus_items(entries@, start_cookie, generation),
            readdirplus_dsizes(entries@),
            budget(maxcount),
            Some(dircount as usize),
            r.1 as int,
        ),
        r.0@ == readdir_head(xid, *dir_attr, *verf) + flat(
            readdirplus_items(entries@, start_cookie, generation).take(r.1 as int),
        ) + readdir_tail(r.1 as int, entries@.len() as int, vfs_end),
{
    let mut out: Vec<u8> = Vec::new();
    write_success(&mut out, xid);
    put_u32(&mut out, 0);
    dir_attr.serialize(&mut out);
    put_verf(&mut out, verf);
    assert(out@ =~= readdir_head(xid, *dir_attr, *verf));
    let ghost want = readdirplus_items(entries@, start_cookie, generation);
    let ghost wantd = readdirplus_dsizes(entries@);
    let mut items: Vec<Vec<u8>> = Vec::new();
    let mut dsizes: Vec<usize> = Vec::new();
    let mut i: usize = 0;
    while i < entries.len()
        invariant
            i <= entries@.len(),
            start_cookie + entries@.len() <= u64::MAX,
            names_fit_plus(entries@),
            forall|i: int| 0 <= i < entries@.len() ==> entries@[i].name.0@.len() <= u32::MAX - 20,
            want == readdirplus_items(entries@, start_cookie, generation),
            wantd == readdirplus_dsizes(entries@),
            items@.len() == i,
            dsizes@.len() == i,
            forall|j: int| 0 <= j < i ==> items@[j]@ == want[j],
            forall|j: int| 0 <= j < i ==> dsizes@[j] == wantd[j],
        decreases entries@.len() - i,
    {
        let e = &entries[i];
        let mut name: Vec<u8> = Vec::new();
        name.extend_from_slice(e.name.0.as_slice());
        let entry = entryplus3 {
            fileid: e.fileid,
            name: nfsstring(name),
            cookie: start_cookie + i as u64 + 1,
            name_attributes: post_op_attr::attributes(e.attr),
            name_handle: post_op_fh3::handle(id_to_fh(generation, e.fileid)),
        };
        let mut item: Vec<u8> = Vec::new();
        put_bool(&mut item, true);
        entry.serialize(&mut item);
        assert(item@ =~= want[i as int]);
        items.push(item);
        dsizes.push(8 + 4 + e.name.0.len() + 8);
        i = i + 1;
    }
    assert(views(items@) =~= want);
    assert(dsizes@ =~= wantd);
    let max_bytes: usize = if maxcount >= REPLY_RESERVE {
        (maxcount - REPLY_RESERVE) as usize
    } else {
        0
    };
    let k = append_within_budget(&mut out, &items, &dsizes, max_bytes, Some(dircount as usize));
    put_bool(&mut out, false);
    put_bool(&mut out, k == entries.len() && vfs_end);
    (out, k)
}

/// A READDIR or READDIRPLUS failure: the status and the directory's attributes.
pub fn readdir_error_reply(xid: u32, stat: nfsstat3, dir_attr: &post_op_attr) -> (r: Vec<u8>)
    ensures
        r@ == success_bytes(xid) + stat.spec_enc() + dir_attr.spec_enc(),
{
    let mut out: Vec<u8> = Vec::new();
    write_success(&mut out, xid);
    stat.serialize(&mut out);
    dir_attr.serialize(&mut out);
    out
}

/// A cookie past the end of the listing is refused with `BAD_COOKIE`.
pub proof fn lemma_cookie_past_end(len: nat, end: bool, cookie: nat)
    requires
        cookie > len,
    ensures
        !window_ok(len, end, cookie),
{
}

/// When every entry fits, the reply's end flag is the file system's; when
/// one does not, it is `false`.
pub proof fn lemma_reply_eof(k: int, n: int, vfs_end: bool)
    requires
        0 <= k <= n,
    ensures
        k == n ==> readdir_tail(k, n, vfs_end) == bool_enc(false) + bool_enc(vfs_end),
        k < n ==> readdir_tail(k, n, vfs_end) == bool_enc(false) + bool_enc(false),
{
}

/// A listing from index 0 gives its entries cookies `1..=n`; continuing from
/// cookie `k` lists the entries after the `k`-th under the cookies the full
/// listing gives them, so pages join up without gap or repeat.
pub proof fn lemma_cookie_continuation(all: Seq<DirEntrySimple>, k: nat)
    requires
        k <= all.len(),
        all.len() <= u64::MAX,
    ensures
        forall|j: int|
            0 <= j < all.len() ==> #[trigger] readdir_items(all, 0)[j] == dir_item(
                all[j],
                (j + 1) as u64,
            ),
        forall|j: int|
            0 <= j < all.len() - k ==> #[trigger] readdir_items(all.skip(k as int), k as u64)[j]
                == readdir_items(all, 0)[k + j],
{
}

/// The same, for READDIRPLUS listings.
pub proof fn lemma_cookie_continuation_plus(all: Seq<DirEntry>, k: nat, generation: u64)
    requires
        k <= all.len(),
        all.len() <= u64::MAX,
    ensures
        forall|j: int|
            0 <= j < all.len() - k ==> #[trigger] readdirplus_items(all.skip(k as int), k as u64, generation)[j]
                == readdirplus_items(all, 0, generation)[k + j],
{
}

} // verus!
