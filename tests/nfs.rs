use nfs_mamont::dispatch::{handle_rpc, RpcStep};
use nfs_mamont::mount::{handle_mount, mnt_path, mnt_reply, MountStep};
use nfs_mamont::nfs3::args::{
    createhow3, createmode3, diropargs3, sattr3, set_atime, set_gid3, set_mode3, set_mtime, set_size3, set_uid3,
    stable_how, READDIR3args, WRITE3args,
};
use nfs_mamont::nfs3::handle::{cookie_verifier, fh_to_id, id_to_fh, server_id};
use nfs_mamont::nfs3::procs::{
    access_reply, attr_error_reply, commit_reply, create_guard, create_reply, fattr3_differ, fsinfo_reply,
    fsstat_reply, getattr_reply, granted_access, link_reply, lookup_reply, make_wcc, pathconf_reply, read_reply,
    readlink_reply, setattr_guard, wcc_reply, write_count_ok, write_reply, Capabilities,
};
use nfs_mamont::nfs3::readdir::{
    readdir_reply, readdir_window, readdirplus_reply, DirEntry, DirEntrySimple, ReadDirResult,
    ReadDirSimpleResult,
};
use nfs_mamont::nfs3::types::{
    fattr3, ftype3, nfs_fh3, nfsstat3, nfsstring, nfstime3, post_op_attr, specdata3, wcc_data,
    ACCESS3_DELETE, ACCESS3_EXECUTE, ACCESS3_LOOKUP, ACCESS3_MODIFY, ACCESS3_READ,
};
use nfs_mamont::nfs3::args::{mknoddata3, sattrguard3};
use nfs_mamont::nfs3::procs::{
    attr_from_stat, link_check, mknod_action, mode_unmask, readlink_check, remove_check, LocalKind, MknodAction,
};
use nfs_mamont::rpc::auth_flavor;
use nfs_mamont::portmap::PortmapTable;
use nfs_mamont::rpc::{call_body, opaque_auth, rpc_body, rpc_msg};
use nfs_mamont::tracker::TransactionTracker;
use nfs_mamont::xdr::{deserialize, get_bool, get_fixed, get_opaque, get_u32, get_u32s, get_u64, put_opaque, put_u32, put_u64, Serialize};

const GENERATION: u64 = 0x0000_0190_1234_5678;
const ROOT_ID: u64 = 1;

fn attr(id: u64, ftype: ftype3, size: u64) -> fattr3 {
    fattr3 {
        ftype,
        mode: 0o644,
        nlink: 1,
        uid: 0,
        gid: 0,
        size,
        used: size,
        rdev: specdata3 { specdata1: 0, specdata2: 0 },
        fsid: 0,
        fileid: id,
        atime: nfstime3 { seconds: 10, nseconds: 0 },
        mtime: nfstime3 { seconds: 20, nseconds: 5 },
        ctime: nfstime3 { seconds: 30, nseconds: 0 },
    }
}

fn simple(id: u64, name: &str) -> DirEntrySimple {
    DirEntrySimple { fileid: id, name: nfsstring(name.as_bytes().to_vec()) }
}

/// Status after the 24-byte RPC success header.
fn status(reply: &[u8]) -> u32 {
    get_u32(reply, 24).unwrap().0
}

/// Reads a READDIR reply: the entries' (fileid, name, cookie) and eof.
fn parse_readdir(reply: &[u8], plus: bool) -> (Vec<(u64, Vec<u8>, u64)>, bool) {
    assert_eq!(status(reply), 0);
    let (has_attr, mut pos) = get_bool(reply, 28).unwrap();
    if has_attr {
        pos += 84;
    }
    pos += 8;
    let mut entries = Vec::new();
    loop {
        let (more, p) = get_bool(reply, pos).unwrap();
        pos = p;
        if !more {
            break;
        }
        let (fileid, p) = get_u64(reply, pos).unwrap();
        let (name, p) = get_opaque(reply, p).unwrap();
        let (cookie, p) = get_u64(reply, p).unwrap();
        pos = p;
        if plus {
            let (a, p) = get_bool(reply, pos).unwrap();
            pos = if a { p + 84 } else { p };
            let (h, p) = get_bool(reply, pos).unwrap();
            pos = if h { get_opaque(reply, p).unwrap().1 } else { p };
        }
        entries.push((fileid, name, cookie));
    }
    let (eof, p) = get_bool(reply, pos).unwrap();
    assert_eq!(p, reply.len());
    (entries, eof)
}

#[test]
fn mnt_validates_prefix() {
    let call = call_body { rpcvers: 2, prog: 100005, vers: 3, proc: 1, cred: opaque_auth::null(), verf: opaque_auth::null() };
    let mut args = Vec::new();
    put_opaque(&mut args, b"/");
    let mut out = Vec::new();
    let step = handle_mount(1, &call, &args, 0, &mut out, b"/").unwrap();
    let path = match step {
        MountStep::Resolve(p) => p,
        _ => panic!("expected a path to resolve"),
    };
    assert_eq!(path, b"/".to_vec());
    assert!(out.is_empty());
    let reply = mnt_reply(1, Ok(ROOT_ID), GENERATION);
    assert_eq!(status(&reply), 0);
    let (fh, p) = get_opaque(&reply, 28).unwrap();
    let mut want = GENERATION.to_le_bytes().to_vec();
    want.extend_from_slice(&[1, 0, 0, 0, 0, 0, 0, 0]);
    assert_eq!(fh, want);
    let (flavors, p) = get_u32s(&reply, p).unwrap();
    assert_eq!(flavors, vec![0, 1]);
    assert_eq!(p, reply.len());

    let mut args = Vec::new();
    put_opaque(&mut args, b"/nope");
    let mut out = Vec::new();
    match handle_mount(2, &call, &args, 0, &mut out, b"/").unwrap() {
        MountStep::Resolve(p) => assert_eq!(p, b"/nope".to_vec()),
        _ => panic!("expected a path to resolve"),
    }
    let reply = mnt_reply(2, Err(nfsstat3::NFS3ERR_NOENT), GENERATION);
    assert_eq!(status(&reply), 2);
    assert_eq!(reply.len(), 28);
}

#[test]
fn mnt_outside_export_is_noent() {
    let call = call_body { rpcvers: 2, prog: 100005, vers: 3, proc: 1, cred: opaque_auth::null(), verf: opaque_auth::null() };
    let mut args = Vec::new();
    put_opaque(&mut args, b"/other/dir");
    let mut out = Vec::new();
    let step = handle_mount(3, &call, &args, 0, &mut out, b"/export").unwrap();
    assert!(matches!(step, MountStep::Replied { signal: None }));
    assert_eq!(status(&out), 2);
    assert_eq!(mnt_path(b"/export", b"/export//a/b//"), Some(b"/a/b".to_vec()));
    assert_eq!(mnt_path(b"/export", b"/export"), Some(b"/".to_vec()));
    assert_eq!(mnt_path(b"/export", b"/exp"), None);
}

#[test]
fn umnt_and_export_replies() {
    let mk = |proc| call_body { rpcvers: 2, prog: 100005, vers: 3, proc, cred: opaque_auth::null(), verf: opaque_auth::null() };
    let mut out = Vec::new();
    let step = handle_mount(4, &mk(4), &[], 0, &mut out, b"/").unwrap();
    assert!(matches!(step, MountStep::Replied { signal: Some(false) }));
    assert_eq!(status(&out), 0);
    let mut out = Vec::new();
    handle_mount(5, &mk(5), &[], 0, &mut out, b"/").unwrap();
    assert!(get_bool(&out, 24).unwrap().0);
    let (name, p) = get_opaque(&out, 28).unwrap();
    assert_eq!(name, b"/".to_vec());
    assert!(!get_bool(&out, p).unwrap().0);
    assert!(!get_bool(&out, p + 4).unwrap().0);
}

#[test]
fn write_round_trip_reply() {
    let fh = id_to_fh(GENERATION, 2);
    let mut args = Vec::new();
    fh.serialize(&mut args);
    put_u64(&mut args, 0);
    put_u32(&mut args, 4);
    put_u32(&mut args, 2);
    put_opaque(&mut args, b"data");
    let (a, end) = WRITE3args::deserialize(&args, 0).unwrap();
    assert_eq!(end, args.len());
    assert_eq!(a.data, b"data".to_vec());
    assert!(write_count_ok(a.count, a.data.len()));
    assert!(!write_count_ok(5, a.data.len()));
    assert_eq!(fh_to_id(GENERATION, &a.file), Ok(2));
    let stable = stable_how::from_u32(a.stable).unwrap();
    let wcc = make_wcc(Some(attr(2, ftype3::NF3REG, 0)), Some(attr(2, ftype3::NF3REG, 4)));
    let reply = write_reply(9, GENERATION, Ok((4, stable)), &wcc);
    assert_eq!(status(&reply), 0);
    // wcc: pre-op (4 + 24), post-op (4 + 84)
    let (before, p) = get_bool(&reply, 28).unwrap();
    assert!(before);
    let (after, p) = get_bool(&reply, p + 24).unwrap();
    assert!(after);
    let size_after = get_u64(&reply, p + 20).unwrap().0;
    assert_eq!(size_after, 4);
    let p = p + 84;
    assert_eq!(get_u32(&reply, p).unwrap().0, 4);
    assert_eq!(get_u32(&reply, p + 4).unwrap().0, 2);
    let (verf, end) = get_fixed(&reply, p + 8, 8).unwrap();
    assert_eq!(verf, GENERATION.to_le_bytes().to_vec());
    assert_eq!(end, reply.len());
    assert_eq!(server_id(GENERATION), GENERATION.to_le_bytes());
}

#[test]
fn write_reports_actual_count() {
    let wcc = make_wcc(None, None);
    let reply = write_reply(1, GENERATION, Ok((2, stable_how::UNSTABLE)), &wcc);
    assert_eq!(get_u32(&reply, 36).unwrap().0, 2);
    assert_eq!(get_u32(&reply, 40).unwrap().0, 0);
    let reply = write_reply(1, GENERATION, Err(nfsstat3::NFS3ERR_IO), &wcc);
    assert_eq!(status(&reply), 5);
    assert_eq!(reply.len(), 36);
}

fn dir_entries() -> Vec<DirEntrySimple> {
    vec![simple(10, "alpha"), simple(11, "beta"), simple(12, "gamma")]
}

#[test]
fn readdir_truncation() {
    let verf = cookie_verifier(None);
    let all = dir_entries();
    // head 40 bytes, "alpha" 32 bytes, "beta" 28 bytes: a budget of 90 takes one
    let (reply, k) = readdir_reply(1, &post_op_attr::Void, &verf, 0, &all, true, 128 + 90);
    assert_eq!(k, 1);
    let (entries, eof) = parse_readdir(&reply, false);
    assert_eq!(entries.iter().map(|e| e.1.clone()).collect::<Vec<_>>(), vec![b"alpha".to_vec()]);
    assert_eq!(entries.iter().map(|e| e.2).collect::<Vec<_>>(), vec![1]);
    assert!(!eof);

    let listing = ReadDirResult {
        entries: all.iter().map(|e| DirEntry { fileid: e.fileid, name: e.name.clone(), attr: attr(e.fileid, ftype3::NF3REG, 0) }).collect(),
        end: true,
    };
    let rest = readdir_window(listing, 1).unwrap();
    let rest = ReadDirSimpleResult::from_readdir_result(&rest);
    let (reply, k) = readdir_reply(2, &post_op_attr::Void, &verf, 1, &rest.entries, rest.end, 4096);
    assert_eq!(k, 2);
    let (entries, eof) = parse_readdir(&reply, false);
    assert_eq!(entries.iter().map(|e| e.1.clone()).collect::<Vec<_>>(), vec![b"beta".to_vec(), b"gamma".to_vec()]);
    assert_eq!(entries.iter().map(|e| e.2).collect::<Vec<_>>(), vec![2, 3]);
    assert!(eof);
}

#[test]
fn readdir_uses_sequential_cookies() {
    let entries = vec![simple(100, "alpha"), simple(200, "beta")];
    let dir = attr(ROOT_ID, ftype3::NF3DIR, 0);
    let verf = cookie_verifier(Some(dir.mtime));
    let (reply, _) = readdir_reply(8, &post_op_attr::attributes(dir), &verf, 0, &entries, true, 4096);
    let (listed, eof) = parse_readdir(&reply, false);
    assert_eq!(listed.iter().map(|e| e.2).collect::<Vec<_>>(), vec![1, 2]);
    assert_eq!(listed.iter().map(|e| e.0).collect::<Vec<_>>(), vec![100, 200]);
    assert!(eof);
    assert_eq!(verf, ((20u64 << 32) | 5).to_be_bytes());
}

#[test]
fn readdirplus_uses_sequential_cookies() {
    let entries = vec![
        DirEntry { fileid: 100, name: nfsstring(b"alpha".to_vec()), attr: attr(100, ftype3::NF3REG, 0) },
        DirEntry { fileid: 200, name: nfsstring(b"beta".to_vec()), attr: attr(200, ftype3::NF3REG, 0) },
    ];
    let verf = cookie_verifier(None);
    let (reply, k) = readdirplus_reply(9, GENERATION, &post_op_attr::Void, &verf, 0, &entries, true, 4096, 65536);
    assert_eq!(k, 2);
    let (listed, eof) = parse_readdir(&reply, true);
    assert_eq!(listed.iter().map(|e| e.2).collect::<Vec<_>>(), vec![1, 2]);
    assert!(eof);
    // a directory budget too small for the second entry truncates the reply
    let (reply, k) = readdirplus_reply(9, GENERATION, &post_op_attr::Void, &verf, 0, &entries, true, 40, 65536);
    assert_eq!(k, 1);
    let (_, eof) = parse_readdir(&reply, true);
    assert!(!eof);
}

#[test]
fn readdir_cookie_past_end_is_bad() {
    let listing = || ReadDirResult {
        entries: vec![DirEntry { fileid: 5, name: nfsstring(b"a".to_vec()), attr: attr(5, ftype3::NF3REG, 0) }],
        end: true,
    };
    assert!(matches!(readdir_window(listing(), 2), Err(nfsstat3::NFS3ERR_BAD_COOKIE)));
    let at_end = readdir_window(listing(), 1).unwrap();
    assert!(at_end.entries.is_empty());
    assert!(at_end.end);
    let partial = ReadDirResult { end: false, ..listing() };
    assert!(matches!(readdir_window(partial, 1), Err(nfsstat3::NFS3ERR_BAD_COOKIE)));
}

#[test]
fn readdir_args_decode() {
    let mut bytes = Vec::new();
    id_to_fh(GENERATION, ROOT_ID).serialize(&mut bytes);
    put_u64(&mut bytes, 3);
    bytes.extend_from_slice(&[0; 8]);
    put_u32(&mut bytes, 4096);
    let (a, end) = READDIR3args::deserialize(&bytes, 0).unwrap();
    assert_eq!(end, bytes.len());
    assert_eq!(a.cookie, 3);
    assert_eq!(a.dircount, 4096);
    assert_eq!(a.cookieverf, vec![0; 8]);
}

#[test]
fn guarded_create_collision() {
    assert_eq!(create_guard(createmode3::GUARDED, true), Some(nfsstat3::NFS3ERR_EXIST));
    assert_eq!(create_guard(createmode3::GUARDED, false), None);
    assert_eq!(create_guard(createmode3::UNCHECKED, true), None);
    let dir = attr(ROOT_ID, ftype3::NF3DIR, 0);
    let wcc = make_wcc(Some(dir), Some(dir));
    let reply = create_reply(4, GENERATION, Err(nfsstat3::NFS3ERR_EXIST), &wcc);
    assert_eq!(status(&reply), 17);
    assert!(get_bool(&reply, 28).unwrap().0);
    assert!(get_bool(&reply, 28 + 4 + 24).unwrap().0);
    assert_eq!(reply.len(), 28 + 28 + 88);
    let ok = create_reply(4, GENERATION, Ok((7, attr(7, ftype3::NF3REG, 0))), &wcc);
    assert_eq!(status(&ok), 0);
    assert!(get_bool(&ok, 28).unwrap().0);
    let (fh, _) = get_opaque(&ok, 32).unwrap();
    assert_eq!(fh_to_id(GENERATION, &nfs_fh3 { data: fh }), Ok(7));
}

#[test]
fn create_args_decode() {
    let mut bytes = Vec::new();
    id_to_fh(GENERATION, ROOT_ID).serialize(&mut bytes);
    put_opaque(&mut bytes, b"a");
    put_u32(&mut bytes, 1);
    // mode set, uid/gid/size unset, atime server time, mtime unchanged
    put_u32(&mut bytes, 1);
    put_u32(&mut bytes, 0o600);
    put_u32(&mut bytes, 0);
    put_u32(&mut bytes, 0);
    put_u32(&mut bytes, 0);
    put_u32(&mut bytes, 1);
    put_u32(&mut bytes, 0);
    let (d, p) = diropargs3::deserialize(&bytes, 0).unwrap();
    assert_eq!(d.name.0, b"a".to_vec());
    let (how, end) = createhow3::deserialize(&bytes, p).unwrap();
    assert_eq!(end, bytes.len());
    assert_eq!(how.mode(), createmode3::GUARDED);
    match how {
        createhow3::GUARDED(s) => assert_eq!(
            s,
            sattr3 {
                mode: set_mode3::mode(0o600),
                uid: set_uid3::Void,
                gid: set_gid3::Void,
                size: set_size3::Void,
                atime: set_atime::SET_TO_SERVER_TIME,
                mtime: set_mtime::DONT_CHANGE,
            }
        ),
        _ => panic!("expected GUARDED"),
    }
}

#[test]
fn stale_handle() {
    let fh = id_to_fh(GENERATION, 42);
    assert_eq!(fh.data.len(), 16);
    assert_eq!(fh_to_id(GENERATION, &fh), Ok(42));
    assert_eq!(fh_to_id(GENERATION + 1, &fh), Err(nfsstat3::NFS3ERR_STALE));
    assert_eq!(fh_to_id(GENERATION - 1, &fh), Err(nfsstat3::NFS3ERR_BADHANDLE));
    assert_eq!(fh_to_id(GENERATION, &nfs_fh3 { data: vec![0; 15] }), Err(nfsstat3::NFS3ERR_BADHANDLE));
}

#[test]
fn duplicate_request_reaches_the_file_system_once() {
    let mut tracker = TransactionTracker::new(60_000);
    let mut portmap = PortmapTable::new();
    let call = call_body { rpcvers: 2, prog: 100003, vers: 3, proc: 8, cred: opaque_auth::null(), verf: opaque_auth::null() };
    let mut record = Vec::new();
    rpc_msg { xid: 7, body: rpc_body::CALL(call) }.serialize(&mut record);
    id_to_fh(GENERATION, ROOT_ID).serialize(&mut record);
    put_opaque(&mut record, b"a");
    put_u32(&mut record, 0);
    let mut creates = 0;
    for _ in 0..2 {
        let mut out = Vec::new();
        let mut auth = None;
        match handle_rpc(&record, b"10.0.0.1:900", 5, &mut tracker, &mut portmap, b"/", &mut auth, &mut out).unwrap() {
            RpcStep::Nfs { xid, proc, .. } => {
                assert_eq!((xid, proc), (7, 8));
                creates += 1;
                tracker.mark_processed(xid, b"10.0.0.1:900", 6);
            }
            RpcStep::Dropped => assert!(out.is_empty()),
            _ => panic!("unexpected step"),
        }
    }
    assert_eq!(creates, 1);
}

#[test]
fn access_returns_only_requested_bits() {
    let reply = access_reply(11, Ok(attr(2, ftype3::NF3REG, 0)), ACCESS3_READ, Capabilities::ReadWrite);
    assert_eq!(status(&reply), 0);
    let granted = get_u32(&reply, 28 + 4 + 84).unwrap().0;
    assert_eq!(granted, ACCESS3_READ);
}

#[test]
fn access_mask_by_type() {
    let all = 0x3F;
    assert_eq!(granted_access(all, ftype3::NF3REG, Capabilities::ReadOnly), ACCESS3_LOOKUP | ACCESS3_READ | ACCESS3_EXECUTE);
    assert_eq!(granted_access(all, ftype3::NF3REG, Capabilities::ReadWrite), all);
    assert_eq!(granted_access(all, ftype3::NF3DIR, Capabilities::ReadOnly), ACCESS3_LOOKUP | ACCESS3_READ | ACCESS3_EXECUTE);
    assert_eq!(granted_access(ACCESS3_MODIFY | ACCESS3_DELETE, ftype3::NF3DIR, Capabilities::ReadWrite), ACCESS3_MODIFY | ACCESS3_DELETE);
    assert_eq!(granted_access(all, ftype3::NF3LNK, Capabilities::ReadWrite), ACCESS3_LOOKUP | ACCESS3_READ);
    assert_eq!(granted_access(all, ftype3::NF3FIFO, Capabilities::ReadWrite), ACCESS3_LOOKUP | ACCESS3_READ | ACCESS3_EXECUTE);
    let reply = access_reply(1, Err(nfsstat3::NFS3ERR_STALE), all, Capabilities::ReadWrite);
    assert_eq!(status(&reply), 70);
    assert!(!get_bool(&reply, 28).unwrap().0);
}

#[test]
fn rename_error_includes_two_wcc_data_blocks() {
    let dir = attr(ROOT_ID, ftype3::NF3DIR, 0);
    let w = make_wcc(Some(dir), Some(dir));
    let v = make_wcc(None, None);
    let reply = wcc_reply(3, nfsstat3::NFS3ERR_NOENT, &vec![w, v]);
    assert_eq!(status(&reply), 2);
    assert_eq!(reply.len(), 28 + (4 + 24 + 4 + 84) + (4 + 4));
}

#[test]
fn setattr_guard_mismatch_is_not_sync() {
    let t = nfstime3 { seconds: 30, nseconds: 0 };
    assert_eq!(setattr_guard(sattrguard3::obj_ctime(nfstime3 { seconds: 31, nseconds: 0 }), t), Some(nfsstat3::NFS3ERR_NOT_SYNC));
    assert_eq!(setattr_guard(sattrguard3::obj_ctime(t), t), None);
    assert_eq!(setattr_guard(sattrguard3::Void, t), None);
    let reply = wcc_reply(1, nfsstat3::NFS3ERR_NOT_SYNC, &vec![wcc_data { before: nfs_mamont::nfs3::types::pre_op_attr::Void, after: post_op_attr::Void }]);
    assert_eq!(status(&reply), 10002);
    assert_eq!(reply.len(), 36);
}

#[test]
fn attributes_differ() {
    let a = attr(1, ftype3::NF3REG, 0);
    assert!(!fattr3_differ(&a, &a));
    assert!(fattr3_differ(&a, &attr(1, ftype3::NF3REG, 1)));
    assert!(fattr3_differ(&a, &attr(1, ftype3::NF3DIR, 0)));
}

#[test]
fn remove_link_readlink_and_mknod_rules() {
    assert_eq!(remove_check(false, ftype3::NF3DIR), Some(nfsstat3::NFS3ERR_ISDIR));
    assert_eq!(remove_check(true, ftype3::NF3REG), Some(nfsstat3::NFS3ERR_NOTDIR));
    assert_eq!(remove_check(true, ftype3::NF3DIR), None);
    assert_eq!(remove_check(false, ftype3::NF3REG), None);
    assert_eq!(link_check(Some(ftype3::NF3DIR), false), Some(nfsstat3::NFS3ERR_ISDIR));
    assert_eq!(link_check(Some(ftype3::NF3REG), true), Some(nfsstat3::NFS3ERR_EXIST));
    assert_eq!(link_check(Some(ftype3::NF3REG), false), None);
    assert_eq!(readlink_check(ftype3::NF3REG), Some(nfsstat3::NFS3ERR_INVAL));
    assert_eq!(readlink_check(ftype3::NF3LNK), None);
    let none = specdata3 { specdata1: 0, specdata2: 0 };
    let a = sattr3 { mode: set_mode3::mode(0o600), ..sattr3::unchanged() };
    let pipe = mknoddata3 { mknod_type: ftype3::NF3FIFO, attributes: Some(a), device: none };
    assert!(matches!(mknod_action(&pipe), MknodAction::Mknod { ftype: ftype3::NF3FIFO, .. }));
    let dir = mknoddata3 { mknod_type: ftype3::NF3DIR, attributes: None, device: none };
    assert!(matches!(mknod_action(&dir), MknodAction::Mkdir));
    let lnk = mknoddata3 { mknod_type: ftype3::NF3LNK, attributes: None, device: none };
    assert!(matches!(mknod_action(&lnk), MknodAction::Refuse(nfsstat3::NFS3ERR_BADTYPE)));
    let mut bytes = Vec::new();
    put_u32(&mut bytes, 4);
    for _ in 0..6 {
        put_u32(&mut bytes, 0);
    }
    put_u32(&mut bytes, 8);
    put_u32(&mut bytes, 1);
    let (chr, end) = mknoddata3::deserialize(&bytes, 0).unwrap();
    assert_eq!(end, bytes.len());
    assert_eq!(chr.mknod_type, ftype3::NF3CHR);
    assert_eq!(chr.device, specdata3 { specdata1: 8, specdata2: 1 });
}

#[test]
fn local_attributes_from_status() {
    assert_eq!(mode_unmask(0o100644), 0o644 | 0x80);
    assert_eq!(mode_unmask(0o000), 0x80);
    let t = nfstime3 { seconds: 1, nseconds: 2 };
    let d = attr_from_stat(9, LocalKind::Directory, 0o40755, 1, 2, 4096, t, t, t);
    assert_eq!(d.ftype, ftype3::NF3DIR);
    assert_eq!(d.nlink, 2);
    assert_eq!(d.mode, 0o755);
    assert_eq!(d.used, 4096);
    let l = attr_from_stat(10, LocalKind::Symlink, 0o120777, 1, 2, 7, t, t, t);
    assert_eq!(l.ftype, ftype3::NF3LNK);
    assert_eq!(l.nlink, 1);
    assert_eq!(l.fileid, 10);
}

#[test]
fn enum_decoding_refuses_unknown_values() {
    assert_eq!(deserialize::<ftype3>(&[0, 0, 0, 5], 0), Some((ftype3::NF3LNK, 4)));
    assert_eq!(deserialize::<ftype3>(&[0, 0, 0, 8], 0), None);
    assert_eq!(deserialize::<auth_flavor>(&[0, 0, 0, 1], 0), Some((auth_flavor::AUTH_UNIX, 4)));
    assert_eq!(deserialize::<auth_flavor>(&[0, 0, 0, 4], 0), None);
}

#[test]
fn plain_replies() {
    let a = attr(3, ftype3::NF3REG, 10);
    let r = getattr_reply(1, Ok(a));
    assert_eq!(status(&r), 0);
    assert_eq!(r.len(), 28 + 84);
    assert_eq!(get_u64(&r, 28 + 20).unwrap().0, 10);
    assert_eq!(getattr_reply(1, Err(nfsstat3::NFS3ERR_STALE)).len(), 28);

    let r = lookup_reply(2, GENERATION, Ok((3, Some(a))), None);
    let (fh, p) = get_opaque(&r, 28).unwrap();
    assert_eq!(fh_to_id(GENERATION, &nfs_fh3 { data: fh }), Ok(3));
    assert!(get_bool(&r, p).unwrap().0);
    assert!(!get_bool(&r, p + 88).unwrap().0);
    let r = lookup_reply(2, GENERATION, Err(nfsstat3::NFS3ERR_NOENT), Some(a));
    assert_eq!(status(&r), 2);
    assert_eq!(r.len(), 28 + 88);

    let r = read_reply(3, Ok((b"abcde".to_vec(), true)), None);
    assert_eq!(get_u32(&r, 32).unwrap().0, 5);
    assert!(get_bool(&r, 36).unwrap().0);
    assert_eq!(get_opaque(&r, 40).unwrap().0, b"abcde".to_vec());
    let r = read_reply(3, Ok((vec![], true)), None);
    assert_eq!(get_u32(&r, 32).unwrap().0, 0);

    let r = readlink_reply(4, None, b"target");
    assert_eq!(get_opaque(&r, 32).unwrap().0, b"target".to_vec());
    let r = attr_error_reply(4, nfsstat3::NFS3ERR_INVAL, Some(a));
    assert_eq!(status(&r), 22);
    assert!(get_bool(&r, 28).unwrap().0);

    let w = make_wcc(None, None);
    let r = commit_reply(5, GENERATION, Ok(()), &w);
    assert_eq!(get_fixed(&r, 36, 8).unwrap().0, GENERATION.to_le_bytes().to_vec());
    let r = link_reply(6, nfsstat3::NFS3ERR_ISDIR, None, &w);
    assert_eq!(status(&r), 21);
    assert_eq!(r.len(), 28 + 4 + 8);

    let r = fsinfo_reply(7, None);
    assert_eq!(get_u32(&r, 32).unwrap().0, 1048576);
    assert_eq!(get_u64(&r, 60).unwrap().0, 137438953472);
    assert_eq!(get_u32(&r, 72).unwrap().0, 1000000);
    assert_eq!(get_u32(&r, 76).unwrap().0, 0x1A);
    let r = fsstat_reply(8, None);
    assert_eq!(get_u64(&r, 32).unwrap().0, 1 << 40);
    assert_eq!(get_u64(&r, 56).unwrap().0, 1 << 30);
    assert_eq!(get_u32(&r, 80).unwrap().0, u32::MAX);
    let r = pathconf_reply(9, None);
    assert_eq!(get_u32(&r, 36).unwrap().0, 32768);
    assert!(get_bool(&r, 40).unwrap().0);
    assert!(!get_bool(&r, 48).unwrap().0);
    assert_eq!(r.len(), 56);
}

#[test]
fn rmdir_rejects_non_directory_target() {
    let file = attr(2, ftype3::NF3REG, 0);
    assert_eq!(remove_check(true, file.ftype), Some(nfsstat3::NFS3ERR_NOTDIR));
    let dir = attr(ROOT_ID, ftype3::NF3DIR, 0);
    let reply = wcc_reply(1, nfsstat3::NFS3ERR_NOTDIR, &vec![make_wcc(Some(dir), Some(dir))]);
    assert_eq!(status(&reply), 20);
}

#[test]
fn readlink_error_includes_post_op_attr() {
    let handle = nfs_fh3 { data: Vec::new() };
    let e = fh_to_id(GENERATION, &handle).unwrap_err();
    assert_eq!(e, nfsstat3::NFS3ERR_BADHANDLE);
    let reply = attr_error_reply(2, e, None);
    assert_eq!(status(&reply), 10001);
    let (has_attr, end) = get_bool(&reply, 28).expect("deserialize post_op_attr");
    assert!(!has_attr);
    assert_eq!(end, reply.len());
}

#[test]
fn setattr_error_includes_wcc_data() {
    let mut args = Vec::new();
    put_opaque(&mut args, &[]);
    for _ in 0..6 {
        put_u32(&mut args, 0);
    }
    put_u32(&mut args, 0);
    let (a, end) = nfs_mamont::nfs3::args::SETATTR3args::deserialize(&args, 0).unwrap();
    assert_eq!(end, args.len());
    assert_eq!(a.new_attribute, sattr3::unchanged());
    let e = fh_to_id(GENERATION, &a.object).unwrap_err();
    let reply = wcc_reply(3, e, &vec![make_wcc(None, None)]);
    assert_eq!(status(&reply), 10001);
    assert!(!get_bool(&reply, 28).unwrap().0);
    assert!(!get_bool(&reply, 32).unwrap().0);
    assert_eq!(reply.len(), 36);
}

#[test]
fn fsinfo_error_includes_post_op_attr() {
    let reply = attr_error_reply(4, nfsstat3::NFS3ERR_IO, Some(attr(ROOT_ID, ftype3::NF3DIR, 0)));
    assert_eq!(status(&reply), 5);
    assert!(get_bool(&reply, 28).unwrap().0);
    assert_eq!(reply.len(), 28 + 4 + 84);
}

#[test]
fn mknod_passes_pipe_attributes() {
    let mut args = Vec::new();
    id_to_fh(GENERATION, ROOT_ID).serialize(&mut args);
    put_opaque(&mut args, b"pipe");
    put_u32(&mut args, 7);
    put_u32(&mut args, 1);
    put_u32(&mut args, 0o600);
    for _ in 0..5 {
        put_u32(&mut args, 0);
    }
    let (a, end) = nfs_mamont::nfs3::args::MKNOD3args::deserialize(&args, 0).unwrap();
    assert_eq!(end, args.len());
    match mknod_action(&a.what) {
        MknodAction::Mknod { ftype, attributes, .. } => {
            assert_eq!(ftype, ftype3::NF3FIFO);
            assert_eq!(attributes.mode, set_mode3::mode(0o600));
        }
        _ => panic!("expected mknod"),
    }
}

#[test]
fn write_passes_stable_and_returns_committed() {
    let mut args = Vec::new();
    id_to_fh(GENERATION, 2).serialize(&mut args);
    put_u64(&mut args, 0);
    put_u32(&mut args, 2);
    put_u32(&mut args, 2);
    put_opaque(&mut args, b"hi");
    let (a, _) = WRITE3args::deserialize(&args, 0).unwrap();
    assert_eq!(stable_how::from_u32(a.stable), Some(stable_how::FILE_SYNC));
    let reply = write_reply(1, GENERATION, Ok((2, stable_how::DATA_SYNC)), &make_wcc(None, None));
    assert_eq!(status(&reply), 0);
    assert_eq!(get_u32(&reply, 40).unwrap().0, 1);
}
