use nfs_mamont::dispatch::{handle_rpc, RpcStep};
use nfs_mamont::framing::{
    decode_fragment_header, write_fragment, FragmentStep, RecordAssembler, MAX_RPC_RECORD_LENGTH,
};
use nfs_mamont::nfs3::types as nfs3;
use nfs_mamont::portmap::PortmapTable;
use nfs_mamont::rpc::{
    call_body, garbage_args_reply_message, make_success_reply, opaque_auth, proc_unavail_reply_message,
    prog_mismatch_reply_message, prog_unavail_reply_message, rpc_body, rpc_msg, rpc_vers_mismatch,
    auth_flavor, auth_unix,
};
use nfs_mamont::tracker::TransactionTracker;
use nfs_mamont::xdr::{get_u32, Serialize};

struct Server {
    tracker: TransactionTracker,
    portmap: PortmapTable,
}

impl Server {
    fn new() -> Server {
        Server { tracker: TransactionTracker::new(60_000), portmap: PortmapTable::new() }
    }

    fn call(&mut self, record: &[u8], addr: &str, now: u64) -> (RpcStep, Vec<u8>) {
        let mut out = Vec::new();
        let mut auth = None;
        let step = handle_rpc(
            record,
            addr.as_bytes(),
            now,
            &mut self.tracker,
            &mut self.portmap,
            b"/",
            &mut auth,
            &mut out,
        )
        .expect("well-formed call");
        (step, out)
    }
}

fn call_record(xid: u32, rpcvers: u32, prog: u32, vers: u32, proc: u32) -> Vec<u8> {
    let call = call_body { rpcvers, prog, vers, proc, cred: opaque_auth::null(), verf: opaque_auth::null() };
    let msg = rpc_msg { xid, body: rpc_body::CALL(call) };
    let mut buf = Vec::new();
    msg.serialize(&mut buf);
    buf
}

fn framed(record: &[u8]) -> Vec<u8> {
    let mut wire = Vec::new();
    write_fragment(&mut wire, record);
    wire
}

/// Reads one framed record the way a connection does.
fn read_record(wire: &[u8]) -> Result<Vec<u8>, &'static str> {
    let mut assembler = RecordAssembler::new();
    let mut pos = 0;
    loop {
        let header = get_u32(wire, pos).ok_or("short header")?.0;
        pos += 4;
        let len = match assembler.on_header(header) {
            FragmentStep::ReadBody(n) => n,
            FragmentStep::TooLong => return Err("exceeds max"),
        };
        let last = decode_fragment_header(header).is_last;
        let body = &wire[pos..pos + len];
        pos += len;
        if let Some(rec) = assembler.on_body(body, last) {
            return Ok(rec);
        }
    }
}

#[test]
fn rejects_oversized_rpc_fragment() {
    let oversized = MAX_RPC_RECORD_LENGTH + 1;
    let fragment_header = (1_u32 << 31) | (oversized as u32);
    let err = read_record(&fragment_header.to_be_bytes()).expect_err("expected oversize error");
    assert!(err.contains("exceeds max"), "unexpected error: {err:?}");
}

#[test]
fn accepts_record_at_limit() {
    let assembler = RecordAssembler::new();
    let header = (1_u32 << 31) | (MAX_RPC_RECORD_LENGTH as u32);
    assert!(matches!(assembler.on_header(header), FragmentStep::ReadBody(n) if n == MAX_RPC_RECORD_LENGTH));
}

#[test]
fn accepts_rpc_fragment_under_limit() {
    let xid = 7;
    let msg_buf = call_record(xid, 2, nfs3::PROGRAM, nfs3::VERSION + 1, 0);
    let record = read_record(&framed(&msg_buf)).expect("handler read");
    let mut server = Server::new();
    let (step, response) = server.call(&record, "127.0.0.1:700", 0);
    assert!(matches!(step, RpcStep::Replied { .. }));
    assert_eq!(get_u32(&response, 0).unwrap().0, xid);
}

#[test]
fn returns_prog_mismatch_for_unsupported_nfs_version() {
    let xid = 42;
    let record = call_record(xid, 2, nfs3::PROGRAM, nfs3::VERSION + 1, 0);
    let mut server = Server::new();
    let (_, response) = server.call(&record, "127.0.0.1:700", 0);
    let mut expected = Vec::new();
    prog_mismatch_reply_message(xid, nfs3::VERSION).serialize(&mut expected);
    assert_eq!(response, expected);
    assert_eq!(get_u32(&response, 0).unwrap().0, xid);
    // MSG_ACCEPTED, PROG_MISMATCH, low = high = 3
    assert_eq!(get_u32(&response, 8).unwrap().0, 0);
    assert_eq!(get_u32(&response, 20).unwrap().0, 2);
    assert_eq!(get_u32(&response, 24).unwrap().0, nfs3::VERSION);
    assert_eq!(get_u32(&response, 28).unwrap().0, nfs3::VERSION);
}

#[test]
fn rpc_version_other_than_two_is_refused() {
    let record = call_record(5, 3, nfs3::PROGRAM, 3, 0);
    let mut server = Server::new();
    let (_, response) = server.call(&record, "a", 0);
    let mut expected = Vec::new();
    rpc_vers_mismatch(5).serialize(&mut expected);
    assert_eq!(response, expected);
    assert_eq!(response, vec![0, 0, 0, 5, 0, 0, 0, 1, 0, 0, 0, 1, 0, 0, 0, 0, 0, 0, 0, 0, 0, 0, 0, 0]);
}

#[test]
fn portmap_version_mismatch_and_unknown_programs() {
    let mut server = Server::new();
    let (_, response) = server.call(&call_record(1, 2, 100000, 3, 0), "a", 0);
    let mut expected = Vec::new();
    prog_mismatch_reply_message(1, 2).serialize(&mut expected);
    assert_eq!(response, expected);
    for (xid, prog) in [(2u32, 100227u32), (3, 100270), (4, 400122), (5, 200024), (6, 123456)] {
        let (step, response) = server.call(&call_record(xid, 2, prog, 1, 0), "a", 0);
        assert!(matches!(step, RpcStep::Replied { mount_signal: None }));
        let mut expected = Vec::new();
        prog_unavail_reply_message(xid).serialize(&mut expected);
        assert_eq!(response, expected);
    }
}

#[test]
fn unknown_procedure_is_unavailable() {
    let mut server = Server::new();
    let (_, response) = server.call(&call_record(8, 2, 100000, 2, 9), "a", 0);
    let mut expected = Vec::new();
    proc_unavail_reply_message(8).serialize(&mut expected);
    assert_eq!(response, expected);
    let (_, response) = server.call(&call_record(9, 2, 100005, 3, 2), "a", 0);
    let mut expected = Vec::new();
    proc_unavail_reply_message(9).serialize(&mut expected);
    assert_eq!(response, expected);
}

#[test]
fn undecodable_arguments_are_garbage() {
    let mut server = Server::new();
    let mut record = call_record(11, 2, 100000, 2, 3);
    record.extend_from_slice(&[0, 0, 0, 1]);
    let (_, response) = server.call(&record, "a", 0);
    let mut expected = Vec::new();
    garbage_args_reply_message(11).serialize(&mut expected);
    assert_eq!(response, expected);
}

#[test]
fn retransmission_gets_no_second_reply() {
    let mut server = Server::new();
    let record = call_record(7, 2, 100000, 2, 0);
    let (first, response) = server.call(&record, "10.0.0.1:800", 1_000);
    assert!(matches!(first, RpcStep::Replied { .. }));
    let mut expected = Vec::new();
    make_success_reply(7).serialize(&mut expected);
    assert_eq!(response, expected);
    let (second, response) = server.call(&record, "10.0.0.1:800", 2_000);
    assert!(matches!(second, RpcStep::Dropped));
    assert!(response.is_empty());
    // another client with the same xid is a new call
    let (third, _) = server.call(&record, "10.0.0.2:800", 2_000);
    assert!(matches!(third, RpcStep::Replied { .. }));
    // after the retention period the record is gone
    let (fourth, _) = server.call(&record, "10.0.0.1:800", 100_000);
    assert!(matches!(fourth, RpcStep::Replied { .. }));
}

#[test]
fn nfs_call_is_handed_back() {
    let mut server = Server::new();
    let mut record = call_record(21, 2, nfs3::PROGRAM, nfs3::VERSION, 1);
    let args_at = record.len();
    record.extend_from_slice(&[0, 0, 0, 0]);
    let (step, response) = server.call(&record, "a", 0);
    match step {
        RpcStep::Nfs { xid, proc, args } => {
            assert_eq!(xid, 21);
            assert_eq!(proc, 1);
            assert_eq!(args, args_at);
        }
        _ => panic!("expected an NFS step"),
    }
    assert!(response.is_empty());
}

#[test]
fn bad_records_fail_the_connection() {
    let mut tracker = TransactionTracker::new(60_000);
    let mut portmap = PortmapTable::new();
    let mut out = Vec::new();
    let mut auth = None;
    // a reply, not a call
    let mut reply = Vec::new();
    make_success_reply(1).serialize(&mut reply);
    assert!(handle_rpc(&reply, b"a", 0, &mut tracker, &mut portmap, b"/", &mut auth, &mut out).is_err());
    assert!(handle_rpc(&[0, 0], b"a", 0, &mut tracker, &mut portmap, b"/", &mut auth, &mut out).is_err());
    assert!(out.is_empty());
}

#[test]
fn auth_unix_credentials_are_read() {
    let cred = auth_unix { stamp: 1, machinename: b"host".to_vec(), uid: 1000, gid: 100, gids: vec![4, 24] };
    let mut body = Vec::new();
    cred.serialize(&mut body);
    let call = call_body {
        rpcvers: 2,
        prog: 100000,
        vers: 2,
        proc: 0,
        cred: opaque_auth { flavor: auth_flavor::AUTH_UNIX, body },
        verf: opaque_auth::null(),
    };
    let mut record = Vec::new();
    rpc_msg { xid: 3, body: rpc_body::CALL(call) }.serialize(&mut record);
    let mut tracker = TransactionTracker::new(60_000);
    let mut portmap = PortmapTable::new();
    let mut out = Vec::new();
    let mut auth = None;
    handle_rpc(&record, b"a", 0, &mut tracker, &mut portmap, b"/", &mut auth, &mut out).unwrap();
    let a = auth.expect("credentials");
    assert_eq!(a.uid, 1000);
    assert_eq!(a.gid, 100);
    assert_eq!(a.gids, vec![4, 24]);
    assert_eq!(a.machinename, b"host".to_vec());
}

#[test]
fn fragments_split_at_limit() {
    let wire = framed(&[1, 2, 3]);
    assert_eq!(wire, vec![0x80, 0, 0, 3, 1, 2, 3]);
    assert!(framed(&[]).is_empty());
    let h = decode_fragment_header(0x7FFF_FFFF);
    assert!(!h.is_last);
    assert_eq!(h.length, 0x7FFF_FFFF);
    let h = decode_fragment_header(0x8000_0010);
    assert!(h.is_last);
    assert_eq!(h.length, 16);
}

#[test]
fn multi_fragment_record_is_reassembled() {
    let mut assembler = RecordAssembler::new();
    assert!(matches!(assembler.on_header(2), FragmentStep::ReadBody(2)));
    assert!(assembler.on_body(&[1, 2], false).is_none());
    assert_eq!(assembler.len(), 2);
    assert!(matches!(assembler.on_header(0x8000_0001), FragmentStep::ReadBody(1)));
    assert_eq!(assembler.on_body(&[3], true), Some(vec![1, 2, 3]));
    assert_eq!(assembler.len(), 0);
}
