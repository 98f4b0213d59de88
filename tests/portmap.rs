use nfs_mamont::nfs3::types as nfs3;
use nfs_mamont::portmap::{handle_portmap, mapping, PortmapProgram, PortmapTable, IPPROTO_TCP, IPPROTO_UDP};
use nfs_mamont::rpc::{call_body, opaque_auth};
use nfs_mamont::xdr::{deserialize, get_bool, get_u32, Deserialize, Serialize};

const RPC_MSG_SIZE: usize = 24;
const DEFAULT_VERSION: u32 = 2;

fn multiple_mappings(amount: u32, prot: u32) -> Vec<mapping> {
    let mut result = Vec::<mapping>::with_capacity(amount as usize);
    for i in 1..=amount / 2 {
        result.push(mapping { prog: i, vers: 1, prot, port: i + 1000 });
        result.push(mapping { prog: i, vers: 2, prot, port: i + 2000 });
    }
    result
}

fn body(proc: u32) -> call_body {
    call_body {
        rpcvers: DEFAULT_VERSION,
        prog: nfs_mamont::portmap::PROGRAM,
        vers: nfs_mamont::portmap::VERSION,
        proc,
        cred: opaque_auth::null(),
        verf: opaque_auth::null(),
    }
}

fn send(table: &mut PortmapTable, proc: PortmapProgram, args: Option<mapping>) -> Vec<u8> {
    let p = match proc {
        PortmapProgram::PMAPPROC_NULL => 0,
        PortmapProgram::PMAPPROC_SET => 1,
        PortmapProgram::PMAPPROC_UNSET => 2,
        PortmapProgram::PMAPPROC_GETPORT => 3,
        PortmapProgram::PMAPPROC_DUMP => 4,
        PortmapProgram::PMAPPROC_CALLIT => 5,
        PortmapProgram::INVALID => 6,
    };
    let mut input = Vec::new();
    if let Some(m) = args {
        m.serialize(&mut input);
    }
    let mut output = Vec::new();
    handle_portmap(0, &body(p), &input, 0, &mut output, table).expect("can't proceed operation");
    output
}

fn get_port(table: &mut PortmapTable, m: mapping) -> u32 {
    let out = send(table, PortmapProgram::PMAPPROC_GETPORT, Some(m));
    get_u32(&out, RPC_MSG_SIZE).expect("can't get result").0
}

fn set_port(table: &mut PortmapTable, m: mapping) -> bool {
    let out = send(table, PortmapProgram::PMAPPROC_SET, Some(m));
    get_bool(&out, RPC_MSG_SIZE).expect("can't get result").0
}

fn unset_port(table: &mut PortmapTable, m: mapping) -> bool {
    let out = send(table, PortmapProgram::PMAPPROC_UNSET, Some(m));
    get_bool(&out, RPC_MSG_SIZE).expect("can't get result").0
}

fn dump(table: &mut PortmapTable) -> Vec<mapping> {
    let out = send(table, PortmapProgram::PMAPPROC_DUMP, None);
    let mut pos = RPC_MSG_SIZE;
    let mut result = Vec::new();
    loop {
        let (more, p) = get_bool(&out, pos).expect("list flag");
        pos = p;
        if !more {
            break;
        }
        let (m, p) = mapping::deserialize(&out, pos).expect("mapping");
        pos = p;
        result.push(m);
    }
    assert_eq!(pos, out.len());
    result
}

fn get_port_zero_reply(port: u16) {
    let mut table = PortmapTable::new();
    let m = mapping { prog: nfs3::PROGRAM, vers: DEFAULT_VERSION, prot: IPPROTO_TCP, port: port as u32 };
    assert_eq!(get_port(&mut table, m), 0);
}

fn set_port_ok_reply(port: u16) {
    let mut table = PortmapTable::new();
    let m = mapping { prog: nfs3::PROGRAM, vers: DEFAULT_VERSION, prot: IPPROTO_TCP, port: port as u32 };
    assert_eq!(get_port(&mut table, m), 0);
    assert!(set_port(&mut table, m));
}

fn get_port_ok_reply(port: u16) {
    let mut table = PortmapTable::new();
    let m = mapping { prog: nfs3::PROGRAM, vers: DEFAULT_VERSION, prot: IPPROTO_TCP, port: port as u32 };
    assert!(set_port(&mut table, m));
    assert_eq!(get_port(&mut table, m), port as u32);
}

fn set_and_get_multiple(amount: u32) {
    let maps = multiple_mappings(amount, IPPROTO_TCP);
    let mut table = PortmapTable::new();
    for m in maps.clone() {
        assert!(set_port(&mut table, m));
    }
    for m in maps {
        assert_eq!(get_port(&mut table, m), m.prog + m.vers * 1000);
    }
}

fn dump_one_thread(entries_amount: u32) {
    let mappings = multiple_mappings(entries_amount, IPPROTO_TCP);
    let mut table = PortmapTable::new();
    for m in &mappings {
        assert!(set_port(&mut table, *m));
    }
    let listed = dump(&mut table);
    for entry in &listed {
        assert!(mappings.iter().any(|x| x.prog == entry.prog
            && x.prot == entry.prot
            && x.vers == entry.vers
            && x.port == entry.port));
    }
    assert_eq!(listed.len(), mappings.len());
}

fn unset_empty_table(amount: u32) {
    let mut table = PortmapTable::new();
    for arg in multiple_mappings(amount, IPPROTO_TCP) {
        assert!(!unset_port(&mut table, arg));
    }
}

fn unset_single_protocol(amount: u32) {
    let mut table = PortmapTable::new();
    let args = multiple_mappings(amount, IPPROTO_UDP);
    for arg in &args {
        assert!(set_port(&mut table, *arg));
    }
    for arg in args {
        assert!(unset_port(&mut table, arg));
    }
}

fn unset_both_protocols(amount: u32) {
    let mut table = PortmapTable::new();
    let args_udp = multiple_mappings(amount, IPPROTO_UDP);
    let args_tcp = multiple_mappings(amount, IPPROTO_TCP);
    for arg in &args_udp {
        assert!(set_port(&mut table, *arg));
    }
    for arg in &args_tcp {
        assert!(set_port(&mut table, *arg));
    }
    for arg in args_tcp {
        assert!(unset_port(&mut table, arg));
    }
    for arg in args_udp {
        assert!(!unset_port(&mut table, arg));
    }
}

#[test]
fn get_port_zero_reply_multiple() {
    get_port_zero_reply(0);
    get_port_zero_reply(u16::MAX);
}

#[test]
fn set_port_ok_reply_multiple() {
    set_port_ok_reply(0);
    set_port_ok_reply(u16::MAX);
}

#[test]
fn get_port_ok_reply_multiple() {
    get_port_ok_reply(0);
    get_port_ok_reply(u16::MAX);
}

#[test]
fn multiple_gets_after_sets() {
    set_and_get_multiple(0);
    set_and_get_multiple(789);
}

#[test]
fn dump_single_thread() {
    dump_one_thread(0);
    dump_one_thread(200);
}

#[test]
fn empty_unsets() {
    unset_empty_table(0);
    unset_empty_table(200);
}

#[test]
fn unset_one_protocol_entry() {
    unset_single_protocol(0);
    unset_single_protocol(200);
}

#[test]
fn unset_two_protocol_entry() {
    unset_both_protocols(0);
    unset_both_protocols(200);
}

#[test]
fn second_set_does_not_overwrite() {
    let mut table = PortmapTable::new();
    let m = mapping { prog: 100003, vers: 3, prot: IPPROTO_TCP, port: 2049 };
    assert!(set_port(&mut table, m));
    assert!(!set_port(&mut table, mapping { port: 4000, ..m }));
    assert_eq!(get_port(&mut table, m), 2049);
}

#[test]
fn unset_removes_both_protocols() {
    let mut table = PortmapTable::new();
    let tcp = mapping { prog: 7, vers: 1, prot: IPPROTO_TCP, port: 10 };
    let udp = mapping { prog: 7, vers: 1, prot: IPPROTO_UDP, port: 11 };
    let other = mapping { prog: 7, vers: 2, prot: IPPROTO_TCP, port: 12 };
    assert!(set_port(&mut table, tcp));
    assert!(set_port(&mut table, udp));
    assert!(set_port(&mut table, other));
    assert!(unset_port(&mut table, mapping { prot: 0, port: 0, ..tcp }));
    assert_eq!(get_port(&mut table, tcp), 0);
    assert_eq!(get_port(&mut table, udp), 0);
    assert_eq!(get_port(&mut table, other), 12);
    assert!(!unset_port(&mut table, tcp));
}

#[test]
fn dump_lists_each_mapping_once() {
    let mut table = PortmapTable::new();
    assert!(dump(&mut table).is_empty());
    for m in multiple_mappings(10, IPPROTO_TCP) {
        assert!(set_port(&mut table, m));
    }
    let listed = dump(&mut table);
    assert_eq!(listed.len(), 10);
    for (i, a) in listed.iter().enumerate() {
        for b in &listed[i + 1..] {
            assert!(!(a.prog == b.prog && a.vers == b.vers && a.prot == b.prot));
        }
    }
}

#[test]
fn portmap_version_and_callit() {
    let mut table = PortmapTable::new();
    let mut call = body(3);
    call.vers = 4;
    let mut out = Vec::new();
    handle_portmap(9, &call, &[], 0, &mut out, &mut table).unwrap();
    // accept_stat PROG_MISMATCH (2) with low = high = 2
    assert_eq!(get_u32(&out, 20).unwrap().0, 2);
    assert_eq!(get_u32(&out, 24).unwrap().0, 2);
    assert_eq!(get_u32(&out, 28).unwrap().0, 2);
    let out = send(&mut table, PortmapProgram::PMAPPROC_CALLIT, None);
    assert_eq!(get_u32(&out, 20).unwrap().0, 3);
    let mut out = Vec::new();
    assert!(handle_portmap(1, &body(3), &[0, 0], 0, &mut out, &mut table).is_err());
    assert!(out.is_empty());
}

#[test]
fn mapping_round_trip() {
    let m = mapping { prog: 100005, vers: 3, prot: IPPROTO_UDP, port: 635 };
    let mut buf = vec![1, 2];
    m.serialize(&mut buf);
    assert_eq!(buf.len(), 2 + 16);
    let (back, end) = deserialize::<mapping>(&buf, 2).unwrap();
    assert_eq!(back, m);
    assert_eq!(end, buf.len());
    assert!(mapping::deserialize(&buf, 3).is_none());
    assert_eq!(deserialize::<u32>(&buf, 2).unwrap().0, 100005);
}
