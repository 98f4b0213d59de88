//! PORTMAP (RFC 1057 appendix A): a registry from (program, version,
//! protocol) to port, and the procedures that read and change it.
#![allow(non_camel_case_types)]

use vstd::prelude::*;
use crate::rpc::{
    call_body, mismatch_info, accept_body, accepted_bytes, success_bytes, write_accepted,
    write_success,
};
use crate::xdr::{Deserialize, InvalidData, Serialize, be32, bool_enc, dec_u32, get_u32, put_bool, put_u32};

verus! {

/// RPC program number of PORTMAP.
pub const PROGRAM: u32 = 100000;

/// The PORTMAP version served.
pub const VERSION: u32 = 2;

pub const IPPROTO_TCP: u32 = 6;
pub const IPPROTO_UDP: u32 = 17;

/// The PORTMAP procedures.
#[derive(Clone, Copy, Debug, PartialEq, Eq, Structural)]
pub enum PortmapProgram {
    PMAPPROC_NULL,
    PMAPPROC_SET,
    PMAPPROC_UNSET,
    PMAPPROC_GETPORT,
    PMAPPROC_DUMP,
    PMAPPROC_CALLIT,
    INVALID,
}

impl PortmapProgram {
    pub open spec fn spec_from_u32(v: u32) -> PortmapProgram {
        if v == 0 {
            PortmapProgram::PMAPPROC_NULL
        } else if v == 1 {
            PortmapProgram::PMAPPROC_SET
        } else if v == 2 {
            PortmapProgram::PMAPPROC_UNSET
        } else if v == 3 {
            PortmapProgram::PMAPPROC_GETPORT
        } else if v == 4 {
            PortmapProgram::PMAPPROC_DUMP
        } else if v == 5 {
            PortmapProgram::PMAPPROC_CALLIT
        } else {
            PortmapProgram::INVALID
        }
    }

    /// The procedure numbered `v`; unknown numbers are `INVALID`.
    pub fn from_u32(v: u32) -> (r: PortmapProgram)
        ensures
            r == Self::spec_from_u32(v),
    {
        match v {
            0 => PortmapProgram::PMAPPROC_NULL,
            1 => PortmapProgram::PMAPPROC_SET,
            2 => PortmapProgram::PMAPPROC_UNSET,
            3 => PortmapProgram::PMAPPROC_GETPORT,
            4 => PortmapProgram::PMAPPROC_DUMP,
            5 => PortmapProgram::PMAPPROC_CALLIT,
            _ => PortmapProgram::INVALID,
        }
    }
}

/// A registration: program, version, protocol and port.
#[derive(Clone, Copy, Debug, PartialEq, Eq, Structural)]
pub struct mapping {
    pub prog: u32,
    pub vers: u32,
    pub prot: u32,
    pub port: u32,
}

impl Serialize for mapping {
    open spec fn spec_enc(&self) -> Seq<u8> {
        be32(self.prog) + be32(self.vers) + be32(self.prot) + be32(self.port)
    }

    open spec fn spec_encodable(&self) -> bool {
        true
    }

    fn serialize(&self, dest: &mut Vec<u8>) {
        put_u32(dest, self.prog);
        put_u32(dest, self.vers);
        put_u32(dest, self.prot);
        put_u32(dest, self.port);
        assert(dest@ =~= old(dest)@ + self.spec_enc());
    }
}

pub open spec fn dec_mapping(s: Seq<u8>, pos: int) -> Option<(mapping, int)> {
    match dec_u32(s, pos) {
        None => None,
        Some((prog, p)) => match dec_u32(s, p) {
            None => None,
            Some((vers, p)) => match dec_u32(s, p) {
                None => None,
                Some((prot, p)) => match dec_u32(s, p) {
                    None => None,
                    Some((port, p)) => Some((mapping { prog, vers, prot, port }, p)),
                },
            },
        },
    }
}

impl Deserialize for mapping {
    open spec fn spec_dec(s: Seq<u8>, pos: int) -> Option<(mapping, int)> {
        dec_mapping(s, pos)
    }

    fn deserialize(src: &[u8], pos: usize) -> (r: Option<(mapping, usize)>) {
        let (prog, p) = match get_u32(src, pos) { Some(x) => x, None => { return None; } };
        let (vers, p) = match get_u32(src, p) { Some(x) => x, None => { return None; } };
        let (prot, p) = match get_u32(src, p) { Some(x) => x, None => { return None; } };
        let (port, p) = match get_u32(src, p) { Some(x) => x, None => { return None; } };
        Some((mapping { prog, vers, prot, port }, p))
    }
}

impl mapping {
    pub open spec fn key(&self) -> (u32, u32, u32) {
        (self.prog, self.vers, self.prot)
    }
}

/// A node of the DUMP list: a mapping and the rest of the list.
pub struct pmaplist {
    pub map: mapping,
    pub next: Box<Option<pmaplist>>,
}

/// The key of a registration.
#[derive(Clone, Copy, Debug, PartialEq, Eq, Structural, Hash)]
pub struct PortmapKey {
    pub prog: u32,
    pub vers: u32,
    pub prot: u32,
}

impl PortmapKey {
    pub open spec fn view(&self) -> (u32, u32, u32) {
        (self.prog, self.vers, self.prot)
    }
}

/// The registry. Each key appears once in `table`; `entries` is what the
/// table holds, as a map.
pub struct PortmapTable {
    table: Vec<(PortmapKey, u16)>,
    entries: Ghost<Map<(u32, u32, u32), u16>>,
}

/// What SET does to a registry: it adds an absent key and reports `true`,
/// and leaves a present key as it was and reports `false`.
pub open spec fn spec_set(m: Map<(u32, u32, u32), u16>, k: (u32, u32, u32), port: u16) -> (
    bool,
    Map<(u32, u32, u32), u16>,
) {
    if m.contains_key(k) {
        (false, m)
    } else {
        (true, m.insert(k, port))
    }
}

/// What GETPORT answers: the registered port, or 0.
pub open spec fn spec_getport(m: Map<(u32, u32, u32), u16>, k: (u32, u32, u32)) -> u32 {
    if m.contains_key(k) {
        m[k] as u32
    } else {
        0
    }
}

/// What UNSET does: it removes the TCP and UDP registrations of the program
/// and version, and reports whether there was one.
pub open spec fn spec_unset(m: Map<(u32, u32, u32), u16>, prog: u32, vers: u32) -> (
    bool,
    Map<(u32, u32, u32), u16>,
) {
    (
        m.contains_key((prog, vers, IPPROTO_TCP)) || m.contains_key((prog, vers, IPPROTO_UDP)),
        m.remove((prog, vers, IPPROTO_TCP)).remove((prog, vers, IPPROTO_UDP)),
    )
}

impl PortmapTable {
    pub closed spec fn view(&self) -> Map<(u32, u32, u32), u16> {
        self.entries@
    }

    pub closed spec fn wf(&self) -> bool {
        &&& forall|i: int|
            0 <= i < self.table@.len() ==> #[trigger] self.entries@.contains_key(
                self.table@[i].0@,
            ) && self.entries@[self.table@[i].0@] == self.table@[i].1
        &&& forall|k: (u32, u32, u32)|
            #[trigger] self.entries@.contains_key(k) ==> exists|i: int|
                0 <= i < self.table@.len() && self.table@[i].0@ == k
        &&& forall|i: int, j: int|
            0 <= i < self.table@.len() && 0 <= j < self.table@.len() && i != j
                ==> self.table@[i].0@ != self.table@[j].0@
    }

    /// An empty registry.
    pub fn new() -> (r: PortmapTable)
        ensures
            r.wf(),
            r@ == Map::<(u32, u32, u32), u16>::empty(),
    {
        PortmapTable { table: Vec::new(), entries: Ghost(Map::empty()) }
    }

    fn find(&self, k: &PortmapKey) -> (r: Option<usize>)
        requires
            self.wf(),
        ensures
            r matches Some(i) ==> i < self.table@.len() && self.table@[i as int].0@ == k@,
            r is None <==> !self@.contains_key(k@),
    {
        let mut i: usize = 0;
        while i < self.table.len()
            invariant
                self.wf(),
                i <= self.table@.len(),
                forall|j: int| 0 <= j < i ==> self.table@[j].0@ != k@,
            decreases self.table@.len() - i,
        {
            let e = &self.table[i];
            if e.0.prog == k.prog && e.0.vers == k.vers && e.0.prot == k.prot {
                return Some(i);
            }
            i = i + 1;
        }
        None
    }

    /// The port registered under `k`.
    pub fn get(&self, k: &PortmapKey) -> (r: Option<u16>)
        requires
            self.wf(),
        ensures
            r == (if self@.contains_key(k@) {
                Some(self@[k@])
            } else {
                None::<u16>
            }),
    {
        match self.find(k) {
            Some(i) => Some(self.table[i].1),
            None => None,
        }
    }

    /// Registers `port` under `k` unless `k` is registered already.
    pub fn set(&mut self, k: PortmapKey, port: u16) -> (r: bool)
        requires
            old(self).wf(),
        ensures
            final(self).wf(),
            (r, final(self)@) == spec_set(old(self)@, k@, port),
    {
        match self.find(&k) {
            Some(_) => false,
            None => {
                self.table.push((k, port));
                self.entries = Ghost(self.entries@.insert(k@, port));
                assert forall|key: (u32, u32, u32)| #[trigger]
                    self.entries@.contains_key(key) implies exists|i: int|
                    0 <= i < self.table@.len() && self.table@[i].0@ == key by {
                    if key != k@ {
                        assert(old(self).entries@.contains_key(key));
                        let i = choose|i: int|
                            0 <= i < old(self).table@.len() && old(self).table@[i].0@ == key;
                        assert(self.table@[i].0@ == key);
                    } else {
                        let i = self.table@.len() - 1;
                        assert(self.table@[i].0@ == key);
                    }
                }
                true
            },
        }
    }

    /// Removes the registration under `k`; returns whether there was one.
    pub fn remove(&mut self, k: &PortmapKey) -> (r: bool)
        requires
            old(self).wf(),
        ensures
            final(self).wf(),
            r == old(self)@.contains_key(k@),
            final(self)@ == old(self)@.remove(k@),
    {
        match self.find(k) {
            None => {
                assert(self.entries@ =~= old(self).entries@.remove(k@));
                false
            },
            Some(i) => {
                let ghost t = self.table@;
                self.table.remove(i);
                self.entries = Ghost(self.entries@.remove(k@));
                assert forall|j: int| 0 <= j < self.table@.len() implies #[trigger]
                    self.entries@.contains_key(self.table@[j].0@) && self.entries@[self.table@[
                    j].0@] == self.table@[j].1 by {
                    let oj = if j < i { j } else { j + 1 };
                    assert(self.table@[j] == t[oj]);
                    assert(old(self).entries@.contains_key(t[oj].0@));
                }
                assert forall|key: (u32, u32, u32)| #[trigger]
                    self.entries@.contains_key(key) implies exists|j: int|
                    0 <= j < self.table@.len() && self.table@[j].0@ == key by {
                    assert(old(self).entries@.contains_key(key));
                    let oj = choose|oj: int| 0 <= oj < t.len() && t[oj].0@ == key;
                    assert(oj != i);
                    let j = if oj < i { oj } else { oj - 1 };
                    assert(self.table@[j] == t[oj]);
                }
                assert forall|a: int, b: int|
                    0 <= a < self.table@.len() && 0 <= b < self.table@.len() && a != b
                        implies self.table@[a].0@ != self.table@[b].0@ by {
                    let oa = if a < i { a } else { a + 1 };
                    let ob = if b < i { b } else { b + 1 };
                    assert(self.table@[a] == t[oa]);
                    assert(self.table@[b] == t[ob]);
                }
                true
            },
        }
    }

    /// Every registration, once each.
    pub fn dump(&self) -> (r: Vec<mapping>)
        requires
            self.wf(),
        ensures
            forall|i: int|
                0 <= i < r@.len() ==> #[trigger] self@.contains_key(r@[i].key()) && r@[i].port
                    == self@[r@[i].key()] as u32,
            forall|k: (u32, u32, u32)|
                #[trigger] self@.contains_key(k) ==> exists|i: int|
                    0 <= i < r@.len() && r@[i].key() == k,
            forall|i: int, j: int|
                0 <= i < r@.len() && 0 <= j < r@.len() && i != j ==> r@[i].key() != r@[j].key(),
    {
        let mut r: Vec<mapping> = Vec::new();
        let mut i: usize = 0;
        while i < self.table.len()
            invariant
                self.wf(),
                i <= self.table@.len(),
                r@.len() == i,
                forall|j: int|
                    0 <= j < i ==> r@[j].key() == self.table@[j].0@ && r@[j].port
                        == self.table@[j].1 as u32,
            decreases self.table@.len() - i,
        {
            let e = &self.table[i];
            r.push(mapping { prog: e.0.prog, vers: e.0.vers, prot: e.0.prot, port: e.1 as u32 });
            i = i + 1;
        }
        assert forall|k: (u32, u32, u32)| #[trigger] self@.contains_key(k) implies exists|j: int|
            0 <= j < r@.len() && r@[j].key() == k by {
            let j = choose|j: int| 0 <= j < self.table@.len() && self.table@[j].0@ == k;
            assert(r@[j].key() == k);
        }
        assert forall|a: int| 0 <= a < r@.len() implies #[trigger] self@.contains_key(
            r@[a].key(),
        ) && r@[a].port == self@[r@[a].key()] as u32 by {
            assert(self.entries@.contains_key(self.table@[a].0@));
        }
        r
    }
}

/// `ms` lists the registry: every entry once, with its port, and nothing else.
pub open spec fn lists_exactly(ms: Seq<mapping>, m: Map<(u32, u32, u32), u16>) -> bool {
    &&& forall|i: int|
        0 <= i < ms.len() ==> #[trigger] m.contains_key(ms[i].key()) && ms[i].port == m[ms[i].key()] as u32
    &&& forall|k: (u32, u32, u32)| #[trigger] m.contains_key(k) ==> exists|i: int| 0 <= i < ms.len() && ms[i].key() == k
    &&& forall|i: int, j: int| 0 <= i < ms.len() && 0 <= j < ms.len() && i != j ==> ms[i].key() != ms[j].key()
}

/// The DUMP list: each mapping preceded by `true`, closed by `false`.
pub open spec fn maplist_enc(ms: Seq<mapping>) -> Seq<u8>
    decreases ms.len(),
{
    if ms.len() == 0 {
        bool_enc(false)
    } else {
        bool_enc(true) + ms[0].spec_enc() + maplist_enc(ms.skip(1))
    }
}

/// NULL: an empty success reply.
pub fn pmapproc_null(xid: u32, output: &mut Vec<u8>)
    ensures
        final(output)@ == old(output)@ + success_bytes(xid),
{
    write_success(output, xid);
}

/// GETPORT: the port registered for the mapping's key, or 0.
pub fn pmapproc_getport(xid: u32, input: &[u8], pos: usize, output: &mut Vec<u8>, table: &PortmapTable) -> (r: Result<(), InvalidData>)
    requires
        table.wf(),
    ensures
        r is Ok <==> dec_mapping(input@, pos as int) is Some,
        r is Err ==> final(output)@ == old(output)@,
        dec_mapping(input@, pos as int) matches Some((m, _)) ==> final(output)@ == old(output)@
            + success_bytes(xid) + be32(spec_getport(table@, m.key())),
{
    let (m, _) = match mapping::deserialize(input, pos) { Some(x) => x, None => { return Err(InvalidData); } };
    let key = PortmapKey { prog: m.prog, vers: m.vers, prot: m.prot };
    let port: u32 = match table.get(&key) {
        Some(p) => p as u32,
        None => 0,
    };
    write_success(output, xid);
    put_u32(output, port);
    Ok(())
}

/// SET: registers the mapping's port (as 16 bits) unless its key is taken;
/// replies whether it did.
pub fn pmapproc_setport(xid: u32, input: &[u8], pos: usize, output: &mut Vec<u8>, table: &mut PortmapTable) -> (r: Result<(), InvalidData>)
    requires
        old(table).wf(),
    ensures
        final(table).wf(),
        r is Ok <==> dec_mapping(input@, pos as int) is Some,
        r is Err ==> final(output)@ == old(output)@ && final(table)@ == old(table)@,
        dec_mapping(input@, pos as int) matches Some((m, _)) ==> {
            let (added, after) = spec_set(old(table)@, m.key(), m.port as u16);
            &&& final(table)@ == after
            &&& final(output)@ == old(output)@ + success_bytes(xid) + bool_enc(added)
        },
{
    let (m, _) = match mapping::deserialize(input, pos) { Some(x) => x, None => { return Err(InvalidData); } };
    let key = PortmapKey { prog: m.prog, vers: m.vers, prot: m.prot };
    let added = table.set(key, m.port as u16);
    write_success(output, xid);
    put_bool(output, added);
    Ok(())
}

/// UNSET: removes the TCP and UDP registrations of the mapping's program
/// and version; replies whether there was one.
pub fn pmapproc_unsetport(xid: u32, input: &[u8], pos: usize, output: &mut Vec<u8>, table: &mut PortmapTable) -> (r: Result<(), InvalidData>)
    requires
        old(table).wf(),
    ensures
        final(table).wf(),
        r is Ok <==> dec_mapping(input@, pos as int) is Some,
        r is Err ==> final(output)@ == old(output)@ && final(table)@ == old(table)@,
        dec_mapping(input@, pos as int) matches Some((m, _)) ==> {
            let (removed, after) = spec_unset(old(table)@, m.prog, m.vers);
            &&& final(table)@ == after
            &&& final(output)@ == old(output)@ + success_bytes(xid) + bool_enc(removed)
        },
{
    let (m, _) = match mapping::deserialize(input, pos) { Some(x) => x, None => { return Err(InvalidData); } };
    let tcp = table.remove(&PortmapKey { prog: m.prog, vers: m.vers, prot: IPPROTO_TCP });
    let udp = table.remove(&PortmapKey { prog: m.prog, vers: m.vers, prot: IPPROTO_UDP });
    write_success(output, xid);
    put_bool(output, tcp || udp);
    Ok(())
}

/// Appends the DUMP list of `ms`.
fn put_maplist(output: &mut Vec<u8>, ms: &Vec<mapping>)
    ensures
        final(output)@ == old(output)@ + maplist_enc(ms@),
{
    let mut i: usize = 0;
    assert(ms@.skip(0) =~= ms@);
    while i < ms.len()
        invariant
            i <= ms@.len(),
            output@ + maplist_enc(ms@.skip(i as int)) == old(output)@ + maplist_enc(ms@),
        decreases ms@.len() - i,
    {
        let ghost before = output@;
        put_bool(output, true);
        ms[i].serialize(output);
        assert(ms@.skip(i as int).skip(1) =~= ms@.skip(i + 1));
        assert(ms@.skip(i as int)[0] == ms@[i as int]);
        assert(output@ + maplist_enc(ms@.skip(i + 1)) =~= before + maplist_enc(ms@.skip(i as int)));
        i = i + 1;
    }
    assert(ms@.skip(i as int).len() == 0);
    put_bool(output, false);
}

/// DUMP: every registration, once each, as a list.
pub fn pmapproc_dump(xid: u32, output: &mut Vec<u8>, table: &PortmapTable) -> (r: Vec<mapping>)
    requires
        table.wf(),
    ensures
        final(output)@ == old(output)@ + success_bytes(xid) + maplist_enc(r@),
        lists_exactly(r@, table@),
{
    let ms = table.dump();
    write_success(output, xid);
    put_maplist(output, &ms);
    ms
}

/// The reply PORTMAP gives to a call: by version, then by procedure.
pub fn handle_portmap(xid: u32, call: &call_body, input: &[u8], pos: usize, output: &mut Vec<u8>, table: &mut PortmapTable) -> (r: Result<(), InvalidData>)
    requires
        old(table).wf(),
    ensures
        final(table).wf(),
        call.vers != VERSION ==> r is Ok && final(table)@ == old(table)@ && final(output)@ == old(
            output,
        )@ + accepted_bytes(
            xid,
            accept_body::PROG_MISMATCH(mismatch_info { low: VERSION, high: VERSION }).spec_enc(),
        ),
        call.vers == VERSION && call.proc == 0 ==> r is Ok && final(table)@ == old(table)@
            && final(output)@ == old(output)@ + success_bytes(xid),
        call.vers == VERSION && call.proc == 1 ==> (r is Ok <==> dec_mapping(input@, pos as int) is Some),
        call.vers == VERSION && call.proc == 1 ==> (dec_mapping(input@, pos as int) matches Some((m, _)) ==> {
            let (added, after) = spec_set(old(table)@, m.key(), m.port as u16);
            &&& final(table)@ == after
            &&& final(output)@ == old(output)@ + success_bytes(xid) + bool_enc(added)
        }),
        call.vers == VERSION && call.proc == 2 ==> (r is Ok <==> dec_mapping(input@, pos as int) is Some),
        call.vers == VERSION && call.proc == 2 ==> (dec_mapping(input@, pos as int) matches Some((m, _)) ==> {
            let (removed, after) = spec_unset(old(table)@, m.prog, m.vers);
            &&& final(table)@ == after
            &&& final(output)@ == old(output)@ + success_bytes(xid) + bool_enc(removed)
        }),
        call.vers == VERSION && call.proc == 3 ==> (r is Ok <==> dec_mapping(input@, pos as int) is Some)
            && final(table)@ == old(table)@,
        call.vers == VERSION && call.proc == 3 ==> (dec_mapping(input@, pos as int) matches Some((m, _))
            ==> final(output)@ == old(output)@ + success_bytes(xid) + be32(spec_getport(old(table)@, m.key()))),
        call.vers == VERSION && call.proc == 4 ==> r is Ok && final(table)@ == old(table)@ && exists|
            ms: Seq<mapping>,
        |
            lists_exactly(ms, old(table)@) && final(output)@ == old(output)@ + success_bytes(xid)
                + maplist_enc(ms),
        call.vers == VERSION && call.proc >= 5 ==> r is Ok && final(table)@ == old(table)@
            && final(output)@ == old(output)@ + accepted_bytes(xid, accept_body::PROC_UNAVAIL.spec_enc()),
        r is Err ==> final(output)@ == old(output)@ && final(table)@ == old(table)@,
{
    if call.vers != VERSION {
        write_accepted(output, xid, accept_body::PROG_MISMATCH(mismatch_info { low: VERSION, high: VERSION }));
        return Ok(());
    }
    match PortmapProgram::from_u32(call.proc) {
        PortmapProgram::PMAPPROC_NULL => {
            pmapproc_null(xid, output);
            Ok(())
        },
        PortmapProgram::PMAPPROC_SET => pmapproc_setport(xid, input, pos, output, table),
        PortmapProgram::PMAPPROC_UNSET => pmapproc_unsetport(xid, input, pos, output, table),
        PortmapProgram::PMAPPROC_GETPORT => pmapproc_getport(xid, input, pos, output, table),
        PortmapProgram::PMAPPROC_DUMP => {
            let ms = pmapproc_dump(xid, output, table);
            assert(lists_exactly(ms@, table@));
            Ok(())
        },
        _ => {
            write_accepted(output, xid, accept_body::PROC_UNAVAIL);
            Ok(())
        },
    }
}

/// GETPORT of a key that is not registered answers 0.
pub proof fn lemma_getport_missing(m: Map<(u32, u32, u32), u16>, k: (u32, u32, u32))
    requires
        !m.contains_key(k),
    ensures
        spec_getport(m, k) == 0,
{
}

/// After SET of a fresh key, GETPORT answers its port, and a second SET of
/// the same key answers `false` and changes nothing.
pub proof fn lemma_set_then_getport(
    m: Map<(u32, u32, u32), u16>,
    k: (u32, u32, u32),
    port: u16,
    port2: u16,
)
    requires
        !m.contains_key(k),
    ensures
        spec_set(m, k, port).0,
        spec_getport(spec_set(m, k, port).1, k) == port as u32,
        spec_set(spec_set(m, k, port).1, k, port2) == (false, spec_set(m, k, port).1),
{
}

/// UNSET removes the TCP and UDP entries of the program and version, keeps
/// every other entry, and answers `true` exactly when one of them existed.
pub proof fn lemma_unset(m: Map<(u32, u32, u32), u16>, prog: u32, vers: u32)
    ensures
        !spec_unset(m, prog, vers).1.contains_key((prog, vers, IPPROTO_TCP)),
        !spec_unset(m, prog, vers).1.contains_key((prog, vers, IPPROTO_UDP)),
        spec_unset(m, prog, vers).0 <==> (m.contains_key((prog, vers, IPPROTO_TCP))
            || m.contains_key((prog, vers, IPPROTO_UDP))),
        forall|k: (u32, u32, u32)|
            k != (prog, vers, IPPROTO_TCP) && k != (prog, vers, IPPROTO_UDP) ==> (
            #[trigger] spec_unset(m, prog, vers).1.contains_key(k) == m.contains_key(k)
                && spec_unset(m, prog, vers).1[k] == m[k]),
{
}

/// Decoding a mapping reads back what was encoded.
pub proof fn lemma_mapping_round_trip(pre: Seq<u8>, m: mapping, rest: Seq<u8>)
    ensures
        m.spec_enc().len() == 16,
        dec_mapping(pre + m.spec_enc() + rest, pre.len() as int) == Some(
            (m, pre.len() + 16int),
        ),
{
    let s = pre + m.spec_enc() + rest;
    let b = be32(m.prog);
    let c = be32(m.vers);
    let d = be32(m.prot);
    let e = be32(m.port);
    crate::xdr::lemma_be32_round_trip(m.prog);
    crate::xdr::lemma_be32_round_trip(m.vers);
    crate::xdr::lemma_be32_round_trip(m.prot);
    crate::xdr::lemma_be32_round_trip(m.port);
    assert(s =~= pre + b + (c + d + e + rest));
    crate::xdr::lemma_u32_round_trip(pre, m.prog, c + d + e + rest);
    assert(s =~= (pre + b) + c + (d + e + rest));
    crate::xdr::lemma_u32_round_trip(pre + b, m.vers, d + e + rest);
    assert(s =~= (pre + b + c) + d + (e + rest));
    crate::xdr::lemma_u32_round_trip(pre + b + c, m.prot, e + rest);
    assert(s =~= (pre + b + c + d) + e + rest);
    crate::xdr::lemma_u32_round_trip(pre + b + c + d, m.port, rest);
}

} // verus!
