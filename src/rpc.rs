//! ONC RPC v2 (RFC 5531) message types, their XDR encoding, the standard
//! reply constructors, and decoding of an incoming call header.
#![allow(non_camel_case_types)]

use vstd::prelude::*;
use crate::xdr::{
    Deserialize, DeserializeEnum, Serialize, SerializeEnum, be32, dec_opaque, dec_u32, dec_u32s, opaque_enc, u32s_enc, get_opaque,
    get_u32, get_u32s, put_opaque, put_u32, put_u32s,
};

verus! {

/// The RPC protocol version this server speaks.
pub const RPC_VERSION: u32 = 2;

/// Why an authentication was refused.
#[derive(Clone, Copy, Debug, PartialEq, Eq, Structural)]
pub enum auth_stat {
    AUTH_BADCRED,
    AUTH_REJECTEDCRED,
    AUTH_BADVERF,
    AUTH_REJECTEDVERF,
    AUTH_TOOWEAK,
}

impl auth_stat {
    pub open spec fn value(&self) -> u32 {
        match self {
            auth_stat::AUTH_BADCRED => 1,
            auth_stat::AUTH_REJECTEDCRED => 2,
            auth_stat::AUTH_BADVERF => 3,
            auth_stat::AUTH_REJECTEDVERF => 4,
            auth_stat::AUTH_TOOWEAK => 5,
        }
    }

    pub fn to_u32(&self) -> (r: u32)
        ensures
            r == self.value(),
    {
        match self {
            auth_stat::AUTH_BADCRED => 1,
            auth_stat::AUTH_REJECTEDCRED => 2,
            auth_stat::AUTH_BADVERF => 3,
            auth_stat::AUTH_REJECTEDVERF => 4,
            auth_stat::AUTH_TOOWEAK => 5,
        }
    }
}

impl Serialize for auth_stat {
    open spec fn spec_enc(&self) -> Seq<u8> {
        be32(self.value())
    }

    open spec fn spec_encodable(&self) -> bool {
        true
    }

    fn serialize(&self, dest: &mut Vec<u8>) {
        put_u32(dest, self.to_u32());
    }
}

impl SerializeEnum for auth_stat {
    open spec fn spec_value(&self) -> u32 {
        self.value()
    }
}

/// Authentication flavors.
#[derive(Clone, Copy, Debug, PartialEq, Eq, Structural)]
pub enum auth_flavor {
    AUTH_NULL,
    AUTH_UNIX,
    AUTH_SHORT,
    AUTH_DES,
}

impl auth_flavor {
    pub open spec fn value(&self) -> u32 {
        match self {
            auth_flavor::AUTH_NULL => 0,
            auth_flavor::AUTH_UNIX => 1,
            auth_flavor::AUTH_SHORT => 2,
            auth_flavor::AUTH_DES => 3,
        }
    }

    pub open spec fn spec_from_u32(v: u32) -> Option<auth_flavor> {
        if v == 0 {
            Some(auth_flavor::AUTH_NULL)
        } else if v == 1 {
            Some(auth_flavor::AUTH_UNIX)
        } else if v == 2 {
            Some(auth_flavor::AUTH_SHORT)
        } else if v == 3 {
            Some(auth_flavor::AUTH_DES)
        } else {
            None
        }
    }

    pub fn to_u32(&self) -> (r: u32)
        ensures
            r == self.value(),
    {
        match self {
            auth_flavor::AUTH_NULL => 0,
            auth_flavor::AUTH_UNIX => 1,
            auth_flavor::AUTH_SHORT => 2,
            auth_flavor::AUTH_DES => 3,
        }
    }

    pub fn from_u32(v: u32) -> (r: Option<auth_flavor>)
        ensures
            r == Self::spec_from_u32(v),
    {
        match v {
            0 => Some(auth_flavor::AUTH_NULL),
            1 => Some(auth_flavor::AUTH_UNIX),
            2 => Some(auth_flavor::AUTH_SHORT),
            3 => Some(auth_flavor::AUTH_DES),
            _ => None,
        }
    }
}

impl Serialize for auth_flavor {
    open spec fn spec_enc(&self) -> Seq<u8> {
        be32(self.value())
    }

    open spec fn spec_encodable(&self) -> bool {
        true
    }

    fn serialize(&self, dest: &mut Vec<u8>) {
        put_u32(dest, self.to_u32());
    }
}

impl Deserialize for auth_flavor {
    open spec fn spec_dec(s: Seq<u8>, pos: int) -> Option<(auth_flavor, int)> {
        match dec_u32(s, pos) {
            Some((v, p)) => match auth_flavor::spec_from_u32(v) {
                Some(f) => Some((f, p)),
                None => None,
            },
            None => None,
        }
    }

    fn deserialize(src: &[u8], pos: usize) -> (r: Option<(auth_flavor, usize)>) {
        match get_u32(src, pos) {
            Some((v, p)) => match auth_flavor::from_u32(v) {
                Some(f) => Some((f, p)),
                None => None,
            },
            None => None,
        }
    }
}

impl DeserializeEnum for auth_flavor {}

impl SerializeEnum for auth_flavor {
    open spec fn spec_value(&self) -> u32 {
        self.value()
    }
}

/// AUTH_UNIX credentials, as the client asserts them.
#[derive(Clone, Debug)]
pub struct auth_unix {
    pub stamp: u32,
    pub machinename: Vec<u8>,
    pub uid: u32,
    pub gid: u32,
    pub gids: Vec<u32>,
}

/// The decoded fields of AUTH_UNIX credentials.
pub struct AuthUnixView {
    pub stamp: u32,
    pub machinename: Seq<u8>,
    pub uid: u32,
    pub gid: u32,
    pub gids: Seq<u32>,
}

impl auth_unix {
    pub open spec fn view(&self) -> AuthUnixView {
        AuthUnixView {
            stamp: self.stamp,
            machinename: self.machinename@,
            uid: self.uid,
            gid: self.gid,
            gids: self.gids@,
        }
    }

    /// Decodes AUTH_UNIX credentials from the body of an `opaque_auth`.
    pub fn deserialize(src: &[u8], pos: usize) -> (r: Option<(auth_unix, usize)>)
        ensures
            r matches Some((a, p)) ==> dec_auth_unix(src@, pos as int) == Some((a.view(), p as int)),
            r is None <==> dec_auth_unix(src@, pos as int) is None,
    {
        let (stamp, p) = match get_u32(src, pos) { Some(x) => x, None => { return None; } };
        let (machinename, p) = match get_opaque(src, p) {
            Some(x) => x,
            None => { return None; },
        };
        let (uid, p) = match get_u32(src, p) { Some(x) => x, None => { return None; } };
        let (gid, p) = match get_u32(src, p) { Some(x) => x, None => { return None; } };
        let (gids, p) = match get_u32s(src, p) { Some(x) => x, None => { return None; } };
        Some((auth_unix { stamp, machinename, uid, gid, gids }, p))
    }
}

pub open spec fn dec_auth_unix(s: Seq<u8>, pos: int) -> Option<(AuthUnixView, int)> {
    match dec_u32(s, pos) {
        None => None,
        Some((stamp, p)) => match dec_opaque(s, p) {
            None => None,
            Some((machinename, p)) => match dec_u32(s, p) {
                None => None,
                Some((uid, p)) => match dec_u32(s, p) {
                    None => None,
                    Some((gid, p)) => match dec_u32s(s, p) {
                        None => None,
                        Some((gids, p)) => Some(
                            (AuthUnixView { stamp, machinename, uid, gid, gids }, p),
                        ),
                    },
                },
            },
        },
    }
}

impl Serialize for auth_unix {
    open spec fn spec_enc(&self) -> Seq<u8> {
        be32(self.stamp) + opaque_enc(self.machinename@) + be32(self.uid) + be32(self.gid)
            + u32s_enc(self.gids@)
    }

    open spec fn spec_encodable(&self) -> bool {
        self.machinename@.len() <= u32::MAX && self.gids@.len() <= u32::MAX
    }

    fn serialize(&self, dest: &mut Vec<u8>) {
        put_u32(dest, self.stamp);
        put_opaque(dest, self.machinename.as_slice());
        put_u32(dest, self.uid);
        put_u32(dest, self.gid);
        put_u32s(dest, self.gids.as_slice());
        assert(dest@ =~= old(dest)@ + self.spec_enc());
    }
}

/// Authentication data: a flavor and an opaque body.
#[derive(Clone, Debug)]
pub struct opaque_auth {
    pub flavor: auth_flavor,
    pub body: Vec<u8>,
}

impl opaque_auth {
    /// AUTH_NULL with an empty body.
    pub fn null() -> (r: opaque_auth)
        ensures
            r.flavor == auth_flavor::AUTH_NULL,
            r.body@.len() == 0,
    {
        opaque_auth { flavor: auth_flavor::AUTH_NULL, body: Vec::new() }
    }

    pub open spec fn view(&self) -> (auth_flavor, Seq<u8>) {
        (self.flavor, self.body@)
    }
}

pub open spec fn dec_opaque_auth(s: Seq<u8>, pos: int) -> Option<((auth_flavor, Seq<u8>), int)> {
    match dec_u32(s, pos) {
        None => None,
        Some((f, p)) => match auth_flavor::spec_from_u32(f) {
            None => None,
            Some(flavor) => match dec_opaque(s, p) {
                None => None,
                Some((body, q)) => Some(((flavor, body), q)),
            },
        },
    }
}

pub fn deserialize_opaque_auth(src: &[u8], pos: usize) -> (r: Option<(opaque_auth, usize)>)
    ensures
        r matches Some((a, p)) ==> dec_opaque_auth(src@, pos as int) == Some((a.view(), p as int)),
        r is None <==> dec_opaque_auth(src@, pos as int) is None,
{
    let (f, p) = match get_u32(src, pos) { Some(x) => x, None => { return None; } };
    let flavor = match auth_flavor::from_u32(f) { Some(x) => x, None => { return None; } };
    let (body, q) = match get_opaque(src, p) { Some(x) => x, None => { return None; } };
    Some((opaque_auth { flavor, body }, q))
}

impl Serialize for opaque_auth {
    open spec fn spec_enc(&self) -> Seq<u8> {
        be32(self.flavor.value()) + opaque_enc(self.body@)
    }

    open spec fn spec_encodable(&self) -> bool {
        self.body@.len() <= u32::MAX
    }

    fn serialize(&self, dest: &mut Vec<u8>) {
        put_u32(dest, self.flavor.to_u32());
        put_opaque(dest, self.body.as_slice());
        assert(dest@ =~= old(dest)@ + self.spec_enc());
    }
}

/// The lowest and highest version supported.
#[derive(Clone, Copy, Debug, PartialEq, Eq, Structural)]
pub struct mismatch_info {
    pub low: u32,
    pub high: u32,
}

impl Serialize for mismatch_info {
    open spec fn spec_enc(&self) -> Seq<u8> {
        be32(self.low) + be32(self.high)
    }

    open spec fn spec_encodable(&self) -> bool {
        true
    }

    fn serialize(&self, dest: &mut Vec<u8>) {
        put_u32(dest, self.low);
        put_u32(dest, self.high);
        assert(dest@ =~= old(dest)@ + self.spec_enc());
    }
}

/// Outcome of a call the server accepted.
#[derive(Clone, Copy, Debug, PartialEq, Eq, Structural)]
pub enum accept_body {
    SUCCESS,
    PROG_UNAVAIL,
    PROG_MISMATCH(mismatch_info),
    PROC_UNAVAIL,
    GARBAGE_ARGS,
}

impl Serialize for accept_body {
    open spec fn spec_enc(&self) -> Seq<u8> {
        match self {
            accept_body::SUCCESS => be32(0),
            accept_body::PROG_UNAVAIL => be32(1),
            accept_body::PROG_MISMATCH(m) => be32(2) + m.spec_enc(),
            accept_body::PROC_UNAVAIL => be32(3),
            accept_body::GARBAGE_ARGS => be32(4),
        }
    }

    open spec fn spec_encodable(&self) -> bool {
        true
    }

    fn serialize(&self, dest: &mut Vec<u8>) {
        match self {
            accept_body::SUCCESS => put_u32(dest, 0),
            accept_body::PROG_UNAVAIL => put_u32(dest, 1),
            accept_body::PROG_MISMATCH(m) => {
                put_u32(dest, 2);
                m.serialize(dest);
                assert(dest@ =~= old(dest)@ + self.spec_enc());
            },
            accept_body::PROC_UNAVAIL => put_u32(dest, 3),
            accept_body::GARBAGE_ARGS => put_u32(dest, 4),
        }
    }
}

/// Why a call was refused.
#[derive(Clone, Copy, Debug, PartialEq, Eq, Structural)]
pub enum rejected_reply {
    RPC_MISMATCH(mismatch_info),
    AUTH_ERROR(auth_stat),
}

impl Serialize for rejected_reply {
    open spec fn spec_enc(&self) -> Seq<u8> {
        match self {
            rejected_reply::RPC_MISMATCH(m) => be32(0) + m.spec_enc(),
            rejected_reply::AUTH_ERROR(a) => be32(1) + be32(a.value()),
        }
    }

    open spec fn spec_encodable(&self) -> bool {
        true
    }

    fn serialize(&self, dest: &mut Vec<u8>) {
        match self {
            rejected_reply::RPC_MISMATCH(m) => {
                put_u32(dest, 0);
                m.serialize(dest);
            },
            rejected_reply::AUTH_ERROR(a) => {
                put_u32(dest, 1);
                a.serialize(dest);
            },
        }
        assert(dest@ =~= old(dest)@ + self.spec_enc());
    }
}

/// The verifier and outcome of an accepted call.
#[derive(Clone, Debug)]
pub struct accepted_reply {
    pub verf: opaque_auth,
    pub reply_data: accept_body,
}

impl Serialize for accepted_reply {
    open spec fn spec_enc(&self) -> Seq<u8> {
        self.verf.spec_enc() + self.reply_data.spec_enc()
    }

    open spec fn spec_encodable(&self) -> bool {
        self.verf.spec_encodable()
    }

    fn serialize(&self, dest: &mut Vec<u8>) {
        self.verf.serialize(dest);
        self.reply_data.serialize(dest);
        assert(dest@ =~= old(dest)@ + self.spec_enc());
    }
}

#[derive(Clone, Debug)]
pub enum reply_body {
    MSG_ACCEPTED(accepted_reply),
    MSG_DENIED(rejected_reply),
}

impl Serialize for reply_body {
    open spec fn spec_enc(&self) -> Seq<u8> {
        match self {
            reply_body::MSG_ACCEPTED(a) => be32(0) + a.spec_enc(),
            reply_body::MSG_DENIED(r) => be32(1) + r.spec_enc(),
        }
    }

    open spec fn spec_encodable(&self) -> bool {
        match self {
            reply_body::MSG_ACCEPTED(a) => a.spec_encodable(),
            reply_body::MSG_DENIED(r) => true,
        }
    }

    fn serialize(&self, dest: &mut Vec<u8>) {
        match self {
            reply_body::MSG_ACCEPTED(a) => {
                put_u32(dest, 0);
                a.serialize(dest);
            },
            reply_body::MSG_DENIED(r) => {
                put_u32(dest, 1);
                r.serialize(dest);
            },
        }
        assert(dest@ =~= old(dest)@ + self.spec_enc());
    }
}

/// The header of a call; the procedure's arguments follow it.
#[derive(Clone, Debug)]
pub struct call_body {
    pub rpcvers: u32,
    pub prog: u32,
    pub vers: u32,
    pub proc: u32,
    pub cred: opaque_auth,
    pub verf: opaque_auth,
}

impl Serialize for call_body {
    open spec fn spec_enc(&self) -> Seq<u8> {
        be32(self.rpcvers) + be32(self.prog) + be32(self.vers) + be32(self.proc)
            + self.cred.spec_enc() + self.verf.spec_enc()
    }

    open spec fn spec_encodable(&self) -> bool {
        self.cred.spec_encodable() && self.verf.spec_encodable()
    }

    fn serialize(&self, dest: &mut Vec<u8>) {
        put_u32(dest, self.rpcvers);
        put_u32(dest, self.prog);
        put_u32(dest, self.vers);
        put_u32(dest, self.proc);
        self.cred.serialize(dest);
        self.verf.serialize(dest);
        assert(dest@ =~= old(dest)@ + self.spec_enc());
    }
}

#[derive(Clone, Debug)]
pub enum rpc_body {
    CALL(call_body),
    REPLY(reply_body),
}

impl Serialize for rpc_body {
    open spec fn spec_enc(&self) -> Seq<u8> {
        match self {
            rpc_body::CALL(c) => be32(0) + c.spec_enc(),
            rpc_body::REPLY(r) => be32(1) + r.spec_enc(),
        }
    }

    open spec fn spec_encodable(&self) -> bool {
        match self {
            rpc_body::CALL(c) => c.spec_encodable(),
            rpc_body::REPLY(r) => r.spec_encodable(),
        }
    }

    fn serialize(&self, dest: &mut Vec<u8>) {
        match self {
            rpc_body::CALL(c) => {
                put_u32(dest, 0);
                c.serialize(dest);
            },
            rpc_body::REPLY(r) => {
                put_u32(dest, 1);
                r.serialize(dest);
            },
        }
        assert(dest@ =~= old(dest)@ + self.spec_enc());
    }
}

/// An RPC message: a transaction id and a call or a reply.
#[derive(Clone, Debug)]
pub struct rpc_msg {
    pub xid: u32,
    pub body: rpc_body,
}

impl Serialize for rpc_msg {
    open spec fn spec_enc(&self) -> Seq<u8> {
        be32(self.xid) + self.body.spec_enc()
    }

    open spec fn spec_encodable(&self) -> bool {
        self.body.spec_encodable()
    }

    fn serialize(&self, dest: &mut Vec<u8>) {
        put_u32(dest, self.xid);
        self.body.serialize(dest);
        assert(dest@ =~= old(dest)@ + self.spec_enc());
    }
}

/// The bytes of an accepted reply with an AUTH_NULL verifier.
pub open spec fn accepted_bytes(xid: u32, stat: Seq<u8>) -> Seq<u8> {
    be32(xid) + be32(1) + be32(0) + be32(0) + be32(0) + stat
}

/// The bytes of `make_success_reply(xid)`.
pub open spec fn success_bytes(xid: u32) -> Seq<u8> {
    accepted_bytes(xid, be32(0))
}

pub open spec fn is_accepted(m: rpc_msg, xid: u32, body: accept_body) -> bool {
    &&& m.xid == xid
    &&& m.body matches rpc_body::REPLY(reply_body::MSG_ACCEPTED(a))
    &&& a.verf.flavor == auth_flavor::AUTH_NULL
    &&& a.verf.body@.len() == 0
    &&& a.reply_data == body
}

proof fn lemma_accepted_enc(m: rpc_msg, xid: u32, body: accept_body)
    requires
        is_accepted(m, xid, body),
    ensures
        m.spec_encodable(),
        m.spec_enc() == accepted_bytes(xid, body.spec_enc()),
{
    let a = m.body->REPLY_0->MSG_ACCEPTED_0;
    crate::xdr::lemma_opaque_sizes();
    assert(a.verf.body@ =~= Seq::<u8>::empty());
    assert(m.spec_enc() =~= accepted_bytes(xid, body.spec_enc()));
}

fn accepted(xid: u32, reply_data: accept_body) -> (r: rpc_msg)
    ensures
        is_accepted(r, xid, reply_data),
{
    let reply = reply_body::MSG_ACCEPTED(accepted_reply { verf: opaque_auth::null(), reply_data });
    rpc_msg { xid, body: rpc_body::REPLY(reply) }
}

/// The procedure is not part of the program.
pub fn proc_unavail_reply_message(xid: u32) -> (r: rpc_msg)
    ensures
        is_accepted(r, xid, accept_body::PROC_UNAVAIL),
{
    accepted(xid, accept_body::PROC_UNAVAIL)
}

/// The program is not served here.
pub fn prog_unavail_reply_message(xid: u32) -> (r: rpc_msg)
    ensures
        is_accepted(r, xid, accept_body::PROG_UNAVAIL),
{
    accepted(xid, accept_body::PROG_UNAVAIL)
}

/// The program is served only at `accepted_ver`.
pub fn prog_mismatch_reply_message(xid: u32, accepted_ver: u32) -> (r: rpc_msg)
    ensures
        is_accepted(
            r,
            xid,
            accept_body::PROG_MISMATCH(mismatch_info { low: accepted_ver, high: accepted_ver }),
        ),
{
    accepted(xid, accept_body::PROG_MISMATCH(mismatch_info { low: accepted_ver, high: accepted_ver }))
}

/// The procedure's arguments could not be decoded.
pub fn garbage_args_reply_message(xid: u32) -> (r: rpc_msg)
    ensures
        is_accepted(r, xid, accept_body::GARBAGE_ARGS),
{
    accepted(xid, accept_body::GARBAGE_ARGS)
}

/// The call named an RPC version other than 2.
pub fn rpc_vers_mismatch(xid: u32) -> (r: rpc_msg)
    ensures
        r.xid == xid,
        r.body == rpc_body::REPLY(
            reply_body::MSG_DENIED(rejected_reply::RPC_MISMATCH(mismatch_info { low: 0, high: 0 })),
        ),
{
    let reply = reply_body::MSG_DENIED(rejected_reply::RPC_MISMATCH(mismatch_info { low: 0, high: 0 }));
    rpc_msg { xid, body: rpc_body::REPLY(reply) }
}

/// The call succeeded; the procedure's results follow.
pub fn make_success_reply(xid: u32) -> (r: rpc_msg)
    ensures
        is_accepted(r, xid, accept_body::SUCCESS),
{
    accepted(xid, accept_body::SUCCESS)
}

/// Appends the bytes of an accepted reply with the given outcome.
pub fn write_accepted(dest: &mut Vec<u8>, xid: u32, reply_data: accept_body)
    ensures
        final(dest)@ == old(dest)@ + accepted_bytes(xid, reply_data.spec_enc()),
{
    let m = accepted(xid, reply_data);
    proof {
        lemma_accepted_enc(m, xid, reply_data);
    }
    m.serialize(dest);
}

/// Appends `make_success_reply(xid)`.
pub fn write_success(dest: &mut Vec<u8>, xid: u32)
    ensures
        final(dest)@ == old(dest)@ + success_bytes(xid),
{
    write_accepted(dest, xid, accept_body::SUCCESS);
}

/// What the decoder reads from the head of a call.
pub struct CallView {
    pub xid: u32,
    pub rpcvers: u32,
    pub prog: u32,
    pub vers: u32,
    pub proc: u32,
    pub cred: (auth_flavor, Seq<u8>),
    pub verf: (auth_flavor, Seq<u8>),
}

/// A call message: transaction id, message type 0, and the call header.
pub open spec fn dec_call(s: Seq<u8>, pos: int) -> Option<(CallView, int)> {
    match dec_u32(s, pos) {
        None => None,
        Some((xid, p)) => match dec_u32(s, p) {
            None => None,
            Some((mtype, p)) => if mtype != 0 {
                None
            } else {
                match dec_u32(s, p) {
                    None => None,
                    Some((rpcvers, p)) => match dec_u32(s, p) {
                        None => None,
                        Some((prog, p)) => match dec_u32(s, p) {
                            None => None,
                            Some((vers, p)) => match dec_u32(s, p) {
                                None => None,
                                Some((proc, p)) => match dec_opaque_auth(s, p) {
                                    None => None,
                                    Some((cred, p)) => match dec_opaque_auth(s, p) {
                                        None => None,
                                        Some((verf, p)) => Some(
                                            (CallView { xid, rpcvers, prog, vers, proc, cred, verf }, p),
                                        ),
                                    },
                                },
                            },
                        },
                    },
                }
            },
        },
    }
}

impl rpc_msg {
    pub open spec fn call_view(&self) -> CallView
        recommends
            self.body is CALL,
    {
        let c = self.body->CALL_0;
        CallView {
            xid: self.xid,
            rpcvers: c.rpcvers,
            prog: c.prog,
            vers: c.vers,
            proc: c.proc,
            cred: c.cred.view(),
            verf: c.verf.view(),
        }
    }

    /// Decodes a call message at `pos`; the procedure's arguments start at
    /// the returned position. A reply, or bytes that do not decode, give `None`.
    pub fn deserialize_call(src: &[u8], pos: usize) -> (r: Option<(rpc_msg, usize)>)
        ensures
            r matches Some((m, p)) ==> m.body is CALL && dec_call(src@, pos as int) == Some(
                (m.call_view(), p as int),
            ),
            r is None <==> dec_call(src@, pos as int) is None,
    {
        let (xid, p) = match get_u32(src, pos) { Some(x) => x, None => { return None; } };
        let (mtype, p) = match get_u32(src, p) { Some(x) => x, None => { return None; } };
        if mtype != 0 {
            return None;
        }
        let (rpcvers, p) = match get_u32(src, p) { Some(x) => x, None => { return None; } };
        let (prog, p) = match get_u32(src, p) { Some(x) => x, None => { return None; } };
        let (vers, p) = match get_u32(src, p) { Some(x) => x, None => { return None; } };
        let (proc, p) = match get_u32(src, p) { Some(x) => x, None => { return None; } };
        let (cred, p) = match deserialize_opaque_auth(src, p) {
            Some(x) => x,
            None => { return None; },
        };
        let (verf, p) = match deserialize_opaque_auth(src, p) {
            Some(x) => x,
            None => { return None; },
        };
        let body = call_body { rpcvers, prog, vers, proc, cred, verf };
        Some((rpc_msg { xid, body: rpc_body::CALL(body) }, p))
    }
}

/// Decoding authentication data reads back what was encoded.
pub proof fn lemma_opaque_auth_round_trip(pre: Seq<u8>, a: opaque_auth, rest: Seq<u8>)
    requires
        a.spec_encodable(),
    ensures
        dec_opaque_auth(pre + a.spec_enc() + rest, pre.len() as int) == Some(
            (a.view(), (pre.len() + a.spec_enc().len()) as int),
        ),
{
    let h = be32(a.flavor.value());
    let o = opaque_enc(a.body@);
    crate::xdr::lemma_be32_round_trip(a.flavor.value());
    let s = pre + a.spec_enc() + rest;
    assert(s =~= pre + h + (o + rest));
    crate::xdr::lemma_u32_round_trip(pre, a.flavor.value(), o + rest);
    assert(s =~= (pre + h) + o + rest);
    crate::xdr::lemma_opaque_round_trip(pre + h, a.body@, rest);
}

} // verus!
