//! The RPC dispatcher: from one record to a reply, or to the work that only
//! the file system can do. Version checks, retransmission detection, and the
//! PORTMAP and MOUNT programs are decided here; an NFS call, or a MNT whose
//! path must be resolved, is handed back to the caller, who replies and then
//! calls `TransactionTracker::mark_processed`.
use vstd::prelude::*;
use crate::mount::{self, MountStep, handle_mount};
use crate::nfs3::types as nfs3;
use crate::portmap::{self, PortmapTable, dec_mapping, handle_portmap};
use crate::rpc::{
    CallView, accept_body, accepted_bytes, auth_flavor, auth_unix, dec_auth_unix, dec_call,
    mismatch_info, rpc_msg, rpc_vers_mismatch, write_accepted, RPC_VERSION,
};
use crate::tracker::{TransactionState, TransactionTracker, cutoff, evict};
use crate::xdr::{Serialize, be32};

verus! {

/// RPC program number of the NFS ACL side protocol, which is not served.
pub const NFS_ACL_PROGRAM: u32 = 100227;
/// RPC program number of NFS ID mapping, which is not served.
pub const NFS_ID_MAP_PROGRAM: u32 = 100270;
/// RPC program number of the LOCALIO side protocol, which is not served.
pub const NFS_LOCALIO_PROGRAM: u32 = 400122;
/// RPC program number of NFS metadata, which is not served.
pub const NFS_METADATA_PROGRAM: u32 = 200024;

/// A record that is not a well-formed call; the connection is closed.
#[derive(Clone, Copy, Debug, PartialEq, Eq, Structural)]
pub struct BadCall;

/// What is left to do with a call.
pub enum RpcStep {
    /// The reply is written. `mount_signal` is what to send on the
    /// mount-event channel, if one is configured.
    Replied { mount_signal: Option<bool> },
    /// A retransmission: no reply at all.
    Dropped,
    /// An NFSv3 call: run procedure `proc` on the arguments at `args`.
    Nfs { xid: u32, proc: u32, args: usize },
    /// A MNT: resolve `path`, reply with `mount::mnt_reply`, send `true` on
    /// the mount-event channel on success.
    MountResolve { xid: u32, path: Vec<u8> },
}

/// The bytes of `rpc_vers_mismatch(xid)`.
pub open spec fn vers_mismatch_bytes(xid: u32) -> Seq<u8> {
    be32(xid) + be32(1) + be32(1) + be32(0) + be32(0) + be32(0)
}

/// The bytes of `prog_mismatch_reply_message(xid, v)`.
pub open spec fn prog_mismatch_bytes(xid: u32, v: u32) -> Seq<u8> {
    accepted_bytes(xid, accept_body::PROG_MISMATCH(mismatch_info { low: v, high: v }).spec_enc())
}

/// The bytes of `prog_unavail_reply_message(xid)`.
pub open spec fn prog_unavail_bytes(xid: u32) -> Seq<u8> {
    accepted_bytes(xid, accept_body::PROG_UNAVAIL.spec_enc())
}

/// The bytes of `garbage_args_reply_message(xid)`.
pub open spec fn garbage_args_bytes(xid: u32) -> Seq<u8> {
    accepted_bytes(xid, accept_body::GARBAGE_ARGS.spec_enc())
}

/// Whether the call's credentials decode: AUTH_UNIX bodies must.
pub open spec fn auth_ok(c: CallView) -> bool {
    c.cred.0 == auth_flavor::AUTH_UNIX ==> dec_auth_unix(c.cred.1, 0) is Some
}

/// Decodes and routes one record from `client_addr`, received at `now`.
/// `auth` receives the AUTH_UNIX credentials of the call, if it has them.
pub fn handle_rpc(
    record: &[u8],
    client_addr: &[u8],
    now: u64,
    tracker: &mut TransactionTracker,
    portmap_table: &mut PortmapTable,
    export_name: &[u8],
    auth: &mut Option<auth_unix>,
    output: &mut Vec<u8>,
) -> (r: Result<RpcStep, BadCall>)
    requires
        old(tracker).wf(),
        old(portmap_table).wf(),
        export_name@.len() <= u32::MAX,
    ensures
        final(tracker).wf(),
        final(portmap_table).wf(),
        final(tracker).retention() == old(tracker).retention(),
        dec_call(record@, 0) is None ==> r is Err && final(output)@ == old(output)@
            && final(tracker)@ == old(tracker)@,
        dec_call(record@, 0) matches Some((c, _)) ==> (c.cred.0 == auth_flavor::AUTH_UNIX ==> (
        dec_auth_unix(c.cred.1, 0) matches Some((v, _)) ==> (*final(auth) matches Some(a) && a.view()
            == v))),
        dec_call(record@, 0) matches Some((c, _)) ==> (c.cred.0 != auth_flavor::AUTH_UNIX
            ==> *final(auth) == *old(auth)),
        dec_call(record@, 0) matches Some((c, _)) ==> (!auth_ok(c) ==> r is Err && final(output)@
            == old(output)@ && final(tracker)@ == old(tracker)@),
        dec_call(record@, 0) matches Some((c, p)) ==> (auth_ok(c) ==> ({
            let seen = evict(old(tracker)@, cutoff(now, old(tracker).retention()));
            let k = (c.xid, client_addr@);
            &&& r is Ok
            &&& c.rpcvers != RPC_VERSION ==> (r matches Ok(RpcStep::Replied { mount_signal: None }))
                && final(output)@ == old(output)@ + vers_mismatch_bytes(c.xid)
                && final(tracker)@ == old(tracker)@
            &&& c.rpcvers == RPC_VERSION && seen.contains_key(k) ==> (r matches Ok(RpcStep::Dropped))
                && final(output)@ == old(output)@ && final(tracker)@ == seen
            &&& c.rpcvers == RPC_VERSION && !seen.contains_key(k) ==> final(tracker)@.contains_key(k)
            &&& c.rpcvers == RPC_VERSION && !seen.contains_key(k) && (r matches Ok(RpcStep::Replied { .. }))
                ==> final(tracker)@ == seen.insert(k, TransactionState::Completed(now))
            &&& c.rpcvers == RPC_VERSION && !seen.contains_key(k) && (r matches Ok(RpcStep::Nfs { .. })
                || r matches Ok(RpcStep::MountResolve { .. })) ==> final(tracker)@ == seen.insert(
                k,
                TransactionState::InProgress,
            )
            &&& c.rpcvers == RPC_VERSION && !seen.contains_key(k) && c.prog == nfs3::PROGRAM && c.vers
                == nfs3::VERSION ==> (r matches Ok(RpcStep::Nfs { xid, proc, args }) && xid == c.xid
                && proc == c.proc && args == p) && final(output)@ == old(output)@
            &&& c.rpcvers == RPC_VERSION && !seen.contains_key(k) && c.prog == nfs3::PROGRAM && c.vers
                != nfs3::VERSION ==> final(output)@ == old(output)@ + prog_mismatch_bytes(c.xid, nfs3::VERSION)
            &&& c.rpcvers == RPC_VERSION && !seen.contains_key(k) && c.prog == portmap::PROGRAM && c.vers
                != portmap::VERSION ==> final(output)@ == old(output)@ + prog_mismatch_bytes(c.xid, portmap::VERSION)
            &&& c.rpcvers == RPC_VERSION && !seen.contains_key(k) && c.prog == portmap::PROGRAM ==> (r matches Ok(
                RpcStep::Replied { mount_signal: None },
            ))
            &&& c.rpcvers == RPC_VERSION && !seen.contains_key(k) && c.prog == portmap::PROGRAM && c.vers
                == portmap::VERSION && 1 <= c.proc <= 3 && dec_mapping(record@, p) is None
                ==> final(output)@ == old(output)@ + garbage_args_bytes(c.xid)
                && final(portmap_table)@ == old(portmap_table)@
            &&& c.rpcvers == RPC_VERSION && !seen.contains_key(k) && c.prog != nfs3::PROGRAM && c.prog
                != portmap::PROGRAM && c.prog != mount::PROGRAM ==> (r matches Ok(RpcStep::Replied { mount_signal: None }))
                && final(output)@ == old(output)@ + prog_unavail_bytes(c.xid)
        })),
{
    let (msg, args) = match rpc_msg::deserialize_call(record, 0) {
        Some(x) => x,
        None => { return Err(BadCall); },
    };
    let call = match &msg.body {
        crate::rpc::rpc_body::CALL(c) => c,
        crate::rpc::rpc_body::REPLY(_) => { return Err(BadCall); },
    };
    let xid = msg.xid;
    if call.cred.flavor == auth_flavor::AUTH_UNIX {
        match auth_unix::deserialize(call.cred.body.as_slice(), 0) {
            Some((a, _)) => { *auth = Some(a); },
            None => { return Err(BadCall); },
        }
    }
    if call.rpcvers != RPC_VERSION {
        let m = rpc_vers_mismatch(xid);
        m.serialize(output);
        assert(m.spec_enc() =~= vers_mismatch_bytes(xid));
        return Ok(RpcStep::Replied { mount_signal: None });
    }
    if tracker.is_retransmission(xid, client_addr, now) {
        return Ok(RpcStep::Dropped);
    }
    let step = if call.prog == nfs3::PROGRAM {
        if call.vers == nfs3::VERSION {
            return Ok(RpcStep::Nfs { xid, proc: call.proc, args });
        }
        write_accepted(output, xid, accept_body::PROG_MISMATCH(mismatch_info { low: nfs3::VERSION, high: nfs3::VERSION }));
        RpcStep::Replied { mount_signal: None }
    } else if call.prog == portmap::PROGRAM {
        match handle_portmap(xid, call, record, args, output, portmap_table) {
            Ok(()) => {},
            Err(_) => {
                write_accepted(output, xid, accept_body::GARBAGE_ARGS);
            },
        }
        RpcStep::Replied { mount_signal: None }
    } else if call.prog == mount::PROGRAM {
        match handle_mount(xid, call, record, args, output, export_name) {
            Ok(MountStep::Replied { signal }) => RpcStep::Replied { mount_signal: signal },
            Ok(MountStep::Resolve(path)) => {
                return Ok(RpcStep::MountResolve { xid, path });
            },
            Err(_) => {
                write_accepted(output, xid, accept_body::GARBAGE_ARGS);
                RpcStep::Replied { mount_signal: None }
            },
        }
    } else {
        write_accepted(output, xid, accept_body::PROG_UNAVAIL);
        RpcStep::Replied { mount_signal: None }
    };
    tracker.mark_processed(xid, client_addr, now);
    Ok(step)
}

} // verus!
