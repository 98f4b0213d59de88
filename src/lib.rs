//! A user-space NFSv3 server core: XDR codec, ONC RPC framing and dispatch,
//! the PORTMAP and MOUNT sub-protocols, and the NFSv3 encoding rules.
//!
//! Everything here is verified. The file system and the network are the
//! caller's: the dispatcher hands back the work that needs them, and the
//! procedure functions encode replies from what the file system answered.

pub mod buffers;
pub mod dispatch;
pub mod framing;
pub mod mount;
pub mod nfs3;
pub mod portmap;
pub mod rpc;
pub mod tracker;
pub mod xdr;
