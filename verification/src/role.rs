//! The two roles of a dialogue, and the ids each of them may open.

use vstd::prelude::*;
use crate::packet::PacketId;

verus! {

/// Type-level indicator for whether a `Dialogue` takes the server or the
/// client role.
///
/// The role breaks the symmetry between the two peers in one place: it
/// decides under which ids a side opens its conversations. A server opens
/// requests and duplexes under even ids, a client under odd ids, so an id
/// names the side that opened the conversation and the two peers never open
/// two conversations under one id.
pub trait Role {
    /// Whether this is the server role.
    spec fn server() -> bool;

    /// Returns whether the corresponding `Dialogue` has the server role.
    fn is_server() -> (server: bool)
        ensures
            server == Self::server(),
    ;
}

/// The server role.
pub enum Server {
    /// The only value: the role lives in the type.
    Marker,
}

impl Role for Server {
    open spec fn server() -> bool {
        true
    }

    fn is_server() -> (server: bool) {
        true
    }
}

/// The client role.
pub enum Client {
    /// The only value: the role lives in the type.
    Marker,
}

impl Role for Client {
    open spec fn server() -> bool {
        false
    }

    fn is_server() -> (server: bool) {
        false
    }
}

/// Whether the side with the given role opens conversations under `id`:
/// the server owns the even ids, the client the odd ones.
pub open spec fn opens(server: bool, id: PacketId) -> bool {
    (id % 2 == 0) == server
}

} // verus!
