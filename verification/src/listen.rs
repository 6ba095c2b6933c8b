//! What kind of address the server is asked to listen on.

use vstd::prelude::*;
use vstd::string::StringSliceAdditionalSpecFns;
use crate::text::DOT;
use crate::text::SLASH;

verus! {

/// The longest path of a Unix socket, in bytes.
pub const UNIX_PATH_MAX: usize = 104;

#[derive(Clone, Copy, Debug, PartialEq, Eq, Structural)]
pub enum ListenAddr {
    /// No address at all.
    Empty,
    /// The path of a Unix socket.
    UnixSocket,
    /// The path of a Unix socket that is longer than a socket address holds.
    UnixSocketTooLong,
    /// Anything else: to be read as an IP address with a port.
    Tcp,
}

/// A path begins with a slash, or with a dot and a slash.
pub open spec fn is_socket_path(addr: Seq<u8>) -> bool {
    (addr.len() >= 1 && addr[0] == SLASH) || (addr.len() >= 2 && addr[0] == DOT && addr[1]
        == SLASH)
}

pub open spec fn spec_classify_listen_addr(addr: Seq<u8>) -> ListenAddr {
    if addr.len() == 0 {
        ListenAddr::Empty
    } else if is_socket_path(addr) {
        if addr.len() > UNIX_PATH_MAX {
            ListenAddr::UnixSocketTooLong
        } else {
            ListenAddr::UnixSocket
        }
    } else {
        ListenAddr::Tcp
    }
}

/// Tells the kinds of listen address apart by their bytes.
pub fn classify_listen_addr(addr: &str) -> (kind: ListenAddr)
    ensures
        kind == spec_classify_listen_addr(addr.spec_bytes()),
{
    let bytes = addr.as_bytes();
    if bytes.len() == 0 {
        ListenAddr::Empty
    } else if bytes[0] == SLASH || (bytes.len() >= 2 && bytes[0] == DOT && bytes[1] == SLASH) {
        if bytes.len() > UNIX_PATH_MAX {
            ListenAddr::UnixSocketTooLong
        } else {
            ListenAddr::UnixSocket
        }
    } else {
        ListenAddr::Tcp
    }
}

} // verus!
