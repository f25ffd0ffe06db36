//! Socket layer of a kernel network stack: a unified TCP / UDP / NETLINK
//! socket, the blocking-attempt decisions of its adapters, the NETLINK
//! routing-socket emulation and the POSIX option and address marshalling.
use vstd::prelude::*;

pub mod error;
pub mod bytes;
pub mod addr;
pub mod port;
pub mod ring;
pub mod raw;
pub mod table;
pub mod netlink;
pub mod udp;
pub mod tcp;
pub mod socket;
pub mod sockopt;
pub mod eventfd;
pub mod stack;
