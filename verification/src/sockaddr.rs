//! Socket addresses as the kernel takes them.

use vstd::prelude::*;

use crate::requests::{connect_to, Entry, IOType, IoRequest};

verus! {

pub const AF_UNIX: u16 = 1;

pub const AF_INET: u16 = 2;

pub const AF_INET6: u16 = 10;

/// The length of an IPv4 address for the kernel.
pub const SOCKADDR_IN_LEN: u32 = 16;

/// The length of an IPv6 address for the kernel.
pub const SOCKADDR_IN6_LEN: u32 = 28;

/// The room for the path of a Unix socket.
pub const SUN_PATH_LEN: usize = 108;

/// The length of the address family in front of a path.
pub const SA_FAMILY_LEN: usize = 2;

/// An IPv4 address and port.
#[derive(Clone, Copy, Debug, PartialEq, Eq)]
pub struct SocketAddrV4 {
    pub octets: [u8; 4],
    pub port: u16,
}

/// An IPv6 address and port.
#[derive(Clone, Copy, Debug, PartialEq, Eq)]
pub struct SocketAddrV6 {
    pub octets: [u8; 16],
    pub port: u16,
    pub flowinfo: u32,
    pub scope_id: u32,
}

/// An internet address and port.
#[derive(Clone, Copy, Debug, PartialEq, Eq)]
pub enum SocketAddr {
    V4(SocketAddrV4),
    V6(SocketAddrV6),
}

/// The address of a Unix socket.
#[derive(Debug, PartialEq, Eq)]
pub enum SocketAddrUnix {
    /// A name that is no path.
    Abstract(Vec<u8>),
    /// A path, without its terminating zero.
    Path(Vec<u8>),
}

/// An IPv4 address for the kernel; port and address as bytes in network order.
#[derive(Clone, Copy, Debug, PartialEq, Eq)]
pub struct SockaddrIn {
    pub sin_family: u16,
    pub sin_port: [u8; 2],
    pub sin_addr: [u8; 4],
}

/// An IPv6 address for the kernel; port and address as bytes in network order.
#[derive(Clone, Copy, Debug, PartialEq, Eq)]
pub struct SockaddrIn6 {
    pub sin6_family: u16,
    pub sin6_port: [u8; 2],
    pub sin6_flowinfo: u32,
    pub sin6_addr: [u8; 16],
    pub sin6_scope_id: u32,
}

/// The address of a Unix socket for the kernel.
#[derive(Debug, PartialEq, Eq)]
pub struct SockaddrUn {
    pub sun_family: u16,
    /// The path, filled up with zeros.
    pub sun_path: Vec<u8>,
}

/// A port in network order.
pub open spec fn port_bytes(port: u16) -> Seq<u8> {
    seq![(port / 256) as u8, (port % 256) as u8]
}

fn port_to_bytes(port: u16) -> (b: [u8; 2])
    ensures
        b@ == port_bytes(port),
{
    let b: [u8; 2] = [(port / 256) as u8, (port % 256) as u8];
    assert(b@ =~= port_bytes(port));
    b
}

/// An IPv4 address for the kernel.
pub fn sockaddr_from_socketaddr(addr: &SocketAddrV4) -> (s: SockaddrIn)
    ensures
        s.sin_family == AF_INET,
        s.sin_port@ == port_bytes(addr.port),
        s.sin_addr@ == addr.octets@,
{
    SockaddrIn { sin_family: AF_INET, sin_port: port_to_bytes(addr.port), sin_addr: addr.octets }
}

/// An IPv6 address for the kernel.
pub fn sockaddr6_from_socketaddrv6(addr: &SocketAddrV6) -> (s: SockaddrIn6)
    ensures
        s.sin6_family == AF_INET6,
        s.sin6_port@ == port_bytes(addr.port),
        s.sin6_flowinfo == addr.flowinfo,
        s.sin6_addr@ == addr.octets@,
        s.sin6_scope_id == addr.scope_id,
{
    SockaddrIn6 {
        sin6_family: AF_INET6,
        sin6_port: port_to_bytes(addr.port),
        sin6_flowinfo: addr.flowinfo,
        sin6_addr: addr.octets,
        sin6_scope_id: addr.scope_id,
    }
}

impl SocketAddrUnix {
    /// What stands in the path of the kernel's address: an abstract name has a zero in
    /// front.
    pub open spec fn path_bytes(self) -> Seq<u8> {
        match self {
            SocketAddrUnix::Abstract(name) => seq![0u8] + name@,
            SocketAddrUnix::Path(path) => path@,
        }
    }
}

/// `bytes` filled up with zeros to `len`.
pub open spec fn padded(bytes: Seq<u8>, len: nat) -> Seq<u8> {
    Seq::new(
        len,
        |i: int|
            if i < bytes.len() {
                bytes[i]
            } else {
                0u8
            },
    )
}

/// The address of a Unix socket for the kernel, and its length: that of the family and of
/// what stands in the path.
pub fn sockaddr_from_socketaddr_unix(addr: &SocketAddrUnix) -> (r: (SockaddrUn, usize))
    requires
        addr.path_bytes().len() <= SUN_PATH_LEN,
    ensures
        r.0.sun_family == AF_UNIX,
        r.0.sun_path@ == padded(addr.path_bytes(), SUN_PATH_LEN as nat),
        r.1 == addr.path_bytes().len() + SA_FAMILY_LEN,
{
    let mut sun_path: Vec<u8> = Vec::new();
    match addr {
        SocketAddrUnix::Abstract(name) => {
            sun_path.push(0);
            sun_path.extend_from_slice(name.as_slice());
        },
        SocketAddrUnix::Path(path) => {
            sun_path.extend_from_slice(path.as_slice());
        },
    }
    assert(sun_path@ =~= addr.path_bytes());
    let used: usize = sun_path.len();
    while sun_path.len() < SUN_PATH_LEN
        invariant
            used == addr.path_bytes().len(),
            used <= sun_path@.len() <= SUN_PATH_LEN,
            sun_path@ == padded(addr.path_bytes(), sun_path@.len()),
        decreases SUN_PATH_LEN - sun_path@.len(),
    {
        sun_path.push(0);
        assert(sun_path@ =~= padded(addr.path_bytes(), sun_path@.len()));
    }
    (SockaddrUn { sun_family: AF_UNIX, sun_path }, used + SA_FAMILY_LEN)
}

/// An internet address for the kernel.
#[derive(Clone, Copy, Debug, PartialEq, Eq)]
pub enum Sockaddr {
    In(SockaddrIn),
    In6(SockaddrIn6),
}

/// Connects a socket to an internet address: the request, and what is to stand at `place`
/// for it.
pub fn connect(fd: i32, addr: &SocketAddr, place: u64) -> (r: (IoRequest, Sockaddr))
    ensures
        r.0 == (IoRequest {
            entry: Entry::Connect {
                fd,
                addr: place,
                addr_len: if addr is V4 {
                    SOCKADDR_IN_LEN
                } else {
                    SOCKADDR_IN6_LEN
                },
            },
            fd,
            timeout: None,
            io_type: IOType::Connect,
            polled: false,
            by_deadline: false,
        }),
        match addr {
            SocketAddr::V4(a) => r.1 matches Sockaddr::In(s) && s.sin_family == AF_INET
                && s.sin_port@ == port_bytes(a.port) && s.sin_addr@ == a.octets@,
            SocketAddr::V6(a) => r.1 matches Sockaddr::In6(s) && s.sin6_family == AF_INET6
                && s.sin6_port@ == port_bytes(a.port) && s.sin6_flowinfo == a.flowinfo
                && s.sin6_addr@ == a.octets@ && s.sin6_scope_id == a.scope_id,
        },
{
    match addr {
        SocketAddr::V4(addr) => (
            connect_to(fd, place, SOCKADDR_IN_LEN),
            Sockaddr::In(sockaddr_from_socketaddr(addr)),
        ),
        SocketAddr::V6(addr) => (
            connect_to(fd, place, SOCKADDR_IN6_LEN),
            Sockaddr::In6(sockaddr6_from_socketaddrv6(addr)),
        ),
    }
}

/// Connects a socket to the address of a Unix socket: the request, and what is to stand at
/// `place` for it.
pub fn connect_unix(fd: i32, addr: &SocketAddrUnix, place: u64) -> (r: (IoRequest, SockaddrUn))
    requires
        addr.path_bytes().len() <= SUN_PATH_LEN,
    ensures
        r.0 == (IoRequest {
            entry: Entry::Connect {
                fd,
                addr: place,
                addr_len: (addr.path_bytes().len() + SA_FAMILY_LEN) as u32,
            },
            fd,
            timeout: None,
            io_type: IOType::Connect,
            polled: false,
            by_deadline: false,
        }),
        r.1.sun_family == AF_UNIX,
        r.1.sun_path@ == padded(addr.path_bytes(), SUN_PATH_LEN as nat),
{
    let (sockaddr, len) = sockaddr_from_socketaddr_unix(addr);
    (connect_to(fd, place, len as u32), sockaddr)
}

} // verus!
