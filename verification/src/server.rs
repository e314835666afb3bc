//! Where the proxy listens.
use vstd::prelude::*;

verus! {

/// The port and reach of the self-service server.
pub struct ServerConfig {
    pub port: u16,
    pub only_localhost: bool,
}

impl Default for ServerConfig {
    fn default() -> (r: Self)
        ensures
            r.port == 7788,
            !r.only_localhost,
    {
        ServerConfig { port: 7788, only_localhost: false }
    }
}

/// An address of a network interface.
pub enum IpAddress {
    V4([u8; 4]),
    V6([u16; 8]),
}

/// An IPv4 socket address.
pub struct SocketAddressV4 {
    pub ip: [u8; 4],
    pub port: u16,
}

/// `Ipv4Addr::is_loopback`: 127.0.0.0/8.
pub open spec fn is_loopback(o: Seq<u8>) -> bool {
    o[0] == 127
}

/// `Ipv4Addr::is_unspecified`: 0.0.0.0.
pub open spec fn is_unspecified(o: Seq<u8>) -> bool {
    o[0] == 0 && o[1] == 0 && o[2] == 0 && o[3] == 0
}

/// `Ipv4Addr::is_link_local`: 169.254.0.0/16.
pub open spec fn is_link_local(o: Seq<u8>) -> bool {
    o[0] == 169 && o[1] == 254
}

/// `Ipv4Addr::is_multicast`: 224.0.0.0/4.
pub open spec fn is_multicast(o: Seq<u8>) -> bool {
    224 <= o[0] && o[0] <= 239
}

/// `Ipv4Addr::is_broadcast`: 255.255.255.255.
pub open spec fn is_broadcast(o: Seq<u8>) -> bool {
    o[0] == 255 && o[1] == 255 && o[2] == 255 && o[3] == 255
}

/// An interface address that the proxy listens on: only IPv4; only loopback when it serves
/// this machine alone, else any address that can be reached (not unspecified, link-local,
/// multicast or broadcast).
pub open spec fn listens_on(a: IpAddress, local_only: bool) -> bool {
    match a {
        IpAddress::V4(o) => if local_only {
            is_loopback(o@)
        } else {
            !is_unspecified(o@) && !is_link_local(o@) && !is_multicast(o@) && !is_broadcast(o@)
        },
        IpAddress::V6(_) => false,
    }
}

/// The listen addresses of the first `n` interface addresses, in order, each with `port`.
pub open spec fn listen_addresses(addrs: Seq<IpAddress>, local_only: bool, port: u16, n: int) -> Seq<([u8; 4], u16)>
    decreases n,
{
    if n <= 0 {
        Seq::empty()
    } else {
        let prefix = listen_addresses(addrs, local_only, port, n - 1);
        match addrs[n - 1] {
            IpAddress::V4(o) => if listens_on(addrs[n - 1], local_only) { prefix.push((o, port)) } else { prefix },
            IpAddress::V6(_) => prefix,
        }
    }
}

/// Whether the proxy listens on `a`.
fn listens_on_exec(a: &IpAddress, local_only: bool) -> (r: bool)
    ensures
        r == listens_on(*a, local_only),
{
    match a {
        IpAddress::V4(o) => {
            if local_only {
                o[0] == 127
            } else {
                let unspecified = o[0] == 0 && o[1] == 0 && o[2] == 0 && o[3] == 0;
                let link_local = o[0] == 169 && o[1] == 254;
                let multicast = 224 <= o[0] && o[0] <= 239;
                let broadcast = o[0] == 255 && o[1] == 255 && o[2] == 255 && o[3] == 255;
                !unspecified && !link_local && !multicast && !broadcast
            }
        },
        IpAddress::V6(_) => false,
    }
}

/// The addresses the proxy listens on, from the addresses of the machine's interfaces.
pub fn access_addresses(addrs: &Vec<IpAddress>, local_only: bool, port: u16) -> (r: Vec<SocketAddressV4>)
    ensures
        r@.map_values(|s: SocketAddressV4| (s.ip, s.port)) == listen_addresses(addrs@, local_only, port, addrs@.len() as int),
{
    let n = addrs.len();
    let mut out: Vec<SocketAddressV4> = Vec::new();
    let mut i: usize = 0;
    while i < n
        invariant
            n == addrs@.len(),
            i <= n,
            out@.map_values(|s: SocketAddressV4| (s.ip, s.port)) == listen_addresses(addrs@, local_only, port, i as int),
        decreases n - i,
    {
        let ghost before = out@;
        if listens_on_exec(&addrs[i], local_only) {
            match &addrs[i] {
                IpAddress::V4(o) => {
                    out.push(SocketAddressV4 { ip: *o, port });
                    assert(out@.map_values(|s: SocketAddressV4| (s.ip, s.port))
                        =~= before.map_values(|s: SocketAddressV4| (s.ip, s.port)).push((*o, port)));
                },
                IpAddress::V6(_) => {},
            }
        }
        i = i + 1;
    }
    out
}

/// When the proxy serves this machine alone, it listens on loopback addresses only.
pub proof fn lemma_local_only_listens_on_loopback(addrs: Seq<IpAddress>, port: u16, n: int)
    requires
        0 <= n <= addrs.len(),
    ensures
        forall|k: int| 0 <= k < listen_addresses(addrs, true, port, n).len()
            ==> #[trigger] listen_addresses(addrs, true, port, n)[k].0@[0] == 127,
    decreases n,
{
    if n > 0 {
        lemma_local_only_listens_on_loopback(addrs, port, n - 1);
        let prefix = listen_addresses(addrs, true, port, n - 1);
        let all = listen_addresses(addrs, true, port, n);
        assert forall|k: int| 0 <= k < all.len() implies #[trigger] all[k].0@[0] == 127 by {
            if k < prefix.len() {
                assert(all[k] == prefix[k]);
            }
        }
    }
}

/// The port to listen on: the configured one, or 0 for any free port.
pub fn listen_port(configured: Option<u16>) -> (r: u16)
    ensures
        r == (match configured { Some(p) => p, None => 0 }),
{
    match configured {
        Some(p) => p,
        None => 0,
    }
}

} // verus!
