//! Internet addresses: the part of them that the shop decides on and renders.
use vstd::prelude::*;
use crate::text::{decimal, push_char, push_decimal, push_str};

verus! {

/// An IPv4 address.
#[derive(Clone, Copy, Debug)]
pub struct Ipv4Addr {
    pub octets: [u8; 4],
}

/// An IPv6 address, as eight 16-bit segments.
#[derive(Clone, Copy, Debug)]
pub struct Ipv6Addr {
    pub segments: [u16; 8],
}

/// An IP address of either family.
#[derive(Clone, Copy, Debug)]
pub enum IpAddr {
    V4(Ipv4Addr),
    V6(Ipv6Addr),
}

/// An IPv4 socket address.
#[derive(Clone, Copy, Debug)]
pub struct SocketAddrV4 {
    pub ip: Ipv4Addr,
    pub port: u16,
}

/// An IPv6 socket address.
#[derive(Clone, Copy, Debug)]
pub struct SocketAddrV6 {
    pub ip: Ipv6Addr,
    pub port: u16,
    pub flowinfo: u32,
    pub scope_id: u32,
}

/// A socket address of either family.
#[derive(Clone, Copy, Debug)]
pub enum SocketAddr {
    V4(SocketAddrV4),
    V6(SocketAddrV6),
}

impl Ipv4Addr {
    /// The address `a.b.c.d`.
    pub fn new(a: u8, b: u8, c: u8, d: u8) -> (r: Ipv4Addr)
        ensures
            r.octets@ == seq![a, b, c, d],
    {
        let r = Ipv4Addr { octets: [a, b, c, d] };
        assert(r.octets@ =~= seq![a, b, c, d]);
        r
    }

    /// Multicast addresses are those of `224.0.0.0/4`.
    pub open spec fn spec_is_multicast(self) -> bool {
        224 <= self.octets@[0] <= 239
    }

    /// Whether this is a multicast address.
    pub fn is_multicast(&self) -> (r: bool)
        ensures
            r == self.spec_is_multicast(),
    {
        self.octets[0] >= 224 && self.octets[0] <= 239
    }
}

impl PartialEq for Ipv4Addr {
    fn eq(&self, other: &Self) -> (r: bool) {
        let r = self.octets[0] == other.octets[0] && self.octets[1] == other.octets[1]
            && self.octets[2] == other.octets[2] && self.octets[3] == other.octets[3];
        proof {
            if r {
                assert(self.octets@ =~= other.octets@);
            }
        }
        r
    }
}

impl vstd::std_specs::cmp::PartialEqSpecImpl for Ipv4Addr {
    open spec fn obeys_eq_spec() -> bool {
        true
    }

    open spec fn eq_spec(&self, other: &Ipv4Addr) -> bool {
        self.octets@ == other.octets@
    }
}

impl PartialEq for SocketAddrV4 {
    fn eq(&self, other: &Self) -> (r: bool) {
        self.ip == other.ip && self.port == other.port
    }
}

impl vstd::std_specs::cmp::PartialEqSpecImpl for SocketAddrV4 {
    open spec fn obeys_eq_spec() -> bool {
        true
    }

    open spec fn eq_spec(&self, other: &SocketAddrV4) -> bool {
        self.ip.octets@ == other.ip.octets@ && self.port == other.port
    }
}

impl Ipv6Addr {
    /// Multicast addresses are those of `ff00::/8`.
    pub open spec fn spec_is_multicast(self) -> bool {
        self.segments@[0] >= 0xff00
    }

    /// Whether this is a multicast address.
    pub fn is_multicast(&self) -> (r: bool)
        ensures
            r == self.spec_is_multicast(),
    {
        self.segments[0] >= 0xff00
    }
}

impl IpAddr {
    pub open spec fn spec_is_multicast(self) -> bool {
        match self {
            IpAddr::V4(a) => a.spec_is_multicast(),
            IpAddr::V6(a) => a.spec_is_multicast(),
        }
    }

    /// Whether this is a multicast address of its family.
    pub fn is_multicast(&self) -> (r: bool)
        ensures
            r == self.spec_is_multicast(),
    {
        match self {
            IpAddr::V4(a) => a.is_multicast(),
            IpAddr::V6(a) => a.is_multicast(),
        }
    }
}

impl SocketAddr {
    /// The IP part of the address.
    pub open spec fn spec_ip(self) -> IpAddr {
        match self {
            SocketAddr::V4(a) => IpAddr::V4(a.ip),
            SocketAddr::V6(a) => IpAddr::V6(a.ip),
        }
    }

    /// The port part of the address.
    pub open spec fn spec_port(self) -> u16 {
        match self {
            SocketAddr::V4(a) => a.port,
            SocketAddr::V6(a) => a.port,
        }
    }

    /// A socket address made of an IP address and a port; an IPv6 one has no
    /// flow information and no scope.
    pub fn new(ip: IpAddr, port: u16) -> (r: SocketAddr)
        ensures
            r.spec_ip() == ip,
            r.spec_port() == port,
            r matches SocketAddr::V6(a) ==> a.flowinfo == 0 && a.scope_id == 0,
    {
        match ip {
            IpAddr::V4(a) => SocketAddr::V4(SocketAddrV4 { ip: a, port }),
            IpAddr::V6(a) => SocketAddr::V6(SocketAddrV6 { ip: a, port, flowinfo: 0, scope_id: 0 }),
        }
    }

    /// The IP part of the address.
    pub fn ip(&self) -> (r: IpAddr)
        ensures
            r == self.spec_ip(),
    {
        match self {
            SocketAddr::V4(a) => IpAddr::V4(a.ip),
            SocketAddr::V6(a) => IpAddr::V6(a.ip),
        }
    }

    /// The port part of the address.
    pub fn port(&self) -> (r: u16)
        ensures
            r == self.spec_port(),
    {
        match self {
            SocketAddr::V4(a) => a.port,
            SocketAddr::V6(a) => a.port,
        }
    }
}

// ---------------------------------------------------------------------------
// Rendering.

/// `a.b.c.d`, each octet in decimal.
pub open spec fn ipv4_text(o: Seq<u8>) -> Seq<char> {
    decimal(o[0] as nat) + seq!['.'] + decimal(o[1] as nat) + seq!['.'] + decimal(o[2] as nat)
        + seq!['.'] + decimal(o[3] as nat)
}

/// The lowercase hexadecimal digit for a value below sixteen.
pub open spec fn hex_digit_char(d: nat) -> char {
    if d < 10 {
        crate::text::digit_char(d)
    } else if d == 10 { 'a' }
    else if d == 11 { 'b' }
    else if d == 12 { 'c' }
    else if d == 13 { 'd' }
    else if d == 14 { 'e' }
    else { 'f' }
}

/// Lowercase hexadecimal, without leading zeros.
pub open spec fn hex(n: nat) -> Seq<char>
    decreases n,
{
    if n < 16 {
        seq![hex_digit_char(n)]
    } else {
        hex(n / 16).push(hex_digit_char(n % 16))
    }
}

/// Segments in hexadecimal, separated by colons.
pub open spec fn hex_segments(s: Seq<u16>) -> Seq<char>
    decreases s.len(),
{
    if s.len() == 0 {
        Seq::empty()
    } else if s.len() == 1 {
        hex(s[0] as nat)
    } else {
        hex_segments(s.drop_last()) + seq![':'] + hex(s.last() as nat)
    }
}

/// The longest run of zero segments among the first `n` (the earliest of the
/// longest), and the run of zero segments that ends at `n`; each as a start
/// and a length.
pub open spec fn zero_runs(s: Seq<u16>, n: nat) -> ((nat, nat), (nat, nat))
    decreases n,
{
    if n == 0 {
        ((0, 0), (0, 0))
    } else {
        let (longest, current) = zero_runs(s, (n - 1) as nat);
        if s[n - 1] == 0 {
            let cur: (nat, nat) = if current.1 == 0 { ((n - 1) as nat, 1) } else { (current.0, current.1 + 1) };
            (if cur.1 > longest.1 { cur } else { longest }, cur)
        } else {
            (longest, (0, 0))
        }
    }
}

/// Whether the address is an IPv4 address mapped into IPv6, `::ffff:a.b.c.d`.
pub open spec fn is_ipv4_mapped(s: Seq<u16>) -> bool {
    s[0] == 0 && s[1] == 0 && s[2] == 0 && s[3] == 0 && s[4] == 0 && s[5] == 0xffff
}

/// The octets of the IPv4 address in the last two segments.
pub open spec fn mapped_octets(s: Seq<u16>) -> Seq<u8> {
    seq![(s[6] / 256) as u8, (s[6] % 256) as u8, (s[7] / 256) as u8, (s[7] % 256) as u8]
}

/// The text of an IPv6 address: an IPv4-mapped one as `::ffff:a.b.c.d`, else
/// its segments in hexadecimal with the longest run of two or more zero
/// segments (the first such) written as `::`.
pub open spec fn ipv6_text(s: Seq<u16>) -> Seq<char> {
    if is_ipv4_mapped(s) {
        seq![':', ':', 'f', 'f', 'f', 'f', ':'] + ipv4_text(mapped_octets(s))
    } else {
        let longest = zero_runs(s, 8).0;
        if longest.1 > 1 {
            hex_segments(s.subrange(0, longest.0 as int)) + seq![':', ':']
                + hex_segments(s.subrange((longest.0 + longest.1) as int, 8))
        } else {
            hex_segments(s)
        }
    }
}

/// The text of an IP address.
pub open spec fn ip_text(ip: IpAddr) -> Seq<char> {
    match ip {
        IpAddr::V4(a) => ipv4_text(a.octets@),
        IpAddr::V6(a) => ipv6_text(a.segments@),
    }
}

/// The text of a socket address: `ip:port` for IPv4, `[ip]:port` or
/// `[ip%scope]:port` for IPv6.
pub open spec fn socket_addr_text(a: SocketAddr) -> Seq<char> {
    match a {
        SocketAddr::V4(a) => ipv4_text(a.ip.octets@) + seq![':'] + decimal(a.port as nat),
        SocketAddr::V6(a) => seq!['['] + ipv6_text(a.ip.segments@)
            + (if a.scope_id != 0 { seq!['%'] + decimal(a.scope_id as nat) } else { Seq::empty() })
            + seq![']', ':'] + decimal(a.port as nat),
    }
}

/// Appends the text of an IPv4 address.
pub fn push_ipv4(s: &mut String, a: &Ipv4Addr)
    ensures
        final(s)@ == old(s)@ + ipv4_text(a.octets@),
{
    push_decimal(s, a.octets[0] as u64);
    push_char(s, '.');
    push_decimal(s, a.octets[1] as u64);
    push_char(s, '.');
    push_decimal(s, a.octets[2] as u64);
    push_char(s, '.');
    push_decimal(s, a.octets[3] as u64);
    assert(final(s)@ =~= old(s)@ + ipv4_text(a.octets@));
}

fn hex_digit(d: u16) -> (c: char)
    requires
        d < 16,
    ensures
        c == hex_digit_char(d as nat),
{
    if d < 10 {
        if d == 0 { '0' } else if d == 1 { '1' } else if d == 2 { '2' } else if d == 3 { '3' }
        else if d == 4 { '4' } else if d == 5 { '5' } else if d == 6 { '6' } else if d == 7 { '7' }
        else if d == 8 { '8' } else { '9' }
    } else if d == 10 { 'a' }
    else if d == 11 { 'b' }
    else if d == 12 { 'c' }
    else if d == 13 { 'd' }
    else if d == 14 { 'e' }
    else { 'f' }
}

fn push_hex(s: &mut String, n: u16)
    ensures
        final(s)@ == old(s)@ + hex(n as nat),
    decreases n,
{
    if n < 16 {
        push_char(s, hex_digit(n));
        assert(hex(n as nat) == seq![hex_digit_char(n as nat)]);
    } else {
        push_hex(s, n / 16);
        push_char(s, hex_digit(n % 16));
    }
}

/// Appends segments `lo..hi` in hexadecimal, separated by colons.
fn push_hex_segments(s: &mut String, seg: &[u16; 8], lo: usize, hi: usize)
    requires
        lo <= hi <= 8,
    ensures
        final(s)@ == old(s)@ + hex_segments(seg@.subrange(lo as int, hi as int)),
{
    let mut i: usize = lo;
    assert(seg@.subrange(lo as int, lo as int) =~= Seq::<u16>::empty());
    while i < hi
        invariant
            lo <= i <= hi <= 8,
            s@ == old(s)@ + hex_segments(seg@.subrange(lo as int, i as int)),
        decreases hi - i,
    {
        let ghost sub = seg@.subrange(lo as int, i as int + 1);
        assert(sub.drop_last() =~= seg@.subrange(lo as int, i as int));
        if i > lo {
            push_char(s, ':');
        }
        push_hex(s, seg[i]);
        i = i + 1;
    }
}

/// Appends the text of an IPv6 address.
pub fn push_ipv6(s: &mut String, a: &Ipv6Addr)
    ensures
        final(s)@ == old(s)@ + ipv6_text(a.segments@),
{
    let seg = &a.segments;
    if seg[0] == 0 && seg[1] == 0 && seg[2] == 0 && seg[3] == 0 && seg[4] == 0 && seg[5] == 0xffff {
        push_char(s, ':');
        push_char(s, ':');
        push_char(s, 'f');
        push_char(s, 'f');
        push_char(s, 'f');
        push_char(s, 'f');
        push_char(s, ':');
        let v4 = Ipv4Addr::new((seg[6] / 256) as u8, (seg[6] % 256) as u8, (seg[7] / 256) as u8, (seg[7] % 256) as u8);
        assert(v4.octets@ =~= mapped_octets(seg@));
        push_ipv4(s, &v4);
        assert(final(s)@ =~= old(s)@ + ipv6_text(a.segments@));
        return;
    }
    let mut long_start: usize = 0;
    let mut long_len: usize = 0;
    let mut cur_start: usize = 0;
    let mut cur_len: usize = 0;
    let mut i: usize = 0;
    while i < 8
        invariant
            i <= 8,
            zero_runs(seg@, i as nat) == ((long_start as nat, long_len as nat), (cur_start as nat, cur_len as nat)),
            long_len <= i,
            cur_len <= i,
        decreases 8 - i,
    {
        if seg[i] == 0 {
            if cur_len == 0 {
                cur_start = i;
            }
            cur_len = cur_len + 1;
            if cur_len > long_len {
                long_start = cur_start;
                long_len = cur_len;
            }
        } else {
            cur_start = 0;
            cur_len = 0;
        }
        i = i + 1;
    }
    proof {
        lemma_zero_runs_bounds(seg@, 8);
    }
    if long_len > 1 {
        push_hex_segments(s, seg, 0, long_start);
        push_char(s, ':');
        push_char(s, ':');
        push_hex_segments(s, seg, long_start + long_len, 8);
    } else {
        push_hex_segments(s, seg, 0, 8);
        assert(seg@.subrange(0, 8) =~= seg@);
    }
    assert(final(s)@ =~= old(s)@ + ipv6_text(a.segments@));
}

proof fn lemma_zero_runs_bounds(s: Seq<u16>, n: nat)
    ensures
        zero_runs(s, n).0.0 + zero_runs(s, n).0.1 <= n,
        zero_runs(s, n).1.0 + zero_runs(s, n).1.1 <= n,
    decreases n,
{
    if n > 0 {
        lemma_zero_runs_bounds(s, (n - 1) as nat);
    }
}

/// Appends the text of an IP address.
pub fn push_ip(s: &mut String, ip: &IpAddr)
    ensures
        final(s)@ == old(s)@ + ip_text(*ip),
{
    match ip {
        IpAddr::V4(a) => push_ipv4(s, a),
        IpAddr::V6(a) => push_ipv6(s, a),
    }
}

/// Appends the text of a socket address.
pub fn push_socket_addr(s: &mut String, a: &SocketAddr)
    ensures
        final(s)@ == old(s)@ + socket_addr_text(*a),
{
    match a {
        SocketAddr::V4(a) => {
            push_ipv4(s, &a.ip);
            push_char(s, ':');
            push_decimal(s, a.port as u64);
        },
        SocketAddr::V6(a) => {
            push_char(s, '[');
            push_ipv6(s, &a.ip);
            if a.scope_id != 0 {
                push_char(s, '%');
                push_decimal(s, a.scope_id as u64);
            }
            push_char(s, ']');
            push_char(s, ':');
            push_decimal(s, a.port as u64);
        },
    }
    assert(final(s)@ =~= old(s)@ + socket_addr_text(*a));
}

/// Describes a socket address as `ip:port`.
pub fn describe_socket_addr(socket_addr: &SocketAddr) -> (r: String)
    ensures
        r@ == ip_text(socket_addr.spec_ip()) + seq![':'] + decimal(socket_addr.spec_port() as nat),
{
    let mut s = String::new();
    let ip = socket_addr.ip();
    push_ip(&mut s, &ip);
    push_char(&mut s, ':');
    push_decimal(&mut s, socket_addr.port() as u64);
    s
}

/// Describes the source address of a datagram: `ip:port` when it is an
/// internet socket address, `(Unknown source)` otherwise.
pub fn describe_sock_addr(sock_addr: Option<SocketAddr>) -> (r: String)
    ensures
        sock_addr matches Some(a) ==> r@ == ip_text(a.spec_ip()) + seq![':'] + decimal(a.spec_port() as nat),
        sock_addr is None ==> r@ == "(Unknown source)"@,
{
    match sock_addr {
        Some(a) => describe_socket_addr(&a),
        None => String::from_str("(Unknown source)"),
    }
}

/// The group that a socket joins to listen for multicast on an address: an
/// IPv4 group on all interfaces, or an IPv6 group on the default interface,
/// for IPv6 traffic only.
#[derive(Clone, Copy, Debug)]
pub enum Membership {
    V4(Ipv4Addr),
    V6(Ipv6Addr),
}

/// The message of an address that is no multicast address.
pub open spec fn not_multicast_message(ip: IpAddr) -> Seq<char> {
    "Address "@ + ip_text(ip) + " is not a multicast address"@
}

/// The group to join for listening on `addr`; an address that is no multicast
/// address is a configuration error of the multicast host.
pub fn multicast_membership(addr: &SocketAddr) -> (r: Result<Membership, crate::errors::shop_error::CoffeeShopError>)
    ensures
        addr.spec_ip().spec_is_multicast() ==> (r matches Ok(m) && match (m, addr.spec_ip()) {
            (Membership::V4(g), IpAddr::V4(a)) => g == a,
            (Membership::V6(g), IpAddr::V6(a)) => g == a,
            _ => false,
        }),
        !addr.spec_ip().spec_is_multicast() ==> (r matches Err(
            crate::errors::shop_error::CoffeeShopError::InvalidConfiguration { field, message },
        ) && field@ == "multicast_host"@ && message@ == not_multicast_message(addr.spec_ip())),
{
    let ip = addr.ip();
    if !ip.is_multicast() {
        let mut message = String::from_str("Address ");
        push_ip(&mut message, &ip);
        push_str(&mut message, " is not a multicast address");
        return Err(
            crate::errors::shop_error::CoffeeShopError::InvalidConfiguration {
                field: String::from_str("multicast_host"),
                message,
            },
        );
    }
    match ip {
        IpAddr::V4(a) => Ok(Membership::V4(a)),
        IpAddr::V6(a) => Ok(Membership::V6(a)),
    }
}

/// The address of a socket bound to all IPv4 interfaces on `port`.
pub fn all_v4_interfaces(port: u16) -> (r: SocketAddr)
    ensures
        r matches SocketAddr::V4(a) && a.ip.octets@ == seq![0u8, 0u8, 0u8, 0u8] && a.port == port,
{
    SocketAddr::V4(SocketAddrV4 { ip: Ipv4Addr::new(0, 0, 0, 0), port })
}

} // verus!

verus! {

/// An IPv4 address is multicast exactly when its four leading bits are
/// `1110`, that is when it lies in `224.0.0.0/4`: every first octet from 224
/// through 239 is accepted, and no other.
pub proof fn law_ipv4_multicast_is_prefix_1110(a: Ipv4Addr)
    ensures
        a.spec_is_multicast() <==> a.octets@[0] / 16 == 14,
{
}

/// An IPv6 address is multicast exactly when its first eight bits are all
/// set, that is when it lies in `ff00::/8`.
pub proof fn law_ipv6_multicast_is_prefix_ff(a: Ipv6Addr)
    ensures
        a.spec_is_multicast() <==> a.segments@[0] / 256 == 255,
{
}

/// An address of either family is multicast exactly when it is in its
/// family's multicast block.
pub proof fn law_ip_multicast_by_family(ip: IpAddr)
    ensures
        ip matches IpAddr::V4(a) ==> (ip.spec_is_multicast() <==> a.octets@[0] / 16 == 14),
        ip matches IpAddr::V6(a) ==> (ip.spec_is_multicast() <==> a.segments@[0] / 256 == 255),
{
}

} // verus!
