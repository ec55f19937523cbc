//! The shop's configuration, with its defaults and the checks of its builder.
use vstd::prelude::*;
use crate::errors::shop_error::CoffeeShopError;
use crate::net::{IpAddr, Ipv4Addr, SocketAddr, SocketAddrV4};
use crate::text::{decimal, push_decimal, push_str};

verus! {

/// The default port for the waiter.
pub const DEFAULT_PORT: u16 = 7007;

/// The default port for the announcer's multicast group.
pub const MULTICAST_PORT: u16 = 65355;

/// The default number of baristas.
pub const DEFAULT_BARISTAS: u16 = 1;

/// The maximum number of outstanding tickets before the waiter starts
/// rejecting new requests.
pub const MAX_TICKETS: usize = 1024;

/// The configuration of a shop.
#[derive(Debug)]
pub struct Config {
    /// The host IP of the server. Defaults to all interfaces.
    pub host: Ipv4Addr,
    /// The port to listen on.
    pub port: u16,
    /// The address to listen for multicast on.
    pub multicast_host: Ipv4Addr,
    /// The port to listen for multicast on.
    pub multicast_port: u16,
    /// The number of baristas to start.
    pub baristas: u16,
    /// The maximum number of outstanding tickets.
    pub max_tickets: usize,
    /// The table to store results in.
    pub dynamodb_table: Option<String>,
    /// The partition key of the table.
    pub dynamodb_partition_key: String,
    /// The queue URL to put tickets on.
    pub sqs_queue: Option<String>,
}

/// The content of a [`Config`].
pub struct ConfigView {
    pub host: Seq<u8>,
    pub port: u16,
    pub multicast_host: Seq<u8>,
    pub multicast_port: u16,
    pub baristas: u16,
    pub max_tickets: usize,
    pub dynamodb_table: Option<Seq<char>>,
    pub dynamodb_partition_key: Seq<char>,
    pub sqs_queue: Option<Seq<char>>,
}

pub open spec fn opt_view(o: Option<String>) -> Option<Seq<char>> {
    match o {
        Some(s) => Some(s@),
        None => None,
    }
}

impl View for Config {
    type V = ConfigView;

    open spec fn view(&self) -> ConfigView {
        ConfigView {
            host: self.host.octets@,
            port: self.port,
            multicast_host: self.multicast_host.octets@,
            multicast_port: self.multicast_port,
            baristas: self.baristas,
            max_tickets: self.max_tickets,
            dynamodb_table: opt_view(self.dynamodb_table),
            dynamodb_partition_key: self.dynamodb_partition_key@,
            sqs_queue: opt_view(self.sqs_queue),
        }
    }
}

/// The default configuration: the waiter on all interfaces at port 7007, the
/// multicast group 224.0.0.249 at port 65355, one barista, 1024 tickets, no
/// table or queue named and the partition key `identifier`.
pub open spec fn default_config() -> ConfigView {
    ConfigView {
        host: seq![0u8, 0u8, 0u8, 0u8],
        port: 7007,
        multicast_host: seq![224u8, 0u8, 0u8, 249u8],
        multicast_port: 65355,
        baristas: 1,
        max_tickets: 1024,
        dynamodb_table: None,
        dynamodb_partition_key: "identifier"@,
        sqs_queue: None,
    }
}

/// The message of a refused count: `must be positive number, found {count}.`
pub open spec fn positive_count_message(count: nat) -> Seq<char> {
    "must be positive number, found "@ + decimal(count) + "."@
}

fn positive_count_error(field: &str, count: u64) -> (r: CoffeeShopError)
    ensures
        r matches CoffeeShopError::InvalidConfiguration { field: f, message } && f@ == field@ && message@
            == positive_count_message(count as nat),
{
    let mut m = String::new();
    push_str(&mut m, "must be positive number, found ");
    push_decimal(&mut m, count);
    push_str(&mut m, ".");
    CoffeeShopError::InvalidConfiguration { field: String::from_str(field), message: m }
}

fn clone_opt(o: &Option<String>) -> (r: Option<String>)
    ensures
        opt_view(r) == opt_view(*o),
{
    match o {
        Some(s) => Some(s.clone()),
        None => None,
    }
}

impl Default for Config {
    /// The default configuration (see [`default_config`]).
    fn default() -> (r: Config)
        ensures
            r@ == default_config(),
    {
        let r = Config {
            host: Ipv4Addr::new(0, 0, 0, 0),
            port: DEFAULT_PORT,
            multicast_host: Ipv4Addr::new(224, 0, 0, 249),
            multicast_port: MULTICAST_PORT,
            baristas: DEFAULT_BARISTAS,
            max_tickets: MAX_TICKETS,
            dynamodb_table: None,
            dynamodb_partition_key: String::from_str("identifier"),
            sqs_queue: None,
        };
        assert(r@.host =~= default_config().host);
        assert(r@.multicast_host =~= default_config().multicast_host);
        r
    }
}

impl Config {
    /// A configuration with the default settings.
    pub fn new() -> (r: Config)
        ensures
            r@ == default_config(),
    {
        Config::default()
    }

    /// Keeps the configuration when its multicast address is a multicast
    /// address; else refuses it with that address.
    fn validate_multicast_addr(self) -> (r: Result<Config, CoffeeShopError>)
        ensures
            self.multicast_host.spec_is_multicast() ==> (r matches Ok(c) && c@ == self@),
            !self.multicast_host.spec_is_multicast() ==> (r matches Err(CoffeeShopError::InvalidMulticastAddress(ip))
                && ip == IpAddr::V4(self.multicast_host)),
    {
        let ip_addr = IpAddr::V4(self.multicast_host);
        if ip_addr.is_multicast() {
            Ok(self)
        } else {
            Err(CoffeeShopError::InvalidMulticastAddress(ip_addr))
        }
    }

    /// Changes the waiter's address.
    pub fn with_host_addr(self, addr: SocketAddrV4) -> (r: Config)
        ensures
            r@ == (ConfigView { host: addr.ip.octets@, port: addr.port, ..self@ }),
    {
        let mut c = self;
        c.port = addr.port;
        c.host = addr.ip;
        c
    }

    /// Changes the multicast address; refused unless it is a multicast
    /// address.
    pub fn with_multicast_addr(self, addr: SocketAddrV4) -> (r: Result<Config, CoffeeShopError>)
        ensures
            addr.ip.spec_is_multicast() ==> (r matches Ok(c) && c@ == (ConfigView {
                multicast_host: addr.ip.octets@,
                multicast_port: addr.port,
                ..self@
            })),
            !addr.ip.spec_is_multicast() ==> (r matches Err(CoffeeShopError::InvalidMulticastAddress(ip)) && ip
                == IpAddr::V4(addr.ip)),
    {
        let mut c = self;
        c.multicast_port = addr.port;
        c.multicast_host = addr.ip;
        c.validate_multicast_addr()
    }

    /// Changes the number of baristas; refused when it is zero.
    pub fn with_baristas(self, count: u16) -> (r: Result<Config, CoffeeShopError>)
        ensures
            count > 0 ==> (r matches Ok(c) && c@ == (ConfigView { baristas: count, ..self@ })),
            count == 0 ==> (r matches Err(CoffeeShopError::InvalidConfiguration { field, message }) && field@
                == "baristas"@ && message@ == positive_count_message(0)),
    {
        if count == 0 {
            Err(positive_count_error("baristas", count as u64))
        } else {
            let mut c = self;
            c.baristas = if count > 1 { count } else { 1 };
            Ok(c)
        }
    }

    /// Changes the maximum number of tickets; refused when it is zero.
    pub fn with_max_tickets(self, count: usize) -> (r: Result<Config, CoffeeShopError>)
        ensures
            count > 0 ==> (r matches Ok(c) && c@ == (ConfigView { max_tickets: count, ..self@ })),
            count == 0 ==> (r matches Err(CoffeeShopError::InvalidConfiguration { field, message }) && field@
                == "max_tickets"@ && message@ == positive_count_message(0)),
    {
        if count == 0 {
            Err(positive_count_error("max_tickets", count as u64))
        } else {
            let mut c = self;
            c.max_tickets = count;
            Ok(c)
        }
    }

    /// Names the table to store results in.
    pub fn with_dynamodb_table(self, table: &str) -> (r: Config)
        ensures
            r@ == (ConfigView { dynamodb_table: Some(table@), ..self@ }),
    {
        let mut c = self;
        c.dynamodb_table = Some(String::from_str(table));
        c
    }

    /// Names the partition key of the table.
    pub fn with_dynamodb_partition_key(self, key: &str) -> (r: Config)
        ensures
            r@ == (ConfigView { dynamodb_partition_key: key@, ..self@ }),
    {
        let mut c = self;
        c.dynamodb_partition_key = String::from_str(key);
        c
    }

    /// Names the queue to put tickets on.
    pub fn with_sqs_queue(self, queue: String) -> (r: Config)
        ensures
            r@ == (ConfigView { sqs_queue: Some(queue@), ..self@ }),
    {
        let mut c = self;
        c.sqs_queue = Some(queue);
        c
    }

    /// The multicast group's socket address.
    pub fn multicast_addr(&self) -> (r: SocketAddr)
        ensures
            r == SocketAddr::V4(SocketAddrV4 { ip: self.multicast_host, port: self.multicast_port }),
    {
        SocketAddr::V4(SocketAddrV4 { ip: self.multicast_host, port: self.multicast_port })
    }

    /// The waiter's socket address.
    pub fn host_addr(&self) -> (r: SocketAddr)
        ensures
            r == SocketAddr::V4(SocketAddrV4 { ip: self.host, port: self.port }),
    {
        SocketAddr::V4(SocketAddrV4 { ip: self.host, port: self.port })
    }

    /// A copy of the configuration.
    pub fn duplicate(&self) -> (r: Config)
        ensures
            r@ == self@,
    {
        Config {
            host: self.host,
            port: self.port,
            multicast_host: self.multicast_host,
            multicast_port: self.multicast_port,
            baristas: self.baristas,
            max_tickets: self.max_tickets,
            dynamodb_table: clone_opt(&self.dynamodb_table),
            dynamodb_partition_key: self.dynamodb_partition_key.clone(),
            sqs_queue: clone_opt(&self.sqs_queue),
        }
    }
}

fn opt_eq(a: &Option<String>, b: &Option<String>) -> (r: bool)
    ensures
        r == (opt_view(*a) == opt_view(*b)),
{
    match (a, b) {
        (Some(x), Some(y)) => *x == *y,
        (None, None) => true,
        _ => false,
    }
}

impl PartialEq for Config {
    fn eq(&self, other: &Self) -> (r: bool) {
        let r = self.host == other.host && self.port == other.port && self.multicast_host == other.multicast_host
            && self.multicast_port == other.multicast_port && self.baristas == other.baristas
            && self.max_tickets == other.max_tickets && opt_eq(&self.dynamodb_table, &other.dynamodb_table)
            && self.dynamodb_partition_key == other.dynamodb_partition_key && opt_eq(&self.sqs_queue, &other.sqs_queue);
        r
    }
}

impl vstd::std_specs::cmp::PartialEqSpecImpl for Config {
    open spec fn obeys_eq_spec() -> bool {
        true
    }

    open spec fn eq_spec(&self, other: &Config) -> bool {
        self@ == other@
    }
}

} // verus!
