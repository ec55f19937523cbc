use coffeeshop::cli::Config;
use coffeeshop::errors::CoffeeShopError;
use coffeeshop::net::{IpAddr, Ipv4Addr, SocketAddr, SocketAddrV4};

#[test]
fn default() {
    let actual = Config::default();
    let expected = Config { ..Default::default() };
    assert_eq!(actual, expected);
    assert_eq!(actual, Config::new());
}

#[test]
fn default_values() {
    let c = Config::new();
    assert_eq!(c.host.octets, [0, 0, 0, 0]);
    assert_eq!(c.port, 7007);
    assert_eq!(c.multicast_host.octets, [224, 0, 0, 249]);
    assert_eq!(c.multicast_port, 65355);
    assert_eq!(c.baristas, 1);
    assert_eq!(c.max_tickets, 1024);
    assert_eq!(c.dynamodb_table, None);
    assert_eq!(c.dynamodb_partition_key, "identifier");
    assert_eq!(c.sqs_queue, None);
}

#[test]
fn with_good_multicast_addr() {
    let actual = Config::new()
        .with_multicast_addr(SocketAddrV4 { ip: Ipv4Addr::new(224, 0, 0, 1), port: 1234 })
        .expect("a multicast address is accepted");
    let expected = Config { multicast_host: Ipv4Addr::new(224, 0, 0, 1), multicast_port: 1234, ..Default::default() };
    assert_eq!(actual, expected);
}

#[test]
fn with_bad_multicast_addr() {
    let actual = Config::new().with_multicast_addr(SocketAddrV4 { ip: Ipv4Addr::new(192, 168, 0, 1), port: 4321 });
    match actual {
        Err(CoffeeShopError::InvalidMulticastAddress(IpAddr::V4(ip))) => assert_eq!(ip.octets, [192, 168, 0, 1]),
        other => panic!("unexpected result: {other:?}"),
    }
}

#[test]
fn with_bad_baristas() {
    match Config::new().with_baristas(0) {
        Err(CoffeeShopError::InvalidConfiguration { field, message }) => {
            assert_eq!(field, "baristas");
            assert_eq!(message, "must be positive number, found 0.");
        },
        other => panic!("unexpected result: {other:?}"),
    }
}

#[test]
fn with_good_baristas() {
    let actual = Config::new().with_baristas(65535).expect("a positive count is accepted");
    assert_eq!(actual, Config { baristas: 65535, ..Default::default() });
}

#[test]
fn with_good_max_tickets() {
    let actual = Config::new().with_max_tickets(2).expect("a positive count is accepted");
    assert_eq!(actual, Config { max_tickets: 2, ..Default::default() });
}

#[test]
fn with_bad_max_tickets() {
    match Config::new().with_max_tickets(0) {
        Err(CoffeeShopError::InvalidConfiguration { field, message }) => {
            assert_eq!(field, "max_tickets");
            assert_eq!(message, "must be positive number, found 0.");
        },
        other => panic!("unexpected result: {other:?}"),
    }
}

#[test]
fn multicast_edges_of_the_range() {
    let low = Config::new().with_multicast_addr(SocketAddrV4 { ip: Ipv4Addr::new(224, 0, 0, 0), port: 1 });
    assert!(low.is_ok());
    let high = Config::new().with_multicast_addr(SocketAddrV4 { ip: Ipv4Addr::new(239, 255, 255, 255), port: 1 });
    assert!(high.is_ok());
    let above = Config::new().with_multicast_addr(SocketAddrV4 { ip: Ipv4Addr::new(240, 0, 0, 0), port: 1 });
    assert!(above.is_err());
    let below = Config::new().with_multicast_addr(SocketAddrV4 { ip: Ipv4Addr::new(223, 255, 255, 255), port: 1 });
    assert!(below.is_err());
}

#[test]
fn builders_set_their_fields() {
    let c = Config::new()
        .with_host_addr(SocketAddrV4 { ip: Ipv4Addr::new(127, 0, 0, 1), port: 8080 })
        .with_dynamodb_table("results")
        .with_dynamodb_partition_key("pk")
        .with_sqs_queue("https://queue.example/123/q".to_string());
    assert_eq!(c.host.octets, [127, 0, 0, 1]);
    assert_eq!(c.port, 8080);
    assert_eq!(c.dynamodb_table.as_deref(), Some("results"));
    assert_eq!(c.dynamodb_partition_key, "pk");
    assert_eq!(c.sqs_queue.as_deref(), Some("https://queue.example/123/q"));
    match c.host_addr() {
        SocketAddr::V4(a) => {
            assert_eq!(a.ip.octets, [127, 0, 0, 1]);
            assert_eq!(a.port, 8080);
        },
        other => panic!("unexpected address: {other:?}"),
    }
    match c.multicast_addr() {
        SocketAddr::V4(a) => {
            assert_eq!(a.ip.octets, [224, 0, 0, 249]);
            assert_eq!(a.port, 65355);
        },
        other => panic!("unexpected address: {other:?}"),
    }
    assert_eq!(c.duplicate(), c);
}
