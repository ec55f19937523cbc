use coffeeshop::buffer::{buffer_file_name, new_buffer_file_name, BufferState};
use coffeeshop::errors::CoffeeShopError;
use coffeeshop::json::{object_insert, Json};
use coffeeshop::message::{MulticastMessage, MulticastMessageKind, MulticastMessageStatus};
use coffeeshop::net::{
    all_v4_interfaces, multicast_membership, Membership, describe_sock_addr, describe_socket_addr, IpAddr, Ipv4Addr, Ipv6Addr, SocketAddr, SocketAddrV4, SocketAddrV6,
};
use coffeeshop::text::{decimal_string, str_eq};
use coffeeshop::time::Duration;

fn v6(segments: [u16; 8], port: u16) -> SocketAddr {
    SocketAddr::new(IpAddr::V6(Ipv6Addr { segments }), port)
}

#[test]
fn socket_addresses_are_described() {
    let a = SocketAddr::V4(SocketAddrV4 { ip: Ipv4Addr::new(10, 0, 0, 7), port: 65355 });
    assert_eq!(describe_socket_addr(&a), "10.0.0.7:65355");
    assert_eq!(describe_socket_addr(&v6([0x2001, 0xdb8, 0, 0, 0, 0, 0, 1], 80)), "2001:db8::1:80");
    assert_eq!(describe_socket_addr(&v6([0; 8], 1)), ":::1");
    assert_eq!(describe_socket_addr(&v6([0, 0, 0, 0, 0, 0, 0, 1], 2)), "::1:2");
    assert_eq!(describe_socket_addr(&v6([0, 0, 0, 0, 0, 0xffff, 0xc0a8, 0x0001], 3)), "::ffff:192.168.0.1:3");
    assert_eq!(describe_socket_addr(&v6([1, 0, 0, 2, 0, 0, 0, 3], 4)), "1:0:0:2::3:4");
    assert_eq!(describe_socket_addr(&v6([1, 0, 1, 0, 1, 0, 1, 0], 5)), "1:0:1:0:1:0:1:0:5");
    assert_eq!(describe_socket_addr(&v6([0xff02, 0, 0, 0, 0, 0, 0, 0xfb], 5353)), "ff02::fb:5353");
    assert_eq!(describe_sock_addr(Some(a)), "10.0.0.7:65355");
    assert_eq!(describe_sock_addr(None), "(Unknown source)");
}

#[test]
fn addresses_know_their_parts() {
    let a = v6([0xff02, 0, 0, 0, 0, 0, 0, 1], 9);
    assert_eq!(a.port(), 9);
    assert!(a.ip().is_multicast());
    match a {
        SocketAddr::V6(SocketAddrV6 { flowinfo, scope_id, .. }) => assert_eq!((flowinfo, scope_id), (0, 0)),
        other => panic!("unexpected address: {other:?}"),
    }
    assert!(!IpAddr::V6(Ipv6Addr { segments: [0xfe80, 0, 0, 0, 0, 0, 0, 1] }).is_multicast());
    assert!(Ipv4Addr::new(239, 1, 2, 3).is_multicast());
    assert!(!Ipv4Addr::new(127, 0, 0, 1).is_multicast());
}

#[test]
fn objects_stay_sorted_by_key() {
    let mut members = Vec::new();
    object_insert(&mut members, "b".to_string(), Json::Bool(true));
    object_insert(&mut members, "a".to_string(), Json::Null);
    object_insert(&mut members, "c".to_string(), Json::Number("3".to_string()));
    object_insert(&mut members, "b".to_string(), Json::Bool(false));
    let keys: Vec<&str> = members.iter().map(|(k, _)| k.as_str()).collect();
    assert_eq!(keys, vec!["a", "b", "c"]);
    let o = Json::Object(members);
    assert_eq!(o.to_text(), "{\"a\":null,\"b\":false,\"c\":3}");
    let mut d = String::new();
    o.push_debug(&mut d);
    assert_eq!(d, "Object {\"a\": Null, \"b\": Bool(false), \"c\": Number(3)}");
    assert!(o.equals(&o.duplicate()));
    assert!(!o.equals(&Json::empty_object()));
}

#[test]
fn strings_are_escaped() {
    let s = Json::string("a\"b\\c\nd\u{1}".to_string());
    assert_eq!(s.to_text(), "\"a\\\"b\\\\c\\nd\\u0001\"");
    let a = Json::Array(vec![Json::Str("x".to_string()), Json::Number("1".to_string())]);
    assert_eq!(a.to_text(), "[\"x\",1]");
    let mut d = String::new();
    a.push_debug(&mut d);
    assert_eq!(d, "Array [String(\"x\"), Number(1)]");
    assert_eq!(Json::empty_object().to_text(), "{}");
}

#[test]
fn durations() {
    let d = Duration::new(1, 1_500_000_000);
    assert_eq!((d.as_secs(), d.subsec_nanos()), (2, 500_000_000));
    assert_eq!(d.debug_text(), "2.5s");
    assert_eq!(Duration::from_secs(20).debug_text(), "20s");
    assert_eq!(Duration::new(0, 1_000).debug_text(), "1µs");
    assert!(Duration::from_secs(1).is_shorter_than(&d));
    assert_eq!(Duration::from_secs(3).min(d).as_secs(), 2);
    assert_eq!(Duration::from_secs(1).min(d).as_secs(), 1);
}

#[test]
fn text_helpers() {
    assert_eq!(decimal_string(0), "0");
    assert_eq!(decimal_string(18446744073709551615), "18446744073709551615");
    assert!(str_eq("abc", "abc"));
    assert!(!str_eq("abc", "abd"));
    assert!(!str_eq("abc", "ab"));
}

#[test]
fn announcement_enums() {
    assert_eq!(MulticastMessageKind::from_i32(0), Some(MulticastMessageKind::Ticket));
    assert_eq!(MulticastMessageKind::from_i32(1), None);
    assert_eq!(MulticastMessageKind::try_from(5), Err(5));
    assert_eq!(MulticastMessageKind::default().as_str_name(), "TICKET");
    assert_eq!(MulticastMessageKind::from_str_name("TICKET"), Some(MulticastMessageKind::Ticket));
    assert_eq!(MulticastMessageStatus::Rejected.as_i32(), 0);
    assert_eq!(MulticastMessageStatus::Complete.as_i32(), 1);
    assert_eq!(MulticastMessageStatus::Failure.as_i32(), 2);
    assert!(MulticastMessageStatus::is_valid(2));
    assert!(!MulticastMessageStatus::is_valid(3));
    assert_eq!(MulticastMessageStatus::try_from(1), Ok(MulticastMessageStatus::Complete));
    assert_eq!(MulticastMessageStatus::from_str_name("FAILURE"), Some(MulticastMessageStatus::Failure));
    assert_eq!(MulticastMessageStatus::from_str_name("failure"), None);
    assert_eq!(MulticastMessageStatus::default(), MulticastMessageStatus::Rejected);
    assert!(MulticastMessageStatus::Complete.is_finished());
    assert!(MulticastMessageStatus::Rejected.is_finished());
    assert!(!MulticastMessageStatus::Failure.is_finished());
}

#[test]
fn announcement_messages() {
    let mut m = MulticastMessage::new_ticket_rejected("shop", "t");
    assert_eq!(m.kind, 0);
    assert_eq!(m.status, 0);
    assert_eq!(m.completion(), Some(false));
    m.set_status(MulticastMessageStatus::Complete);
    assert_eq!(m.status(), MulticastMessageStatus::Complete);
    assert_eq!(m.completion(), Some(true));
    m.status = 77;
    assert_eq!(m.status(), MulticastMessageStatus::Rejected);
    m.set_kind(MulticastMessageKind::Ticket);
    assert_eq!(m.kind(), MulticastMessageKind::Ticket);
}

#[test]
fn buffer_file_names() {
    assert_eq!(buffer_file_name(None, "abc"), "disk-buffer-abc.bin");
    assert_eq!(buffer_file_name(Some("serialize-gzp-"), "abc"), "serialize-gzp-abc.bin");
    let fresh = new_buffer_file_name(Some("p-"));
    assert_eq!(fresh.len(), 2 + 36 + 4);
    assert!(fresh.starts_with("p-") && fresh.ends_with(".bin"));
    assert_ne!(fresh, new_buffer_file_name(Some("p-")));
    let id: Vec<char> = fresh["p-".len()..fresh.len() - ".bin".len()].chars().collect();
    assert_eq!(id.len(), 36);
    for (i, c) in id.iter().enumerate() {
        if i == 8 || i == 13 || i == 18 || i == 23 {
            assert_eq!(*c, '-');
        } else {
            assert!(c.is_ascii_digit() || ('a'..='f').contains(c), "{c} at {i}");
        }
    }
    assert_eq!(id[14], '4');
    assert!(matches!(id[19], '8' | '9' | 'a' | 'b'));
    assert!(new_buffer_file_name(None).starts_with("disk-buffer-"));
    assert_eq!(BufferState::Write.as_str(), "write");
    assert_eq!(BufferState::Read.as_str(), "read");
    assert_eq!(BufferState::Write.finish(), BufferState::Read);
}

#[test]
fn multicast_memberships() {
    let group = SocketAddr::V4(SocketAddrV4 { ip: Ipv4Addr::new(224, 0, 0, 249), port: 65355 });
    assert!(matches!(multicast_membership(&group), Ok(Membership::V4(a)) if a.octets == [224, 0, 0, 249]));
    let v6 = v6([0xff02, 0, 0, 0, 0, 0, 0, 0xfb], 5353);
    assert!(matches!(multicast_membership(&v6), Ok(Membership::V6(_))));
    let unicast = SocketAddr::V4(SocketAddrV4 { ip: Ipv4Addr::new(10, 0, 0, 1), port: 1 });
    match multicast_membership(&unicast) {
        Err(CoffeeShopError::InvalidConfiguration { field, message }) => {
            assert_eq!(field, "multicast_host");
            assert_eq!(message, "Address 10.0.0.1 is not a multicast address");
        },
        other => panic!("unexpected result: {other:?}"),
    }
    match all_v4_interfaces(0) {
        SocketAddr::V4(a) => assert_eq!((a.ip.octets, a.port), ([0, 0, 0, 0], 0)),
        other => panic!("unexpected address: {other:?}"),
    }
}

fn sample_strings() -> Vec<String> {
    let mut out: Vec<String> = (0u32..0x80).filter_map(char::from_u32).map(|c| format!("a{c}b")).collect();
    out.push(String::new());
    out.push("caf\u{e9} \u{1F600} \u{7f} \u{2028}".to_string());
    out.push("\"quoted\" \\ back".to_string());
    out
}

#[test]
fn string_text_agrees_with_serde_json() {
    for s in sample_strings() {
        let expected = serde_json::to_string(&s).expect("a string serializes");
        assert_eq!(Json::Str(s.clone()).to_text(), expected, "text of {s:?}");
    }
}

#[test]
fn debug_text_agrees_with_serde_json() {
    for s in sample_strings() {
        let mut d = String::new();
        Json::Str(s.clone()).push_debug(&mut d);
        assert_eq!(d, format!("{:?}", serde_json::Value::String(s.clone())), "debug of {s:?}");
    }
    let mut map = serde_json::Map::new();
    map.insert("b".to_string(), serde_json::Value::Bool(true));
    map.insert("a".to_string(), serde_json::Value::Array(vec![serde_json::Value::Null, serde_json::Value::from(12)]));
    let value = serde_json::Value::Object(map);
    let mut members = Vec::new();
    object_insert(&mut members, "b".to_string(), Json::Bool(true));
    object_insert(
        &mut members,
        "a".to_string(),
        Json::Array(vec![Json::Null, Json::Number("12".to_string())]),
    );
    let ours = Json::Object(members);
    let mut d = String::new();
    ours.push_debug(&mut d);
    assert_eq!(d, format!("{value:?}"));
    assert_eq!(ours.to_text(), serde_json::to_string(&value).expect("a value serializes"));
}

#[test]
fn ipv6_texts_compress_the_first_longest_zero_run() {
    let cases: Vec<([u16; 8], &str)> = vec![
        ([0; 8], "::"),
        ([1, 0, 0, 0, 0, 0, 0, 0], "1::"),
        ([0x2001, 0xdb8, 0, 1, 0, 0, 0, 1], "2001:db8:0:1::1"),
        ([0x2001, 0xdb8, 0, 0, 1, 0, 0, 1], "2001:db8::1:0:0:1"),
        ([0, 0, 0, 0, 0, 0, 0xc0a8, 0x0001], "::c0a8:1"),
        ([0xfe80, 0, 0, 0, 0x0202, 0xb3ff, 0xfe1e, 0x8329], "fe80::202:b3ff:fe1e:8329"),
        ([0xffff; 8], "ffff:ffff:ffff:ffff:ffff:ffff:ffff:ffff"),
        ([0, 1, 0, 0, 0, 0, 0, 0], "0:1::"),
        ([1, 0, 0, 2, 0, 0, 3, 0], "1::2:0:0:3:0"),
    ];
    for (segments, text) in cases {
        assert_eq!(describe_socket_addr(&v6(segments, 80)), format!("{text}:80"), "segments {segments:x?}");
    }
}
