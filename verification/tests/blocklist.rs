use maileroo::blocklist::{deny_line, parse_deny_line, parse_prefix, Blocklist, DenyRule, Ipv4Subnet};
use maileroo::dns::IpAddress;

fn v4(text: &str) -> u32 {
    text.split('.').fold(0u32, |acc, o| (acc << 8) | o.parse::<u32>().unwrap())
}

/// Loads list-file text the way the server does: each `deny` line through the
/// library's line reader, its address text parsed on the test side.
fn load(content: &str) -> Blocklist {
    let mut b = Blocklist::new();
    for line in content.lines() {
        match parse_deny_line(line) {
            Some(DenyRule::Subnet(addr, prefix)) => {
                if let Some(p) = parse_prefix(&prefix) {
                    b.add_subnet(Ipv4Subnet { network: v4(&addr), prefix: p });
                }
            }
            Some(DenyRule::Address(addr)) => {
                b.add_ip(IpAddress::V4(v4(&addr)));
            }
            None => {}
        }
    }
    b
}

#[test]
fn test_ipv4_subnet_contains() {
    let subnet = Ipv4Subnet { network: v4("178.207.10.0"), prefix: 24 };
    assert!(subnet.contains(v4("178.207.10.91")));
    assert!(subnet.contains(v4("178.207.10.1")));
    assert!(!subnet.contains(v4("178.207.11.91")));

    let subnet_host = Ipv4Subnet { network: v4("192.168.1.5"), prefix: 32 };
    assert!(subnet_host.contains(v4("192.168.1.5")));
    assert!(!subnet_host.contains(v4("192.168.1.6")));
}

#[test]
fn test_blocklist_new_and_is_blocked() {
    let content = "deny 1.2.3.4;\ndeny 5.6.7.0/24;\n# some comment\n   deny 8.8.8.8; \n";
    let blocklist = load(content);

    assert!(blocklist.is_blocked(IpAddress::V4(v4("1.2.3.4"))));
    assert!(blocklist.is_blocked(IpAddress::V4(v4("5.6.7.8"))));
    assert!(blocklist.is_blocked(IpAddress::V4(v4("8.8.8.8"))));
    assert!(!blocklist.is_blocked(IpAddress::V4(v4("1.2.3.5"))));
    assert!(!blocklist.is_blocked(IpAddress::V4(v4("5.6.8.1"))));
}

#[test]
fn test_blocklist_add_ip() {
    let mut blocklist = Blocklist::new();
    let test_ip = IpAddress::V4(v4("10.20.30.40"));
    assert!(!blocklist.is_blocked(test_ip));

    assert!(blocklist.add_ip(test_ip));
    assert!(blocklist.is_blocked(test_ip));
    assert_eq!(deny_line("10.20.30.40"), "deny 10.20.30.40;");

    // adding again reports nothing new, so nothing is appended to the file
    assert!(!blocklist.add_ip(test_ip));
}

#[test]
fn subnet_prefix_edges() {
    let all = Ipv4Subnet { network: v4("10.0.0.0"), prefix: 0 };
    assert!(all.contains(v4("200.1.2.3")));
    let wide = Ipv4Subnet { network: v4("10.1.2.3"), prefix: 40 };
    assert!(wide.contains(v4("10.1.2.3")));
    assert!(!wide.contains(v4("10.1.2.4")));
    let eight = Ipv4Subnet { network: v4("10.9.9.9"), prefix: 8 };
    assert!(eight.contains(v4("10.200.0.1")));
    assert!(!eight.contains(v4("11.0.0.1")));
}

#[test]
fn deny_line_reading() {
    assert!(parse_deny_line("# deny 1.2.3.4;").is_none());
    assert!(parse_deny_line("allow 1.2.3.4;").is_none());
    match parse_deny_line("deny 5.6.7.0/24;;") {
        Some(DenyRule::Subnet(a, p)) => {
            assert_eq!(a, "5.6.7.0");
            assert_eq!(p, "24");
        }
        _ => panic!("expected a subnet"),
    }
    match parse_deny_line("  deny 2001:db8::1 ;  ") {
        Some(DenyRule::Address(a)) => assert_eq!(a, "2001:db8::1"),
        _ => panic!("expected an address"),
    }
    assert_eq!(parse_prefix("24"), Some(24));
    assert_eq!(parse_prefix("256"), None);
    assert_eq!(parse_prefix("x"), None);
}

#[test]
fn ipv6_addresses_are_blocked_exactly() {
    let mut b = Blocklist::new();
    b.add_subnet(Ipv4Subnet { network: 0, prefix: 0 });
    assert!(b.is_blocked(IpAddress::V4(12345)));
    assert!(!b.is_blocked(IpAddress::V6(12345)));
    b.add_ip(IpAddress::V6(12345));
    assert!(b.is_blocked(IpAddress::V6(12345)));
}
