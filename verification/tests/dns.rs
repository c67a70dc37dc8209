use maileroo::dns::{
    check_domain_records, cidr_address_part, dkim_domain, dkim_record_status, dmarc_domain, match_ip_cidr,
    is_domain_deliverable, mx_status, parse_spf_record, parse_spf_record_qualified, IpAddress, SpfCheck,
    SpfDirective, SpfOutcome, SpfQualifier,
};
use maileroo::outbound::MxRecord;

/// Test-side parsing of address text into the library's address type.
fn parse_ip(text: &str) -> Option<IpAddress> {
    if text.contains(':') {
        let (head, tail) = match text.split_once("::") {
            Some((h, t)) => (h, Some(t)),
            None => (text, None),
        };
        let groups = |s: &str| -> Option<Vec<u16>> {
            if s.is_empty() {
                return Some(Vec::new());
            }
            s.split(':').map(|g| u16::from_str_radix(g, 16).ok()).collect()
        };
        let h = groups(head)?;
        let mut all = h.clone();
        if let Some(t) = tail {
            let t = groups(t)?;
            if h.len() + t.len() > 7 {
                return None;
            }
            all.extend(std::iter::repeat(0).take(8 - h.len() - t.len()));
            all.extend(t);
        }
        if all.len() != 8 {
            return None;
        }
        Some(IpAddress::V6(all.iter().fold(0u128, |acc, g| (acc << 16) | *g as u128)))
    } else {
        let octets: Vec<u8> = text.split('.').map(|o| o.parse().ok()).collect::<Option<Vec<u8>>>()?;
        if octets.len() != 4 {
            return None;
        }
        Some(IpAddress::V4(octets.iter().fold(0u32, |acc, o| (acc << 8) | *o as u32)))
    }
}

fn matches(ip: IpAddress, cidr: &str) -> bool {
    let block = parse_ip(&cidr_address_part(cidr));
    match_ip_cidr(ip, block, cidr)
}

#[test]
fn test_parse_spf_record() {
    let record = "v=spf1 ip4:185.70.40.0/22 include:_spf.protonmail.ch -all";
    let parsed = parse_spf_record(record);
    assert_eq!(parsed.len(), 2);
    assert_eq!(parsed[0], SpfDirective::Ip4("185.70.40.0/22".to_string()));
    assert_eq!(parsed[1], SpfDirective::Include("_spf.protonmail.ch".to_string()));

    let record_invalid = "v=spf2 ip4:1.1.1.1";
    assert!(parse_spf_record(record_invalid).is_empty());
}

#[test]
fn test_match_ip_cidr_ipv4() {
    let ip_exact = parse_ip("192.168.1.15").unwrap();

    assert!(matches(ip_exact, "192.168.1.15"));
    assert!(matches(ip_exact, "192.168.1.15/32"));
    assert!(!matches(ip_exact, "192.168.1.16"));

    assert!(matches(ip_exact, "192.168.1.0/24"));
    assert!(matches(ip_exact, "192.168.0.0/16"));
    assert!(!matches(ip_exact, "192.168.2.0/24"));

    assert!(matches(ip_exact, "0.0.0.0/0"));
}

#[test]
fn test_match_ip_cidr_ipv6() {
    let ip_exact = parse_ip("2001:db8::15").unwrap();

    assert!(matches(ip_exact, "2001:db8::15"));
    assert!(matches(ip_exact, "2001:db8::15/128"));
    assert!(!matches(ip_exact, "2001:db8::16"));

    assert!(matches(ip_exact, "2001:db8::/64"));
    assert!(matches(ip_exact, "2001:db8::/32"));
    assert!(!matches(ip_exact, "2002:db8::/32"));

    assert!(matches(ip_exact, "::/0"));
}

#[test]
fn cidr_edge_cases() {
    let v4 = IpAddress::V4(0xC0A8_010F);
    // an unparsable prefix means a full-width match
    assert!(matches(v4, "192.168.1.15/abc"));
    assert!(!matches(v4, "192.168.1.0/abc"));
    // a prefix beyond the width is capped
    assert!(matches(v4, "192.168.1.15/99"));
    // families never mix
    assert!(!matches(v4, "::/0"));
    assert!(!matches(IpAddress::V6(1), "0.0.0.0/0"));
    // an address part that is not an address never matches
    assert!(!match_ip_cidr(v4, None, "nonsense/0"));
    assert_eq!(cidr_address_part("10.0.0.0/8"), "10.0.0.0");
    assert_eq!(cidr_address_part("10.0.0.1"), "10.0.0.1");
}

#[test]
fn spf_terms_with_qualifiers_and_modifiers() {
    let parsed = parse_spf_record("v=spf1 +ip6:2001:db8::/32 ~include:a.example redirect=b.example mx a ?all");
    assert_eq!(
        parsed,
        vec![
            SpfDirective::Ip6("2001:db8::/32".to_string()),
            SpfDirective::Include("a.example".to_string()),
            SpfDirective::Redirect("b.example".to_string()),
        ]
    );
    assert!(parse_spf_record("").is_empty());
}

fn blocks_of(ds: &[(SpfQualifier, SpfDirective)]) -> Vec<Option<IpAddress>> {
    ds.iter()
        .map(|(_, d)| match d {
            SpfDirective::Ip4(c) | SpfDirective::Ip6(c) => parse_ip(&cidr_address_part(c)),
            _ => None,
        })
        .collect()
}

/// Runs an SPF walk against a table of TXT records.
fn walk(start: &str, ip: IpAddress, table: &[(&str, &str)]) -> (bool, Vec<String>) {
    let mut check = SpfCheck::new(start);
    let mut looked = Vec::new();
    while let Some(d) = check.next_domain() {
        looked.push(d.clone());
        for (name, txt) in table {
            if *name == d {
                let ds = parse_spf_record_qualified(txt);
                let blocks = blocks_of(&ds);
                match check.on_directives(ip, ds, blocks) {
                    SpfOutcome::Authorized => return (true, looked),
                    SpfOutcome::Refused => return (false, looked),
                    SpfOutcome::Undecided => {}
                }
            }
        }
    }
    (false, looked)
}

#[test]
fn spf_walk_follows_includes() {
    let table = [
        ("example.com", "v=spf1 include:_spf.example.net -all"),
        ("_spf.example.net", "v=spf1 ip4:185.70.40.0/22 -all"),
    ];
    let (ok, looked) = walk("example.com", IpAddress::V4(0xB946_2865), &table);
    assert!(ok);
    assert_eq!(looked, vec!["example.com".to_string(), "_spf.example.net".to_string()]);
    let (ok, _) = walk("example.com", IpAddress::V4(0x0101_0101), &table);
    assert!(!ok);
}

#[test]
fn spf_fail_qualifier_refuses_a_matching_client() {
    let table = [("example.com", "v=spf1 -ip4:1.2.3.4 -all")];
    let (ok, looked) = walk("example.com", IpAddress::V4(0x0102_0304), &table);
    assert!(!ok);
    assert_eq!(looked, vec!["example.com".to_string()]);

    // the first matching mechanism decides: a refusal ends the check
    let table = [("example.com", "v=spf1 ~ip4:10.0.0.0/8 ip4:10.1.2.3 include:other.test"), ("other.test", "v=spf1 ip4:10.1.2.3")];
    let (ok, looked) = walk("example.com", IpAddress::V4(0x0A01_0203), &table);
    assert!(!ok);
    assert_eq!(looked, vec!["example.com".to_string()]);

    // an explicit `+` authorizes like no qualifier
    let table = [("example.com", "v=spf1 ?ip4:9.9.9.9 +ip4:10.1.2.3 -all")];
    let (ok, _) = walk("example.com", IpAddress::V4(0x0A01_0203), &table);
    assert!(ok);

    // an include that is not `+` is not followed: it cannot authorize
    let table = [("example.com", "v=spf1 -include:other.test"), ("other.test", "v=spf1 ip4:10.1.2.3")];
    let (ok, looked) = walk("example.com", IpAddress::V4(0x0A01_0203), &table);
    assert!(!ok);
    assert_eq!(looked, vec!["example.com".to_string()]);
}

#[test]
fn spf_qualifiers_are_kept() {
    let parsed = parse_spf_record_qualified("v=spf1 -ip4:1.2.3.4 ~ip6:2001:db8::/32 ?include:a.test ip4:5.6.7.8 -all");
    assert_eq!(
        parsed,
        vec![
            (SpfQualifier::Fail, SpfDirective::Ip4("1.2.3.4".to_string())),
            (SpfQualifier::SoftFail, SpfDirective::Ip6("2001:db8::/32".to_string())),
            (SpfQualifier::Neutral, SpfDirective::Include("a.test".to_string())),
            (SpfQualifier::Pass, SpfDirective::Ip4("5.6.7.8".to_string())),
        ]
    );
    assert!(parse_spf_record_qualified("v=spf2 ip4:1.1.1.1").is_empty());
}

#[test]
fn spf_walk_visits_each_domain_once() {
    let table = [("a.test", "v=spf1 include:b.test"), ("b.test", "v=spf1 include:a.test include:b.test")];
    let (ok, looked) = walk("a.test", IpAddress::V4(1), &table);
    assert!(!ok);
    assert_eq!(looked, vec!["a.test".to_string(), "b.test".to_string()]);
}

#[test]
fn spf_walk_stops_after_ten_domains() {
    let names: Vec<String> = (0..20).map(|i| format!("d{}.test", i)).collect();
    let texts: Vec<String> = (0..20).map(|i| format!("v=spf1 include:d{}.test", i + 1)).collect();
    let table: Vec<(&str, &str)> = names.iter().zip(texts.iter()).map(|(n, t)| (n.as_str(), t.as_str())).collect();
    let (ok, looked) = walk("d0.test", IpAddress::V4(1), &table);
    assert!(!ok);
    assert_eq!(looked.len(), 10);
}

#[test]
fn record_names() {
    assert_eq!(dmarc_domain("example.com"), "_dmarc.example.com");
    assert_eq!(dkim_domain("maileroo", "example.com"), "maileroo._domainkey.example.com");
}

#[test]
fn mx_status_picks_first_lowest_preference() {
    let records = vec![
        MxRecord { preference: 20, exchange: "b.mx.example.com.".to_string() },
        MxRecord { preference: 10, exchange: "a.mx.example.com.".to_string() },
        MxRecord { preference: 10, exchange: "c.mx.example.com.".to_string() },
    ];
    let st = mx_status(&Some(records));
    assert!(st.ok);
    assert_eq!(st.message, "Found 3 MX records");
    assert_eq!(st.value, Some("a.mx.example.com".to_string()));

    let empty = mx_status(&Some(Vec::new()));
    assert!(!empty.ok);
    assert_eq!(empty.message, "No MX records found. Email delivery will fail.");
    let failed = mx_status(&None);
    assert!(!failed.ok);
    assert_eq!(failed.message, "DNS lookup failed or no MX records found.");
    assert_eq!(failed.value, None);
}

#[test]
fn domain_check_combines_records() {
    let mx = Some(vec![MxRecord { preference: 1, exchange: "mx.example.com.".to_string() }]);
    let txt = vec!["google-site-verification=x".to_string(), "v=spf1 -all".to_string()];
    let dmarc: Vec<String> = Vec::new();
    let r = check_domain_records(&mx, &txt, &dmarc);
    assert!(r.is_ok);
    assert_eq!(r.spf_status.message, "SPF record found");
    assert_eq!(r.spf_status.value, Some("v=spf1 -all".to_string()));
    assert!(!r.dmarc_status.ok);
    assert_eq!(r.dmarc_status.message, "No DMARC record found.");

    let r2 = check_domain_records(&mx, &[], &["v=DMARC1; p=none".to_string()]);
    assert!(!r2.is_ok);
    assert_eq!(r2.spf_status.message, "No SPF record found.");
    assert!(r2.dmarc_status.ok);
    assert_eq!(r2.dmarc_status.message, "DMARC record found");
}

#[test]
fn dkim_status_messages() {
    let found = dkim_record_status(&Ok(vec!["v=DKIM1; k=rsa; p=ABC".to_string()]), "p=ABC");
    assert!(found.ok);
    assert_eq!(found.message, "DKIM TXT record found and matches!");
    assert_eq!(found.value, Some("v=DKIM1; k=rsa; p=ABC".to_string()));
    let other = dkim_record_status(&Ok(vec!["v=DKIM1; p=XYZ".to_string()]), "p=ABC");
    assert!(!other.ok);
    assert_eq!(other.message, "DKIM record found but does not contain the expected public key.");
    let failed = dkim_record_status(&Err("no records".to_string()), "p=ABC");
    assert_eq!(failed.message, "DKIM DNS TXT lookup failed: no records");
}

#[test]
fn deliverability_falls_back_to_address_records() {
    let mx = Some(vec![MxRecord { preference: 10, exchange: "mx.example.com.".to_string() }]);
    assert!(is_domain_deliverable(&mx, false));
    assert!(!is_domain_deliverable(&Some(vec![]), true));
    assert!(is_domain_deliverable(&None, true));
    assert!(!is_domain_deliverable(&None, false));
}
