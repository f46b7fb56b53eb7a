use sentinel::blocking::blocklist::{BlocklistBundle, BlocklistError};
use sentinel::clock::Timestamp;

fn epoch() -> Timestamp {
    Timestamp { secs: 0, nanos: 0 }
}

#[test]
fn parses_entries_skipping_comments_and_blank_lines() {
    let raw = "# curated\nzemanta.com\n\n  Rubiconproject.COM.  \n#ignored.com\nzemanta.com\n";
    let bundle = BlocklistBundle::parse(raw, epoch(), "mirrored-local-blocklist".to_string()).unwrap();
    assert_eq!(bundle.domains, vec!["rubiconproject.com".to_string(), "zemanta.com".to_string()]);
    assert_eq!(bundle.domain_count, 2);
    assert_eq!(bundle.version, "0.1.1-2");
    assert_eq!(bundle.bundle_id, "sentinel-default-domains");
    assert_eq!(bundle.source_label, "mirrored-local-blocklist");
    assert!(!bundle.integrity_state);
}

#[test]
fn fifty_domains_pass_the_integrity_check() {
    let raw: String = (0..50).map(|i| format!("ads{i}.example.com\n")).collect();
    let bundle = BlocklistBundle::parse(&raw, epoch(), "test".to_string()).unwrap();
    assert_eq!(bundle.domain_count, 50);
    assert_eq!(bundle.version, "0.1.1-50");
    assert!(bundle.integrity_state);
}

#[test]
fn an_empty_list_is_refused() {
    let err = BlocklistBundle::parse("# nothing\n\n", epoch(), "test".to_string()).unwrap_err();
    assert_eq!(err, BlocklistError::Empty);
    assert_eq!(err.message(), "the bundled ad-domain list is empty");
}

#[test]
fn matches_listed_domains_and_their_subdomains() {
    let raw = "rubiconproject.com\nzemanta.com\n";
    let bundle = BlocklistBundle::parse(raw, epoch(), "test".to_string()).unwrap();
    assert!(bundle.matches("pixel.rubiconproject.com"));
    assert!(bundle.matches("subdomain.zemanta.com"));
    assert!(bundle.matches(" ZEMANTA.com. "));
    assert!(!bundle.matches("notzemanta.com"));
    assert!(!bundle.matches("example.org"));
}
