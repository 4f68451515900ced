use manini::address::socket_authority;
use manini::text::{contains_bytes, decimal_text, same_text, to_ascii_lowercase};
use manini::uri::rewrite_uri;
use manini::IpAddr;

fn v4(text: &str) -> IpAddr {
    IpAddr::V4(text.to_string())
}

fn v6(text: &str) -> IpAddr {
    IpAddr::V6(text.to_string())
}

#[test]
fn decimal_text_prints_numbers() {
    assert_eq!(decimal_text(0), "0");
    assert_eq!(decimal_text(7), "7");
    assert_eq!(decimal_text(10), "10");
    assert_eq!(decimal_text(3000), "3000");
    assert_eq!(decimal_text(65535), "65535");
}

#[test]
fn lowercase_changes_ascii_capitals_only() {
    assert_eq!(to_ascii_lowercase(b"Text/HTML;Q=0.9@[`{"), b"text/html;q=0.9@[`{".to_vec());
    assert_eq!(to_ascii_lowercase(&[0xc3, 0x84, 0x5a]), vec![0xc3, 0x84, 0x7a]);
    assert_eq!(to_ascii_lowercase(b""), Vec::<u8>::new());
}

#[test]
fn contains_bytes_finds_substrings() {
    assert!(contains_bytes(b"application/json, text/html", b"text/html"));
    assert!(!contains_bytes(b"application/json, text/htm", b"text/html"));
    assert!(contains_bytes(b"anything", b""));
    assert!(!contains_bytes(b"", b"a"));
    let long = format!("{}text/html", "x".repeat(500));
    assert!(contains_bytes(long.as_bytes(), b"text/html"));
}

#[test]
fn same_text_compares_texts() {
    assert!(same_text("GET", "GET"));
    assert!(!same_text("GET", "get"));
    assert!(!same_text("GET", "GETS"));
}

#[test]
fn authority_has_brackets_for_ipv6_only() {
    assert_eq!(socket_authority(&v4("10.0.1.23"), 3000), "10.0.1.23:3000");
    assert_eq!(socket_authority(&v6("fd00::1"), 80), "[fd00::1]:80");
}

#[test]
fn authority_at_the_ends_of_the_port_range() {
    assert_eq!(socket_authority(&v4("255.255.255.255"), 65535), "255.255.255.255:65535");
    assert_eq!(socket_authority(&v6("::"), 0), "[::]:0");
    assert_eq!(socket_authority(&v6("::ffff:10.0.0.1"), 8080), "[::ffff:10.0.0.1]:8080");
}

#[test]
fn address_equality_goes_by_family_and_text() {
    assert_eq!(v4("10.0.0.1"), v4("10.0.0.1"));
    assert_ne!(v4("10.0.0.1"), v4("10.0.0.2"));
    assert_ne!(v4("10.0.0.1"), v6("10.0.0.1"));
    assert_eq!(v6("::1").clone(), v6("::1"));
    assert_eq!(v6("::1").as_text(), "::1");
}

#[test]
fn uri_leads_to_the_service() {
    let target = "/a/b?c=%20d&e".to_string();
    assert_eq!(
        rewrite_uri(&v4("10.0.1.23"), 3000, Some(&target)),
        Some("http://10.0.1.23:3000/a/b?c=%20d&e".to_string())
    );
    assert_eq!(
        rewrite_uri(&v6("fd00::1"), 80, Some(&"/".to_string())),
        Some("http://[fd00::1]:80/".to_string())
    );
    assert_eq!(
        rewrite_uri(&v4("10.0.1.23"), 3000, Some(&"*".to_string())),
        Some("http://10.0.1.23:3000*".to_string())
    );
    assert_eq!(
        rewrite_uri(&v4("10.0.1.23"), 3000, Some(&"?q".to_string())),
        Some("http://10.0.1.23:3000/?q".to_string())
    );
}

/// The characters from `first` to `last`.
fn chars(first: char, last: char) -> String {
    (first..=last).collect()
}

#[test]
fn uri_of_every_character_of_a_path_and_a_query() {
    let path = format!("/!\"={}{}{}", chars('$', ';'), chars('@', '_'), chars('a', '~'));
    let query = format!("?!={}{}", chars('$', ';'), chars('?', '~'));
    let beyond_ascii = "\u{80}\u{e9}\u{3042}\u{1f600}";
    let target = format!("{}{}{}{}", path, beyond_ascii, query, beyond_ascii);
    assert_eq!(
        rewrite_uri(&v4("0123456789.0"), 1, Some(&target)),
        Some(format!("http://0123456789.0:1{}", target))
    );
    assert_eq!(
        rewrite_uri(&v6("0123:456:789:abc:def::1.2.3.4"), 1, Some(&target)),
        Some(format!("http://[0123:456:789:abc:def::1.2.3.4]:1{}", target))
    );
    assert_eq!(
        rewrite_uri(&v6("1:2:3:4:5:6:7::"), 1, Some(&query)),
        Some(format!("http://[1:2:3:4:5:6:7::]:1/{}", query))
    );
}

#[test]
fn uri_of_the_longest_path() {
    let longest = format!("/{}", "a".repeat(65533));
    assert_eq!(
        rewrite_uri(&v4("1.1.1.1"), 1, Some(&longest)),
        Some(format!("http://1.1.1.1:1{}", longest))
    );
}

#[test]
fn uri_needs_a_path_and_valid_characters() {
    assert_eq!(rewrite_uri(&v4("10.0.1.23"), 3000, None), None);
    assert_eq!(rewrite_uri(&v4("10.0.1.23"), 3000, Some(&"no-slash".to_string())), None);
    for target in ["/a b", "/a<", "/a>", "/`", "/\u{7f}", "/?\"", "/?<", "/?>", "/\t"] {
        assert_eq!(rewrite_uri(&v4("10.0.1.23"), 3000, Some(&target.to_string())), None);
    }
    assert_eq!(rewrite_uri(&v4("not an address"), 3000, Some(&"/".to_string())), None);
    let too_long = format!("/{}", "a".repeat(65534));
    assert_eq!(rewrite_uri(&v4("10.0.1.23"), 3000, Some(&too_long)), None);
}
