use pdns_cli::pdns::zone::RrsetType;
use pdns_cli::rest_client::zone_resource_client::{
    canonicalize_name, canonicalize_names, qualify_record_key,
};
use pdns_cli::text::{chars_of, contains, decimal, join, parse_u32, same_text};

#[test]
fn name_without_dot_gets_exactly_one() {
    assert_eq!(canonicalize_name(&"example.com".to_string()), "example.com.");
    assert_eq!(canonicalize_name(&"".to_string()), ".");
    assert_eq!(canonicalize_name(&"ns1".to_string()), "ns1.");
    assert_eq!(canonicalize_name(&"bücher.example".to_string()), "bücher.example.");
}

#[test]
fn name_with_dot_is_left_as_it_is() {
    assert_eq!(canonicalize_name(&"example.com.".to_string()), "example.com.");
    assert_eq!(canonicalize_name(&".".to_string()), ".");
    assert_eq!(canonicalize_name(&"a..".to_string()), "a..");
}

#[test]
fn canonical_form_is_stable() {
    for name in ["", ".", "example.com", "example.com.", "www.example.com", "x.."] {
        let once = canonicalize_name(&name.to_string());
        let twice = canonicalize_name(&once);
        assert_eq!(once, twice);
        assert!(once.ends_with('.'));
    }
}

#[test]
fn lists_of_names_are_put_into_canonical_form() {
    assert_eq!(
        canonicalize_names(&vec![
            "ns1.example.com".to_string(),
            "ns2.example.com.".to_string()
        ]),
        vec!["ns1.example.com.".to_string(), "ns2.example.com.".to_string()]
    );
    assert_eq!(canonicalize_names(&vec![]), Vec::<String>::new());
}

#[test]
fn short_key_is_made_full_within_the_zone() {
    assert_eq!(
        qualify_record_key(&"www".to_string(), &"example.com".to_string()),
        "www.example.com."
    );
}

#[test]
fn key_that_holds_the_zone_is_only_put_into_canonical_form() {
    assert_eq!(
        qualify_record_key(&"www.example.com".to_string(), &"example.com".to_string()),
        "www.example.com."
    );
    assert_eq!(
        qualify_record_key(&"www.example.com.".to_string(), &"example.com".to_string()),
        "www.example.com."
    );
    assert_eq!(
        qualify_record_key(&"example.com".to_string(), &"example.com".to_string()),
        "example.com."
    );
}

#[test]
fn key_is_made_full_within_a_canonical_zone() {
    assert_eq!(
        qualify_record_key(&"www".to_string(), &"example.com.".to_string()),
        "www.example.com."
    );
    assert_eq!(
        qualify_record_key(&"mail.example".to_string(), &"example.com".to_string()),
        "mail.example.example.com."
    );
}

#[test]
fn text_is_found_where_it_occurs() {
    assert!(contains("www.example.com", "example.com"));
    assert!(contains("example.com", "example.com"));
    assert!(contains("example.com", ""));
    assert!(contains("", ""));
    assert!(contains("abcabd", "abd"));
    assert!(!contains("example.co", "example.com"));
    assert!(!contains("", "a"));
    assert!(!contains("aab", "aba"));
    for (haystack, needle) in [("grüße", "üß"), ("a.b.c", ".c"), ("a.b.c", "c."), ("xyz", "xz")] {
        assert_eq!(contains(haystack, needle), haystack.contains(needle));
    }
}

#[test]
fn texts_are_compared_character_by_character() {
    assert!(same_text("", ""));
    assert!(same_text("PTR", "PTR"));
    assert!(!same_text("PTR", "PTT"));
    assert!(!same_text("A", "AAAA"));
    assert_eq!(chars_of("añb"), vec!['a', 'ñ', 'b']);
}

#[test]
fn numbers_are_written_in_decimal() {
    assert_eq!(decimal(0), "0");
    assert_eq!(decimal(7), "7");
    assert_eq!(decimal(10), "10");
    assert_eq!(decimal(604800), "604800");
    assert_eq!(decimal(4294967295), "4294967295");
    assert_eq!(decimal(u64::MAX), "18446744073709551615");
}

#[test]
fn written_numbers_are_read_back() {
    for number in [1u32, 9, 10, 99, 100, 3600, 604800, u32::MAX] {
        assert_eq!(parse_u32(&decimal(number as u64)), Some(number));
    }
    assert_eq!(parse_u32("0"), Some(0));
    assert_eq!(parse_u32(&decimal(u32::MAX as u64 + 1)), None);
}

#[test]
fn parts_are_joined_with_the_separator_between_them() {
    assert_eq!(join(&vec![], ", "), "");
    assert_eq!(join(&vec!["a".to_string()], ", "), "a");
    assert_eq!(
        join(&vec!["a".to_string(), "".to_string(), "c".to_string()], ", "),
        "a, , c"
    );
}

#[test]
fn record_types_are_known_by_their_names() {
    assert_eq!(RrsetType::from_name("A"), Some(RrsetType::A));
    assert_eq!(RrsetType::from_name("PTR"), Some(RrsetType::Ptr));
    assert_eq!(RrsetType::from_name("AAAA"), Some(RrsetType::Aaaa));
    assert_eq!(RrsetType::from_name("NS"), Some(RrsetType::Ns));
    assert_eq!(RrsetType::from_name("SOA"), Some(RrsetType::Soa));
    assert_eq!(RrsetType::from_name("CNAME"), Some(RrsetType::Cname));
    assert_eq!(RrsetType::from_name("SRV"), Some(RrsetType::Srv));
    assert_eq!(RrsetType::from_name("TXT"), Some(RrsetType::Txt));
    assert_eq!(RrsetType::from_name("MX"), None);
    assert_eq!(RrsetType::from_name("a"), None);
    assert_eq!(RrsetType::from_name(""), None);
}
