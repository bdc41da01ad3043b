use gateway_client::profile::{get_headers, Header, HeaderProfile};
use gateway_client::wire::{is_header_name, to_header_map};

fn profile(pairs: &[(&str, &str)]) -> HeaderProfile {
    HeaderProfile {
        entries: pairs
            .iter()
            .map(|(n, v)| Header { name: n.to_string(), value: v.to_string() })
            .collect(),
    }
}

#[test]
fn header_map_holds_every_header_of_the_profile() {
    let p = get_headers("7", "session=a", "https://x.test/").unwrap();
    let map = to_header_map(&p).unwrap();
    assert_eq!(map.len(), 16);
    assert_eq!(map.keys_len(), 16);
    for entry in &p.entries {
        let value = map.get(entry.name.as_str()).unwrap();
        assert_eq!(value.as_bytes(), entry.value.as_bytes());
    }
    assert_eq!(map.get("cookie").unwrap(), "session=a");
    assert_eq!(map.get("new-api-user").unwrap(), "7");
    assert_eq!(map.get("referer").unwrap(), "https://x.test/console");
    assert_eq!(map.get("authority").unwrap(), "api.husanai.com");
    assert_eq!(map.get(reqwest::header::ACCEPT).unwrap(), "application/json, text/plain, */*");
    assert_eq!(map.get(reqwest::header::CACHE_CONTROL).unwrap(), "no-store");
}

#[test]
fn empty_profile_gives_an_empty_map() {
    let map = to_header_map(&profile(&[])).unwrap();
    assert!(map.is_empty());
}

#[test]
fn later_entry_replaces_an_earlier_one_of_the_same_name() {
    let map = to_header_map(&profile(&[("x-a", "1"), ("x-b", "2"), ("x-a", "3")])).unwrap();
    assert_eq!(map.keys_len(), 2);
    assert_eq!(map.len(), 2);
    assert_eq!(map.get("x-a").unwrap(), "3");
    assert_eq!(map.get("x-b").unwrap(), "2");
}

#[test]
fn profile_with_a_bad_name_has_no_map() {
    assert!(to_header_map(&profile(&[("accept", "a"), ("bad name", "b")])).is_none());
    assert!(to_header_map(&profile(&[("Accept", "a")])).is_none());
    assert!(to_header_map(&profile(&[("", "a")])).is_none());
    let long = "a".repeat(65);
    assert!(to_header_map(&profile(&[(long.as_str(), "a")])).is_none());
    let longest = "a".repeat(64);
    let map = to_header_map(&profile(&[(longest.as_str(), "a")])).unwrap();
    assert_eq!(map.get(longest.as_str()).unwrap(), "a");
}

#[test]
fn profile_with_a_bad_value_has_no_map() {
    assert!(to_header_map(&profile(&[("accept", "a\nb")])).is_none());
    assert!(to_header_map(&profile(&[("accept", "ok"), ("dnt", "\u{7f}")])).is_none());
    let map = to_header_map(&profile(&[("accept", "a\tb")])).unwrap();
    assert_eq!(map.get("accept").unwrap().as_bytes(), b"a\tb");
}

#[test]
fn profile_longer_than_the_limit_has_no_map() {
    let names: Vec<String> = (0..4097).map(|i| format!("x-{}", i)).collect();
    let pairs: Vec<(&str, &str)> = names.iter().map(|n| (n.as_str(), "v")).collect();
    assert!(to_header_map(&profile(&pairs)).is_none());
    let map = to_header_map(&profile(&pairs[..4096])).unwrap();
    assert_eq!(map.keys_len(), 4096);
    assert_eq!(map.get("x-4095").unwrap(), "v");
}

#[test]
fn header_names_are_lower_case_letters_digits_and_hyphens() {
    assert!(is_header_name("sec-ch-ua"));
    assert!(is_header_name("x-9"));
    assert!(is_header_name("-"));
    assert!(!is_header_name(""));
    assert!(!is_header_name("Cookie"));
    assert!(!is_header_name("a b"));
    assert!(!is_header_name("a_b"));
    assert!(!is_header_name("caf\u{e9}"));
    assert!(is_header_name(&"z".repeat(64)));
    assert!(!is_header_name(&"z".repeat(65)));
}
