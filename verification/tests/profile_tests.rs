use gateway_client::profile::{check_fields, get_headers, HeaderProfile, InvalidField};

fn pairs(p: &HeaderProfile) -> Vec<(String, String)> {
    p.entries.iter().map(|h| (h.name.clone(), h.value.clone())).collect()
}

fn value_of(p: &HeaderProfile, name: &str) -> String {
    let found: Vec<&String> =
        p.entries.iter().filter(|h| h.name == name).map(|h| &h.value).collect();
    assert_eq!(found.len(), 1);
    found[0].clone()
}

#[test]
fn profile_lists_every_header_in_order() {
    let p = get_headers("7", "session=a", "https://x.test/").unwrap();
    let expected: Vec<(String, String)> = vec![
        ("authority", "api.husanai.com"),
        ("accept", "application/json, text/plain, */*"),
        ("accept-language", "zh-CN,zh;q=0.9,en-US;q=0.8,en;q=0.7"),
        ("cache-control", "no-store"),
        ("dnt", "1"),
        ("new-api-user", "7"),
        ("priority", "u=1, i"),
        ("referer", "https://x.test/console"),
        ("sec-ch-ua", "\"Google Chrome\";v=\"143\", \"Chromium\";v=\"143\", \"Not A(Brand\";v=\"24\""),
        ("sec-ch-ua-mobile", "?0"),
        ("sec-ch-ua-platform", "\"Windows\""),
        ("sec-fetch-dest", "empty"),
        ("sec-fetch-mode", "cors"),
        ("sec-fetch-site", "same-origin"),
        (
            "user-agent",
            "Mozilla/5.0 (Windows NT 10.0; Win64; x64) AppleWebKit/537.36 (KHTML, like Gecko) Chrome/143.0.0.0 Safari/537.36",
        ),
        ("cookie", "session=a"),
    ]
    .into_iter()
    .map(|(n, v)| (n.to_string(), v.to_string()))
    .collect();
    assert_eq!(pairs(&p), expected);
}

#[test]
fn profile_is_deterministic() {
    let a = get_headers("42", "session=abc; theme=dark", "https://gw.example.org").unwrap();
    let b = get_headers("42", "session=abc; theme=dark", "https://gw.example.org").unwrap();
    assert_eq!(pairs(&a), pairs(&b));
    assert_eq!(a.entries.len(), 16);
}

#[test]
fn profile_carries_user_id_and_cookie_verbatim() {
    let p = get_headers("0042", "a=1; b=2", "https://x.test").unwrap();
    assert_eq!(value_of(&p, "new-api-user"), "0042");
    assert_eq!(value_of(&p, "cookie"), "a=1; b=2");
}

#[test]
fn newline_in_user_id_is_rejected() {
    let r = get_headers("7\n", "session=a", "https://x.test");
    assert_eq!(r.err(), Some(InvalidField::UserId));
}

#[test]
fn newline_in_cookie_is_rejected() {
    let r = get_headers("7", "session=a\nx", "https://x.test");
    assert_eq!(r.err(), Some(InvalidField::Cookie));
}

#[test]
fn control_character_in_base_url_is_rejected() {
    let r = get_headers("7", "session=a", "https://x.test/\r\nfoo");
    assert_eq!(r.err(), Some(InvalidField::Url));
}

#[test]
fn base_url_that_is_no_absolute_url_is_rejected() {
    let r = get_headers("7", "session=a", "not a url");
    assert_eq!(r.err(), Some(InvalidField::Url));
    let r = get_headers("7", "session=a", "");
    assert_eq!(r.err(), Some(InvalidField::Url));
}

#[test]
fn user_id_is_checked_before_url_and_cookie() {
    let r = get_headers("\u{7f}", "\u{0}", "nowhere");
    assert_eq!(r.err(), Some(InvalidField::UserId));
    let r = get_headers("7", "\u{0}", "nowhere");
    assert_eq!(r.err(), Some(InvalidField::Url));
}

#[test]
fn tab_and_non_ascii_are_header_values() {
    let p = get_headers("1\t2", "nom=caf\u{e9}", "https://x.test").unwrap();
    assert_eq!(value_of(&p, "new-api-user"), "1\t2");
    assert_eq!(value_of(&p, "cookie"), "nom=caf\u{e9}");
}

#[test]
fn delete_character_is_rejected() {
    let r = get_headers("7", "a\u{7f}", "https://x.test");
    assert_eq!(r.err(), Some(InvalidField::Cookie));
    let r = get_headers("\u{1f}", "a", "https://x.test");
    assert_eq!(r.err(), Some(InvalidField::UserId));
}

#[test]
fn empty_user_id_and_cookie_are_accepted() {
    let p = get_headers("", "", "https://x.test").unwrap();
    assert_eq!(value_of(&p, "new-api-user"), "");
    assert_eq!(value_of(&p, "cookie"), "");
}

#[test]
fn referer_ignores_trailing_slashes() {
    let a = get_headers("7", "c", "https://x.test/").unwrap();
    let b = get_headers("7", "c", "https://x.test").unwrap();
    let c = get_headers("7", "c", "https://x.test///").unwrap();
    assert_eq!(value_of(&a, "referer"), "https://x.test/console");
    assert_eq!(value_of(&b, "referer"), "https://x.test/console");
    assert_eq!(value_of(&c, "referer"), "https://x.test/console");
}

#[test]
fn check_fields_picks_the_first_failure() {
    assert_eq!(check_fields(true, true, true), None);
    assert_eq!(check_fields(false, false, false), Some(InvalidField::UserId));
    assert_eq!(check_fields(true, false, false), Some(InvalidField::Url));
    assert_eq!(check_fields(true, true, false), Some(InvalidField::Cookie));
    assert_eq!(check_fields(false, true, true), Some(InvalidField::UserId));
}

#[test]
fn messages_name_the_field() {
    assert_eq!(InvalidField::UserId.message(), "Invalid User ID");
    assert_eq!(InvalidField::Url.message(), "Invalid URL");
    assert_eq!(InvalidField::Cookie.message(), "Invalid Cookie");
}
