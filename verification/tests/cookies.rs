use aur_thumbsup::cookies::{capture, expired, get, jar_lines, load, SITE_DOMAIN};
use cookie::CookieJar;

fn lines(texts: &[&str]) -> Vec<String> {
    texts.iter().map(|text| (*text).to_owned()).collect()
}

const FAR: &str = "Fri, 01 Jan 2100 00:00:00 GMT";
const PAST: &str = "Wed, 21 Oct 2015 07:28:00 GMT";

#[test]
fn lines_come_out_in_the_order_timezone_language_session() {
    let mut jar = CookieJar::new();
    assert!(load(
        &mut jar,
        &lines(&["AURSID=abc", "other=1", "AURLANG=en", "AURTZ=UTC"])
    ));
    assert_eq!(jar_lines(&jar), vec!["AURTZ=UTC", "AURLANG=en", "AURSID=abc"]);
}

#[test]
fn only_the_cookies_that_are_present_give_a_line() {
    let mut jar = CookieJar::new();
    assert_eq!(jar_lines(&jar), Vec::<String>::new());
    assert!(load(&mut jar, &lines(&["AURSID=abc"])));
    assert_eq!(jar_lines(&jar), vec!["AURSID=abc"]);
    assert!(load(&mut jar, &lines(&["AURTZ=UTC"])));
    assert_eq!(jar_lines(&jar), vec!["AURTZ=UTC", "AURSID=abc"]);
}

#[test]
fn a_later_cookie_takes_the_place_of_one_of_its_name() {
    let mut jar = CookieJar::new();
    assert!(load(&mut jar, &lines(&["AURSID=old", "AURSID=new"])));
    assert_eq!(jar_lines(&jar), vec!["AURSID=new"]);
}

#[test]
fn load_stops_at_the_first_line_that_is_no_cookie() {
    let mut jar = CookieJar::new();
    assert!(!load(
        &mut jar,
        &lines(&["AURTZ=UTC", "no cookie here", "AURSID=abc"])
    ));
    assert_eq!(jar_lines(&jar), vec!["AURTZ=UTC"]);
    let mut jar = CookieJar::new();
    assert!(!load(&mut jar, &lines(&["=value"])));
    assert!(load(&mut jar, &Vec::new()));
    assert_eq!(jar_lines(&jar), Vec::<String>::new());
}

#[test]
fn captured_cookies_are_given_the_domain_of_the_site() {
    let mut jar = CookieJar::new();
    assert!(capture(
        &mut jar,
        &lines(&["AURSID=abc; HttpOnly; Path=/", "AURTZ=UTC; Domain=example.org"]),
        SITE_DOMAIN
    ));
    assert_eq!(
        jar_lines(&jar),
        vec![
            "AURTZ=UTC; Domain=aur.archlinux.org",
            "AURSID=abc; HttpOnly; Path=/; Domain=aur.archlinux.org"
        ]
    );
    assert!(!capture(&mut jar, &lines(&["nothing"]), SITE_DOMAIN));
}

#[test]
fn the_encoded_form_escapes_name_and_value() {
    let mut jar = CookieJar::new();
    assert!(load(&mut jar, &lines(&["AURSID=a b"])));
    assert_eq!(jar_lines(&jar), vec!["AURSID=a%20b"]);
}

#[test]
fn expiry_is_that_of_the_timezone_cookie() {
    let mut jar = CookieJar::new();
    assert!(!expired(&jar, i64::MAX));
    assert!(load(
        &mut jar,
        &lines(&[
            &format!("AURSID=abc; Expires={}", PAST),
            "AURTZ=UTC",
        ])
    ));
    // a time zone cookie without date of expiry never expires
    assert!(!expired(&jar, i64::MAX));
    assert!(load(&mut jar, &lines(&[&format!("AURTZ=UTC; Expires={}", PAST)])));
    // Wed, 21 Oct 2015 07:28:00 GMT is 1445412480
    assert!(!expired(&jar, 1445412479));
    assert!(!expired(&jar, 1445412480));
    assert!(expired(&jar, 1445412481));
}

#[test]
fn saved_cookies_come_back_from_their_lines() {
    let mut first = CookieJar::new();
    assert!(capture(
        &mut first,
        &lines(&[
            &format!("AURSID=0123456789abcdef; HttpOnly; Path=/; Secure; Expires={}", FAR),
            &format!("AURTZ=UTC; Path=/; Max-Age=31536000; Expires={}", FAR),
            "AURLANG=en; Path=/",
        ]),
        SITE_DOMAIN
    ));
    let written = jar_lines(&first);
    assert_eq!(written.len(), 3);

    let mut second = CookieJar::new();
    assert!(load(&mut second, &written));
    assert_eq!(jar_lines(&second), written);
    for name in ["AURTZ", "AURLANG", "AURSID"] {
        let a = first.get(name).unwrap();
        let b = second.get(name).unwrap();
        assert_eq!(a.name(), b.name());
        assert_eq!(a.value(), b.value());
        assert_eq!(a.domain(), b.domain());
        assert_eq!(b.domain(), Some("aur.archlinux.org"));
    }
    assert_eq!(expired(&first, 4102444801), expired(&second, 4102444801));
    assert!(expired(&second, 4102444801));
    assert!(!expired(&second, 4102444800));
}

#[test]
fn a_cookie_is_found_by_its_name() {
    let mut jar = CookieJar::new();
    assert_eq!(get(&jar, "AURSID"), None);
    assert!(load(&mut jar, &lines(&["AURSID=abc; Path=/", "other=x y"])));
    assert_eq!(get(&jar, "AURSID"), Some("AURSID=abc; Path=/".to_owned()));
    assert_eq!(get(&jar, "other"), Some("other=x%20y".to_owned()));
    assert_eq!(get(&jar, "aursid"), None);
}
