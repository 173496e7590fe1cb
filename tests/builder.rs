use gravatar::digest::email_digest;
use gravatar::gravatar::assemble_url;
use gravatar::query::{decimal, query_string};
use gravatar::{Gravatar, Rating};

const BASE: &str = "https://secure.gravatar.com/avatar/5658ffccee7f0ebfda2b226238b1eb6e";

fn pairs(ps: &[(&str, &str)]) -> Vec<(String, String)> {
    ps.iter().map(|(k, v)| (k.to_string(), v.to_string())).collect()
}

#[test]
fn digest_of_known_email() {
    assert_eq!(
        email_digest("email@example.com"),
        "5658ffccee7f0ebfda2b226238b1eb6e"
    );
}

#[test]
fn digest_of_empty_email() {
    assert_eq!(email_digest(""), "d41d8cd98f00b204e9800998ecf8427e");
    assert_eq!(email_digest(" \t\n "), "d41d8cd98f00b204e9800998ecf8427e");
}

#[test]
fn digest_ignores_white_space_and_case() {
    let d = email_digest("email@example.com");
    assert_eq!(email_digest("\t EMAIL@EXAMPLE.COM\n"), d);
    assert_eq!(email_digest("\u{3000}Email@Example.Com\u{a0}"), d);
    assert_ne!(email_digest("e mail@example.com"), d);
}

#[test]
fn no_options_gives_no_query() {
    let url = Gravatar::new("someone@example.net").image_url();
    assert!(!url.contains('?'));
    assert_eq!(
        url,
        format!(
            "https://secure.gravatar.com/avatar/{}",
            email_digest("someone@example.net")
        )
    );
}

#[test]
fn size_and_rating_scenario() {
    let url = Gravatar::new("email@example.com")
        .set_size(Some(150))
        .set_rating(Some(Rating::R))
        .image_url();
    assert_eq!(url, format!("{}?s=150&r=r", BASE));
}

#[test]
fn order_of_setting_does_not_matter() {
    let url = Gravatar::new("email@example.com")
        .set_rating(Some(Rating::R))
        .set_force_default(true)
        .set_default(Some(gravatar::Default::Identicon))
        .set_size(Some(200))
        .image_url();
    assert_eq!(url, format!("{}?s=200&d=identicon&f=y&r=r", BASE));
}

#[test]
fn force_default_false_emits_nothing() {
    let url = Gravatar::new("email@example.com")
        .set_force_default(true)
        .set_force_default(false)
        .set_size(Some(1))
        .image_url();
    assert_eq!(url, format!("{}?s=1", BASE));
}

#[test]
fn default_literal_url_with_space() {
    let url = Gravatar::new("email@example.com")
        .set_default(Some(gravatar::Default::Url(
            "http://example.org/im age".to_string(),
        )))
        .image_url();
    assert_eq!(
        url,
        format!("{}?d=http%3A%2F%2Fexample.org%2Fim%2520age", BASE)
    );
    assert!(!url.contains(' '));
}

#[test]
fn default_text_that_is_no_url() {
    let url = Gravatar::new("email@example.com")
        .set_default(Some(gravatar::Default::Url("not a url".to_string())))
        .image_url();
    assert_eq!(url, format!("{}?d=not+a+url", BASE));
}

#[test]
fn default_url_is_normalized() {
    let d = gravatar::Default::Url("HTTP://Example.ORG".to_string());
    assert_eq!(d.value(), "http://example.org/");
}

#[test]
fn default_keywords() {
    assert_eq!(gravatar::Default::Http404.value(), "404");
    assert_eq!(gravatar::Default::Blank.value(), "blank");
    assert_eq!(gravatar::Default::MysteryMan.value(), "mm");
    assert_eq!(gravatar::Default::Identicon.value(), "identicon");
    assert_eq!(gravatar::Default::MonsterId.value(), "monsterid");
    assert_eq!(gravatar::Default::Wavatar.value(), "wavatar");
    assert_eq!(gravatar::Default::Retro.value(), "retro");
}

#[test]
fn rating_keywords() {
    assert_eq!(Rating::G.value(), "g");
    assert_eq!(Rating::Pg.value(), "pg");
    assert_eq!(Rating::R.value(), "r");
    assert_eq!(Rating::X.value(), "x");
    let url = Gravatar::new("email@example.com")
        .set_rating(Some(Rating::Pg))
        .image_url();
    assert_eq!(url, format!("{}?r=pg", BASE));
}

#[test]
fn plain_transport_with_options() {
    let url = Gravatar::new("email@example.com")
        .set_ssl(false)
        .set_default(Some(gravatar::Default::Http404))
        .image_url();
    assert_eq!(
        url,
        "http://www.gravatar.com/avatar/5658ffccee7f0ebfda2b226238b1eb6e?d=404"
    );
}

#[test]
fn new_has_no_options() {
    let g = Gravatar::new("a@b.c");
    assert_eq!(g.email, "a@b.c");
    assert_eq!(g.size, None);
    assert!(g.default.is_none());
    assert!(!g.force_default);
    assert_eq!(g.rating, None);
    assert!(g.ssl);
}

#[test]
fn params_in_fixed_order() {
    let mut g = Gravatar::new("a@b.c");
    g.set_rating(Some(Rating::X)).set_size(Some(2048));
    assert_eq!(g.params(), pairs(&[("s", "2048"), ("r", "x")]));
}

#[test]
fn decimal_values() {
    assert_eq!(decimal(0), "0");
    assert_eq!(decimal(9), "9");
    assert_eq!(decimal(10), "10");
    assert_eq!(decimal(2048), "2048");
    assert_eq!(decimal(65535), "65535");
}

#[test]
fn query_string_encodes_values() {
    assert_eq!(query_string(&pairs(&[])), "");
    assert_eq!(query_string(&pairs(&[("s", "80")])), "s=80");
    assert_eq!(
        query_string(&pairs(&[("d", "a b&c=d"), ("r", "g")])),
        "d=a+b%26c%3Dd&r=g"
    );
    assert_eq!(query_string(&pairs(&[("d", "\u{e9}*-._~")])), "d=%C3%A9*-._%7E");
}

#[test]
fn assemble_with_and_without_query() {
    assert_eq!(
        assemble_url(false, "abc", &pairs(&[])),
        "http://www.gravatar.com/avatar/abc"
    );
    assert_eq!(
        assemble_url(true, "abc", &pairs(&[("f", "y")])),
        "https://secure.gravatar.com/avatar/abc?f=y"
    );
}
