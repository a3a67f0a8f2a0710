use opsctl::web_url::{ParsedUrl, UrlRejection};
use opsctl::website::{WebsiteError, WebsiteUrl};

fn url(text: &str) -> ParsedUrl {
    ParsedUrl::parse(text).unwrap()
}

#[test]
fn production_billing_setup_url_contains_only_the_business_id() {
    let website = WebsiteUrl::production().unwrap();

    assert_eq!(
        website
            .billing_setup_url("22222222-2222-4222-8222-222222222222")
            .unwrap(),
        "https://www.opsd.sh/billing/setup?business_id=22222222-2222-4222-8222-222222222222"
    );
}

#[test]
fn website_urls_reject_credentials_and_application_paths() {
    assert!(matches!(
        WebsiteUrl::from_override(url("https://user@example.com/")),
        Err(WebsiteError::InvalidUrl(_))
    ));
    assert!(matches!(
        WebsiteUrl::from_override(url("https://www.opsd.sh/account")),
        Err(WebsiteError::InvalidUrl(_))
    ));
}

#[test]
fn billing_setup_urls_encode_the_business_id() {
    let website = WebsiteUrl::from_override(url("http://localhost:3000")).unwrap();
    assert_eq!(website.as_str(), "http://localhost:3000/");
    assert_eq!(
        website.billing_setup_url("a b&c").unwrap(),
        "http://localhost:3000/billing/setup?business_id=a+b%26c"
    );
    assert_eq!(
        WebsiteUrl::from_override(url("ftp://www.opsd.sh/")),
        Err(WebsiteError::InvalidUrl(UrlRejection::UnsupportedScheme))
    );
}
