//! Links from CLI workflows into authenticated pages of the Opsd website.
//!
//! These links contain only ordinary public identifiers. Authentication stays
//! in the browser's session cookie; CLI API credentials are never copied into
//! URLs or passed to the website.

use vstd::prelude::*;
use crate::web_url::{
    append_query_pair_with_url_crate, opt_text, root_url_rejection, url_join, url_parse,
    url_with_query_pair, ParsedUrl, UrlRejection, UrlView,
};

verus! {

/// The website that the CLI links to unless told otherwise.
pub const PRODUCTION_WEBSITE_URL: &'static str = "https://www.opsd.sh/";

/// Why a website URL is refused.
#[derive(Clone, Copy, Debug, PartialEq, Eq, Structural)]
pub enum WebsiteError {
    InvalidUrl(UrlRejection),
}

/// The Opsd website: an `http` or `https` URL with a host, no credentials,
/// the root path and no query or fragment.
#[derive(Debug, PartialEq, Eq)]
pub struct WebsiteUrl {
    url: ParsedUrl,
}

impl WebsiteUrl {
    #[verifier::type_invariant]
    spec fn is_service_origin(self) -> bool {
        root_url_rejection(self.url@) is None
    }
}

impl View for WebsiteUrl {
    type V = UrlView;

    closed spec fn view(&self) -> UrlView {
        self.url@
    }
}

/// The text of the billing setup page of the website `site` for the
/// business `business_id`.
pub open spec fn spec_billing_setup_url(site: Seq<char>, business_id: Seq<char>) -> Option<Seq<char>> {
    match url_join(site, "billing/setup"@) {
        Some(page) => url_with_query_pair(page, "business_id"@, business_id),
        None => None,
    }
}

impl WebsiteUrl {
    /// The website URL given on the command line, if it is acceptable.
    pub fn from_override(url: ParsedUrl) -> (r: Result<WebsiteUrl, WebsiteError>)
        ensures
            match root_url_rejection(url@) {
                Some(reason) => r == Err::<WebsiteUrl, WebsiteError>(WebsiteError::InvalidUrl(reason)),
                None => r matches Ok(site) && site@ == url@,
            },
    {
        match url.root_rejection() {
            Some(reason) => Err(WebsiteError::InvalidUrl(reason)),
            None => Ok(WebsiteUrl { url }),
        }
    }

    /// The production website, `https://www.opsd.sh/`.
    pub fn production() -> (r: Option<WebsiteUrl>)
        ensures
            match url_parse(PRODUCTION_WEBSITE_URL@) {
                Some(u) => match r {
                    Some(site) => site@ == u && root_url_rejection(u) is None,
                    None => root_url_rejection(u) is Some,
                },
                None => r is None,
            },
    {
        match ParsedUrl::parse(PRODUCTION_WEBSITE_URL) {
            Some(url) => match WebsiteUrl::from_override(url) {
                Ok(site) => Some(site),
                Err(_) => None,
            },
            None => None,
        }
    }

    /// The URL of the website as text.
    pub fn as_str(&self) -> (r: &str)
        ensures
            r@ == self@.href,
            root_url_rejection(self@) is None,
    {
        proof {
            use_type_invariant(self);
        }
        self.url.as_str()
    }

    /// The page that sets up billing for the business `business_id`: the
    /// `billing/setup` page with the business identifier as its only query
    /// parameter.
    pub fn billing_setup_url(&self, business_id: &str) -> (r: Option<String>)
        ensures
            opt_text(r) == spec_billing_setup_url(self@.href, business_id@),
            opt_text(r) == url_with_query_pair(
                self@.href + "billing/setup"@,
                "business_id"@,
                business_id@,
            ),
    {
        proof {
            use_type_invariant(self);
            reveal_strlit("billing/setup");
        }
        match self.url.join("billing/setup") {
            Some(page) => append_query_pair_with_url_crate(page.as_str(), "business_id", business_id),
            None => None,
        }
    }
}

} // verus!
