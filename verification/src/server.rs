//! Decisions of the tile server's request handlers.

use vstd::prelude::*;

verus! {

/// Where the server publishes its OpenAPI document; the Swagger page loads it.
pub const SWAGGER_DOC_URL: &'static str = "swagger/openapi.yaml";

/// The address the tile handler fetches its image from.
pub const MAP_SOURCE_URL: &'static str = "http://example.com";

/// The Swagger UI page that `axum_swagger_ui::swagger_ui` writes for the
/// OpenAPI document at `spec_url`.
pub uninterp spec fn swagger_ui_page(spec_url: Seq<char>) -> Seq<char>;

/// Calls `axum_swagger_ui::swagger_ui`, which fills its fixed HTML template
/// with the given document address. The page is a function of the address
/// alone; its text is not spelled out here but named `swagger_ui_page`.
#[verifier::external_body]
fn swagger_ui(spec_url: &'static str) -> (page: String)
    ensures
        page@ == swagger_ui_page(spec_url@),
{
    axum_swagger_ui::swagger_ui(spec_url)
}

/// The page served at `/swagger`: the Swagger UI for the server's own
/// OpenAPI document.
pub fn swagger_page() -> (page: String)
    ensures
        page@ == swagger_ui_page(SWAGGER_DOC_URL@),
{
    swagger_ui(SWAGGER_DOC_URL)
}

/// What parsing `s` as a `hyper::Uri` yields: `None` when `s` is no URI,
/// otherwise the URI's scheme, if it has one.
pub uninterp spec fn uri_scheme(s: Seq<char>) -> Option<Option<Seq<char>>>;

/// The view of a parsed scheme.
pub open spec fn scheme_view(r: Option<Option<String>>) -> Option<Option<Seq<char>>> {
    match r {
        None => None,
        Some(None) => Some(None),
        Some(Some(scheme)) => Some(Some(scheme@)),
    }
}

/// Parses `s` as a `hyper::Uri` (`str::parse`, which calls `Uri::from_str`)
/// and reads the scheme with `Uri::scheme_str`. The outcome is a function of
/// `s` alone, named `uri_scheme`.
#[verifier::external_body]
fn parse_uri_scheme(s: &str) -> (r: Option<Option<String>>)
    ensures
        scheme_view(r) == uri_scheme(s@),
{
    match s.parse::<hyper::Uri>() {
        Ok(uri) => Some(uri.scheme_str().map(|scheme| scheme.to_string())),
        Err(_) => None,
    }
}

/// Whether the tile source `url`, which must parse as a URI, uses the `http`
/// scheme: the only one the tile handler fetches from.
pub fn is_http_source(url: &str) -> (http: bool)
    requires
        uri_scheme(url@) is Some,
    ensures
        http == (uri_scheme(url@) == Some(Some("http"@))),
{
    let parsed = parse_uri_scheme(url);
    match parsed {
        Some(Some(scheme)) => {
            let http = String::from_str("http");
            scheme == http
        },
        _ => false,
    }
}

/// Checks the tile source `url`: `None` when it does not parse as a URI,
/// otherwise whether it uses the `http` scheme.
pub fn check_http_source(url: &str) -> (checked: Option<bool>)
    ensures
        checked is None <==> uri_scheme(url@) is None,
        checked matches Some(http) ==> http == (uri_scheme(url@) == Some(Some("http"@))),
{
    let parsed = parse_uri_scheme(url);
    if parsed.is_none() {
        None
    } else {
        Some(is_http_source(url))
    }
}

} // verus!
