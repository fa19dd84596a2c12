use wfs2map::server::{check_http_source, is_http_source, swagger_page, MAP_SOURCE_URL, SWAGGER_DOC_URL};

#[test]
fn swagger_page_is_the_swagger_ui_for_the_doc() {
    let page = swagger_page();
    assert_eq!(page, axum_swagger_ui::swagger_ui("swagger/openapi.yaml"));
    assert!(page.contains("url: \"swagger/openapi.yaml\""));
    assert!(page.contains("<title>Swagger UI</title>"));
    assert_ne!(page, SWAGGER_DOC_URL);
}

#[test]
fn map_source_is_http() {
    assert!(is_http_source(MAP_SOURCE_URL));
    assert_eq!(check_http_source("http://example.com"), Some(true));
}

#[test]
fn other_schemes_are_refused() {
    assert_eq!(check_http_source("https://example.com"), Some(false));
    assert!(!is_http_source("ftp://example.com/x"));
}

#[test]
fn uri_without_scheme_is_refused() {
    assert_eq!(check_http_source("/map/1/2/3/4"), Some(false));
}

#[test]
fn unparsable_uri_gives_none() {
    assert_eq!(check_http_source(""), None);
    assert_eq!(check_http_source("http://exa mple.com"), None);
}
