use search_shortcuts::policy::{disabled_features, features};
use search_shortcuts::reply::{header, Args, Body, Reply};
use search_shortcuts::{server, worker, Error};

const DISABLED: &str = "accelerometer 'none'; ambient-light-sensor 'none'; autoplay 'none'; battery 'none'; camera 'none'; display-capture 'none'; document-domain 'none'; encrypted-media 'none'; execution-while-not-rendered 'none'; execution-while-out-of-viewport 'none'; fullscreen 'none'; geolocation 'none'; gyroscope 'none'; layout-animations 'none'; legacy-image-formats 'none'; magnetometer 'none'; microphone 'none'; midi 'none'; navigation-override 'none'; oversized-images 'none'; payment 'none'; picture-in-picture 'none'; publickey-credentials-get 'none'; sync-xhr 'none'; usb 'none'; vr 'none'; wake-lock 'none'; screen-wake-lock 'none'; web-share 'none'; xr-spatial-tracking 'none'";

const DISABLED_WITH_COHORT: &str = "accelerometer 'none'; ambient-light-sensor 'none'; autoplay 'none'; battery 'none'; camera 'none'; display-capture 'none'; document-domain 'none'; encrypted-media 'none'; execution-while-not-rendered 'none'; execution-while-out-of-viewport 'none'; fullscreen 'none'; geolocation 'none'; gyroscope 'none'; interest-cohort 'none'; layout-animations 'none'; legacy-image-formats 'none'; magnetometer 'none'; microphone 'none'; midi 'none'; navigation-override 'none'; oversized-images 'none'; payment 'none'; picture-in-picture 'none'; publickey-credentials-get 'none'; sync-xhr 'none'; usb 'none'; vr 'none'; wake-lock 'none'; screen-wake-lock 'none'; web-share 'none'; xr-spatial-tracking 'none'";

fn pairs(list: &[(&str, &str)]) -> Vec<(String, String)> {
    list.iter().map(|(k, v)| (k.to_string(), v.to_string())).collect()
}

fn worker_headers(last: &[(&str, &str)]) -> Vec<(String, String)> {
    let mut all = pairs(&[
        ("Referrer-Policy", "no-referrer"),
        ("X-XSS-Protection", "1; mode=block"),
        ("X-Frame-Options", "DENY"),
        ("X-Content-Type-Options", "nosniff"),
        ("Feature-Policy", DISABLED_WITH_COHORT),
        ("Permissions-Policy", DISABLED_WITH_COHORT),
        ("Content-Security-Policy", "default-src 'self'"),
        ("Strict-Transport-Security", "max-age=63072000; includeSubDomains; preload "),
        ("Cross-Origin-Embedder-Policy", "require-corp"),
        ("Cross-Origin-Resource-Policy", "cross-origin"),
        ("Cross-Origin-Opener-Policy", "same-origin"),
    ]);
    all.extend(pairs(last));
    all
}

fn asking(q: &str) -> Args {
    Args { q: Some(q.to_string()) }
}

#[test]
fn features_are_thirty_or_thirty_one() {
    assert_eq!(30, features(false).len());
    assert_eq!(31, features(true).len());
    assert_eq!("interest-cohort", features(true)[13]);
    assert_eq!("layout-animations", features(false)[13]);
    assert_eq!("xr-spatial-tracking", features(true)[30]);
}

#[test]
fn disabled_features_are_joined_by_semicolons() {
    assert_eq!(DISABLED, disabled_features(false));
    assert_eq!(DISABLED_WITH_COHORT, disabled_features(true));
}

#[test]
fn header_is_a_pair() {
    assert_eq!(("A".to_string(), "b".to_string()), header("A", "b"));
}

#[test]
fn worker_default_headers_without_a_content_type() {
    assert_eq!(worker_headers(&[]), worker::default_headers(None));
}

#[test]
fn worker_default_headers_end_with_the_content_type() {
    assert_eq!(
        worker_headers(&[("Content-Type", "text/html")]),
        worker::default_headers(Some("text/html"))
    );
}

#[test]
fn worker_index_page() {
    assert_eq!(
        Reply {
            status: 200,
            headers: worker_headers(&[("Content-Type", "text/html")]),
            body: Body::LandingPage
        },
        worker::index_page()
    );
}

#[test]
fn worker_osdf() {
    assert_eq!(
        Reply {
            status: 200,
            headers: worker_headers(&[("Content-Type", "application/opensearchdescription+xml")]),
            body: Body::SearchDescription
        },
        worker::osdf()
    );
}

#[test]
fn worker_see_other_carries_the_location_last() {
    assert_eq!(
        Reply {
            status: 303,
            headers: worker_headers(&[("Location", "https://xkcd.com/")]),
            body: Body::Empty
        },
        worker::see_other("https://xkcd.com/")
    );
}

#[test]
fn worker_redirect_sends_on_to_the_url_of_the_query() {
    assert_eq!(Ok(worker::see_other("https://xkcd.com/")), worker::redirect(&asking("x")));
    assert_eq!(
        Ok(worker::see_other("https://crates.io/search?q=url")),
        worker::redirect(&asking("crates url"))
    );
}

#[test]
fn worker_redirect_without_a_query_shows_the_page() {
    assert_eq!(Ok(worker::index_page()), worker::redirect(&Args { q: None }));
}

#[test]
fn worker_redirect_hands_the_error_on() {
    assert_eq!(
        Err(Error::UrlBuildError { input: "//".to_string() }),
        worker::redirect(&asking("gh //"))
    );
}

#[test]
fn worker_index_without_a_query_string_shows_the_page() {
    assert_eq!(Ok(worker::index_page()), worker::index(None));
    assert_eq!(Ok(worker::index_page()), worker::index(Some(&Args { q: None })));
}

#[test]
fn worker_index_with_a_query_redirects() {
    assert_eq!(
        Ok(worker::see_other("https://github.com/search?q=verus")),
        worker::index(Some(&asking("gh verus")))
    );
}

#[test]
fn server_default_headers() {
    assert_eq!(
        pairs(&[
            ("Referrer-Policy", "no-referrer"),
            ("X-XSS-Protection", "1; mode=block"),
            ("X-Frame-Options", "DENY"),
            ("X-Content-Type-Options", "nosniff"),
            ("Feature-Policy", DISABLED),
            ("Content-Security-Policy", "default-src 'self'"),
            ("Cross-Origin-Embedder-Policy", "require-corp"),
            ("Cross-Origin-Resource-Policy", "cross-origin"),
            ("Cross-Origin-Opener-Policy", "same-origin"),
            ("Strict-Transport-Security", "max-age=63072000; includeSubDomains; preload "),
        ]),
        server::default_headers()
    );
}

#[test]
fn server_index_redirects_with_the_location_alone() {
    assert_eq!(
        Ok(Reply {
            status: 303,
            headers: pairs(&[("Location", "https://xkcd.com/")]),
            body: Body::Empty
        }),
        server::index(&asking("x"))
    );
}

#[test]
fn server_index_without_a_query_shows_the_page() {
    assert_eq!(
        Ok(Reply {
            status: 200,
            headers: pairs(&[("Content-Type", "text/html")]),
            body: Body::LandingPage
        }),
        server::index(&Args { q: None })
    );
}

#[test]
fn server_index_hands_the_error_on() {
    assert_eq!(
        Err(Error::UrlBuildError { input: "//".to_string() }),
        server::index(&asking("gh //"))
    );
}

#[test]
fn server_osdf() {
    assert_eq!(
        Reply {
            status: 200,
            headers: pairs(&[("Content-Type", "application/opensearchdescription+xml")]),
            body: Body::SearchDescription
        },
        server::osdf()
    );
}
