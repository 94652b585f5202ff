use search_shortcuts::query_to_url;
use search_shortcuts::Error;

fn url_of(query: &str) -> String {
    match query_to_url(query) {
        Ok(url) => url,
        Err(e) => panic!("query {:?} gave {:?}", query, e),
    }
}

const WEATHER: &str = "https://beta.bom.gov.au/poi-location/australia/australian-capital-territory/australian-capital-territory/nsw_pt027-canberra";

#[test]
fn github_user() {
    assert_eq!("https://github.com/fullylegit", url_of("gh @fullylegit"));
    assert_eq!("https://github.com/fullylegit", url_of("gh u/fullylegit"));
}

#[test]
fn github_repository() {
    assert_eq!("https://github.com/fullylegit/ja3", url_of("gh fullylegit/ja3"));
}

#[test]
fn github_search() {
    assert_eq!("https://github.com/search?q=test", url_of("gh test"));
    assert_eq!("https://github.com/search?q=lol+donkey", url_of("gh lol donkey"));
}

#[test]
fn github_issue() {
    assert_eq!("https://github.com/rust-lang/rust/issues/1", url_of("gh rust-lang/rust #1"));
}

#[test]
fn github_pull_request() {
    assert_eq!("https://github.com/rust-lang/rust/pull/168", url_of("gh rust-lang/rust !168"));
}

#[test]
fn github_path_with_other_words_is_taken_as_it_stands() {
    assert_eq!(
        "https://github.com/rust-lang/rust%20issues",
        url_of("gh rust-lang/rust issues")
    );
}

#[test]
fn docker_hub_repository() {
    assert_eq!(
        "https://hub.docker.com/r/nvidia/k8s-device-plugin",
        url_of("dh nvidia/k8s-device-plugin")
    );
    assert_eq!(
        "https://hub.docker.com/r/nvidia/k8s-device-plugin",
        url_of("dh r/nvidia/k8s-device-plugin")
    );
}

#[test]
fn docker_hub_search() {
    assert_eq!("https://hub.docker.com/search?q=test", url_of("dh test"));
    assert_eq!("https://hub.docker.com/search?q=nginx", url_of("dh nginx"));
}

#[test]
fn docker_hub_official_image() {
    assert_eq!("https://hub.docker.com/_/nginx", url_of("dh /nginx"));
    assert_eq!("https://hub.docker.com/_/nginx", url_of("dh _/nginx"));
    assert_eq!("https://hub.docker.com/_/nginx", url_of("dh r/nginx"));
}

#[test]
fn wikipedia_search() {
    assert_eq!("https://en.wikipedia.org/wiki/Special:Search?search=test", url_of("w test"));
    assert_eq!(
        "https://en.wikipedia.org/wiki/Special:Search?search=test%2Flol",
        url_of("w test/lol")
    );
}

#[test]
fn stackoverflow_search() {
    assert_eq!("https://stackoverflow.com/search?q=search", url_of("so search"));
    assert_eq!("https://stackoverflow.com/search?q=lol+donkey", url_of("so lol donkey"));
    assert_eq!("https://stackoverflow.com/search?q=lol%2Fdonkey", url_of("so lol/donkey"));
}

#[test]
fn crates_search() {
    assert_eq!("https://crates.io/search?q=search", url_of("crates search"));
    assert_eq!("https://crates.io/search?q=lol+donkey", url_of("crates lol donkey"));
    assert_eq!("https://crates.io/search?q=lol%2Fdonkey", url_of("crates lol/donkey"));
}

#[test]
fn auspost_tracking() {
    assert_eq!("https://auspost.com.au/mypost/track/#/details/ABC123", url_of("ap ABC123"));
}

#[test]
fn docs_of_a_package() {
    assert_eq!("https://docs.rs/actix-web/", url_of("docs actix-web"));
    assert_eq!("https://docs.rs/actix-web/", url_of("docs/actix-web"));
    assert_eq!("https://docs.rs/actix-web/", url_of("docs actix-web/"));
}

#[test]
fn docs_of_a_version() {
    assert_eq!("https://docs.rs/actix-web/3.3.0", url_of("docs actix-web/3.3.0"));
    assert_eq!("https://docs.rs/actix-web/3.3.0", url_of("docs/actix-web/3.3.0"));
    assert_eq!("https://docs.rs/actix-web/3.3.0", url_of("docs actix-web@3.3.0"));
    assert_eq!("https://docs.rs/actix-web/3.3.0", url_of("docs/actix-web@3.3.0"));
}

#[test]
fn docs_of_the_standard_library() {
    assert_eq!("https://doc.rust-lang.org/stable/std/", url_of("docs std"));
    assert_eq!("https://doc.rust-lang.org/stable/std/", url_of("docs/std"));
}

#[test]
fn docs_with_nothing_after_the_prefix() {
    assert_eq!("https://docs.rs/", url_of("docs/"));
}

#[test]
fn web_search() {
    assert_eq!("https://duckduckgo.com/?k1=-1&q=search", url_of("search"));
    assert_eq!("https://duckduckgo.com/?k1=-1&q=lol+donkey", url_of("lol donkey"));
    assert_eq!("https://duckduckgo.com/?k1=-1&q=lol%2Fdonkey", url_of("lol/donkey"));
    assert_eq!("https://duckduckgo.com/?k1=-1&q=802.11p+adapters", url_of("802.11p adapters"));
}

#[test]
fn web_search_keeps_the_case_and_drops_outer_whitespace() {
    assert_eq!("https://duckduckgo.com/?k1=-1&q=Donkey", url_of("Donkey"));
    assert_eq!("https://duckduckgo.com/?k1=-1&q=Donkey", url_of("Donkey "));
    assert_eq!("https://duckduckgo.com/?k1=-1&q=donkey", url_of(" donkey\t"));
}

#[test]
fn web_search_for_an_empty_query() {
    assert_eq!("https://duckduckgo.com/?k1=-1&q=", url_of(""));
    assert_eq!("https://duckduckgo.com/?k1=-1&q=", url_of("   "));
}

#[test]
fn keywords() {
    assert_eq!("https://this-week-in-rust.org/", url_of("twir"));
    assert_eq!("https://www.abc.net.au/news", url_of("abc"));
    assert_eq!("https://hackaday.com/blog/", url_of("had"));
    assert_eq!("https://slashdot.org/", url_of("sd"));
    assert_eq!("https://slashdot.org/", url_of("/."));
    assert_eq!("https://www.servethehome.com/", url_of("sth"));
    assert_eq!("https://xkcd.com/", url_of("x"));
    assert_eq!(WEATHER, url_of("weather"));
    assert_eq!("https://github.com/", url_of("gh"));
    assert_eq!("https://bushfire.io/", url_of("bfio"));
    assert_eq!("https://www.cloudflare.com/cdn-cgi/trace", url_of("ip"));
    assert_eq!("https://www.core-electronics.com.au/", url_of("core"));
    assert_eq!("https://www.booktopia.com.au/", url_of("bt"));
    assert_eq!("https://speed.cloudflare.com/", url_of("speed"));
    assert_eq!("https://www.carexpert.com.au/car-news", url_of("ce"));
    assert_eq!("https://www.twitch.tv/", url_of("t"));
}

#[test]
fn keyword_in_any_case_and_with_whitespace_around_it() {
    assert_eq!(WEATHER, url_of("Weather "));
    assert_eq!(WEATHER, url_of("Weather"));
    assert_eq!(WEATHER, url_of("weather "));
    assert_eq!(WEATHER, url_of("WEATHER"));
    assert_eq!(WEATHER, url_of("  wEaThEr\n"));
}

#[test]
fn keyword_before_prefix() {
    assert_eq!("https://github.com/", url_of("gh "));
    assert_eq!("https://www.twitch.tv/", url_of("t "));
    assert_eq!("https://www.booktopia.com.au/", url_of("BT"));
}

#[test]
fn prefix_is_matched_in_lower_case_only() {
    assert_eq!("https://duckduckgo.com/?k1=-1&q=GH+test", url_of("GH test"));
}

#[test]
fn prefix_without_its_space_is_searched() {
    assert_eq!("https://duckduckgo.com/?k1=-1&q=w", url_of("w "));
    assert_eq!("https://duckduckgo.com/?k1=-1&q=docs", url_of("docs"));
}

#[test]
fn prefix_keeps_the_whitespace_after_it() {
    assert_eq!("https://stackoverflow.com/search?q=+lol", url_of("so  lol"));
}

#[test]
fn urban_dictionary_term() {
    assert_eq!("https://www.urbandictionary.com/define.php?term=test", url_of("ud test"));
}

#[test]
fn core_electronics_search() {
    assert_eq!(
        "https://core-electronics.com.au/catalogsearch/result/?q=lol+donkey",
        url_of("core lol donkey")
    );
}

#[test]
fn booktopia_search() {
    assert_eq!(
        "https://www.booktopia.com.au/search.ep?keywords=lol+donkey&productType=917504",
        url_of("bt lol donkey")
    );
}

#[test]
fn npm_search() {
    assert_eq!("https://www.npmjs.com/search?q=rollup", url_of("npm rollup"));
}

#[test]
fn twitch_channel_and_search() {
    assert_eq!("https://www.twitch.tv/fasffy", url_of("t @fasffy"));
    assert_eq!("https://www.twitch.tv/search?term=search", url_of("t search"));
}

#[test]
fn domain_with_a_stray_space() {
    assert_eq!("https://www.example.com/", url_of("www.example. com"));
    assert_eq!("https://example.com.au/", url_of("example .com. au"));
}

#[test]
fn domain_without_a_space_is_searched() {
    assert_eq!("https://duckduckgo.com/?k1=-1&q=www.example.com", url_of("www.example.com"));
}

#[test]
fn words_under_no_listed_suffix_are_searched() {
    assert_eq!(
        "https://duckduckgo.com/?k1=-1&q=www.example.+notasuffix",
        url_of("www.example. notasuffix")
    );
}

#[test]
fn slash_is_encoded_in_a_parameter_and_kept_in_a_path() {
    assert_eq!("https://duckduckgo.com/?k1=-1&q=lol%2Fdonkey", url_of("lol/donkey"));
    assert_eq!("https://github.com/lol/donkey", url_of("gh lol/donkey"));
}

#[test]
fn reference_that_cannot_be_resolved_is_an_error() {
    assert_eq!(
        Err(Error::UrlBuildError { input: "//".to_string() }),
        query_to_url("gh //")
    );
}

#[test]
fn domain_that_is_no_host_is_an_error() {
    assert_eq!(
        Err(Error::UrlBuildError { input: "https://exam[ple.com".to_string() }),
        query_to_url("exam[ple. com")
    );
}

#[test]
fn error_names_the_refused_text() {
    let e = Error::UrlBuildError { input: "//".to_string() };
    assert_eq!("//", e.input());
    assert_eq!("Error building url from: //", e.message());
}
